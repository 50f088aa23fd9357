use psqlpy::text::push_decimal;

fn spelled(n: usize) -> String {
    let mut s = String::from("n=");
    push_decimal(&mut s, n);
    s
}

#[test]
fn decimal_spelling() {
    assert_eq!(spelled(0), "n=0");
    assert_eq!(spelled(9), "n=9");
    assert_eq!(spelled(10), "n=10");
    assert_eq!(spelled(1234567), "n=1234567");
    assert_eq!(spelled(usize::MAX), format!("n={}", usize::MAX));
}
