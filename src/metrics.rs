//! Counting over vectors of class labels.
use vstd::prelude::*;

verus! {

/// How many times `a` occurs in `s`.
pub open spec fn count_of(s: Seq<u32>, a: u32) -> nat
    decreases s.len(),
{
    if s.len() == 0 {
        0
    } else {
        count_of(s.drop_last(), a) + if s.last() == a {
            1nat
        } else {
            0nat
        }
    }
}

fn occurrences(v: &Vec<u32>, a: u32) -> (r: usize)
    ensures
        r == count_of(v@, a),
{
    let mut count: usize = 0;
    let mut j: usize = 0;
    while j < v.len()
        invariant
            j <= v@.len(),
            count <= j,
            count == count_of(v@.subrange(0, j as int), a),
        decreases v@.len() - j,
    {
        assert(v@.subrange(0, j + 1).drop_last() == v@.subrange(0, j as int));
        if v[j] == a {
            count += 1;
        }
        j += 1;
    }
    assert(v@.subrange(0, j as int) == v@);
    count
}

/// The most frequent value of `v`; among equally frequent values, the one
/// that occurs first. An empty `v` gives 0.
pub fn mode(v: &Vec<u32>) -> (r: u32)
    ensures
        v@.len() == 0 ==> r == 0,
        v@.len() > 0 ==> exists|k: int|
            {
                &&& 0 <= k < v@.len()
                &&& v@[k] == r
                &&& forall|j: int| 0 <= j < v@.len() ==> count_of(v@, #[trigger] v@[j]) <= count_of(v@, r)
                &&& forall|j: int| 0 <= j < k ==> count_of(v@, #[trigger] v@[j]) < count_of(v@, r)
            },
{
    if v.len() == 0 {
        return 0;
    }
    let mut best: u32 = v[0];
    let mut best_count: usize = occurrences(v, v[0]);
    let ghost mut best_at: int = 0;
    let mut i: usize = 1;
    while i < v.len()
        invariant
            1 <= i <= v@.len(),
            0 <= best_at < i,
            v@[best_at] == best,
            best_count == count_of(v@, best),
            forall|j: int| 0 <= j < i ==> count_of(v@, #[trigger] v@[j]) <= best_count,
            forall|j: int| 0 <= j < best_at ==> count_of(v@, #[trigger] v@[j]) < best_count,
        decreases v@.len() - i,
    {
        let count = occurrences(v, v[i]);
        if count > best_count {
            best = v[i];
            best_count = count;
            proof {
                best_at = i as int;
            }
        }
        i += 1;
    }
    best
}

/// How many of the first `n` positions predict `predicted` where the truth is `actual`.
pub open spec fn pair_count(y_hat: Seq<u32>, y: Seq<u32>, predicted: u32, actual: u32, n: nat) -> nat
    decreases n,
{
    if n == 0 {
        0
    } else {
        pair_count(y_hat, y, predicted, actual, (n - 1) as nat) + if y_hat[n - 1] == predicted && y[n
            - 1] == actual {
            1nat
        } else {
            0nat
        }
    }
}

/// The number of positions that both label vectors have.
pub open spec fn paired_len(y_hat: Seq<u32>, y: Seq<u32>) -> nat {
    if y_hat.len() <= y.len() {
        y_hat.len()
    } else {
        y.len()
    }
}

/// True positives, true negatives, false positives and false negatives of the
/// predictions `y_hat` against the labels `y`, over the positions both have.
/// Positions whose labels are not 0 or 1 are not counted.
pub fn confusion_matrix(y_hat: &Vec<u32>, y: &Vec<u32>) -> (r: (u32, u32, u32, u32))
    requires
        paired_len(y_hat@, y@) <= u32::MAX,
    ensures
        r.0 == pair_count(y_hat@, y@, 1, 1, paired_len(y_hat@, y@)),
        r.1 == pair_count(y_hat@, y@, 0, 0, paired_len(y_hat@, y@)),
        r.2 == pair_count(y_hat@, y@, 1, 0, paired_len(y_hat@, y@)),
        r.3 == pair_count(y_hat@, y@, 0, 1, paired_len(y_hat@, y@)),
{
    let n: usize = if y_hat.len() <= y.len() {
        y_hat.len()
    } else {
        y.len()
    };
    let mut tp: u32 = 0;
    let mut tn: u32 = 0;
    let mut fp: u32 = 0;
    let mut fn_: u32 = 0;
    let mut i: usize = 0;
    while i < n
        invariant
            n == paired_len(y_hat@, y@),
            n <= u32::MAX,
            i <= n,
            tp + tn + fp + fn_ <= i,
            tp == pair_count(y_hat@, y@, 1, 1, i as nat),
            tn == pair_count(y_hat@, y@, 0, 0, i as nat),
            fp == pair_count(y_hat@, y@, 1, 0, i as nat),
            fn_ == pair_count(y_hat@, y@, 0, 1, i as nat),
        decreases n - i,
    {
        let predicted = y_hat[i];
        let actual = y[i];
        if predicted == 1 && actual == 1 {
            tp += 1;
        } else if predicted == 0 && actual == 0 {
            tn += 1;
        } else if predicted == 1 && actual == 0 {
            fp += 1;
        } else if predicted == 0 && actual == 1 {
            fn_ += 1;
        }
        i += 1;
    }
    (tp, tn, fp, fn_)
}

} // verus!
