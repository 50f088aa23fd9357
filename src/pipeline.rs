//! Gathering the answers of a pipeline back into the order of its queries.
use vstd::prelude::*;

use crate::transaction::TransactionError;

verus! {

/// Some entry of `completions` is tagged with position `j`.
pub open spec fn answers<R, E>(completions: Seq<(usize, Result<R, E>)>, j: int) -> bool {
    exists|k: int| 0 <= k < completions.len() && (#[trigger] completions[k]).0 == j
}

/// `completions` holds one entry for each position `0..n`, in any order.
pub open spec fn covers_each_once<R, E>(completions: Seq<(usize, Result<R, E>)>, n: nat) -> bool {
    &&& forall|k: int| 0 <= k < completions.len() ==> (#[trigger] completions[k]).0 < n
    &&& forall|k1: int, k2: int|
        0 <= k1 < k2 < completions.len() ==> (#[trigger] completions[k1]).0 != (
        #[trigger] completions[k2]).0
    &&& forall|j: int| 0 <= j < n ==> #[trigger] answers(completions, j)
}

/// The answers of a pipeline of `n` queries, given in the order they completed,
/// each tagged with the position of its query. Fails with the first error met
/// in that order; otherwise returns the answers in query order.
pub fn pipeline_results<R, E>(n: usize, completions: Vec<(usize, Result<R, E>)>) -> (r: Result<
    Vec<R>,
    TransactionError<E>,
>)
    requires
        covers_each_once(completions@, n as nat),
    ensures
        (exists|k: int| 0 <= k < completions@.len() && completions@[k].1 is Err) ==> exists|k: int|
            {
                &&& 0 <= k < completions@.len()
                &&& (forall|j: int| 0 <= j < k ==> (#[trigger] completions@[j]).1 is Ok)
                &&& (#[trigger] completions@[k]).1 matches Err(e) && r == Err::<
                    Vec<R>,
                    TransactionError<E>,
                >(TransactionError::DriverError(e))
            },
        (forall|k: int| 0 <= k < completions@.len() ==> (#[trigger] completions@[k]).1 is Ok)
            ==> (r matches Ok(results) && results@.len() == n && forall|k: int|
            0 <= k < completions@.len() ==> (#[trigger] completions@[k]).1 == Ok::<R, E>(
                results@[completions@[k].0 as int],
            )),
{
    let ghost cs = completions@;
    let mut slots: Vec<Option<R>> = Vec::new();
    while slots.len() < n
        invariant
            slots@.len() <= n,
            forall|i: int| 0 <= i < slots@.len() ==> (#[trigger] slots@[i]) is None,
        decreases n - slots@.len(),
    {
        slots.push(None);
    }
    let total = completions.len();
    let mut rest = completions;
    let mut done: usize = 0;
    while rest.len() > 0
        invariant
            covers_each_once(cs, n as nat),
            slots@.len() == n,
            done + rest@.len() == cs.len(),
            cs.len() == total,
            cs == completions@,
            rest@ == cs.subrange(done as int, cs.len() as int),
            forall|k: int| 0 <= k < done ==> (#[trigger] cs[k]).1 is Ok,
            forall|k: int|
                0 <= k < done ==> (#[trigger] cs[k]).1 == Ok::<R, E>(slots@[cs[k].0 as int]->Some_0)
                    && slots@[cs[k].0 as int] is Some,
            forall|i: int|
                0 <= i < n ==> (#[trigger] slots@[i] is Some) ==> exists|k: int|
                    0 <= k < done && cs[k].0 == i,
        decreases rest@.len(),
    {
        assert(rest@[0] == cs[done as int]);
        let (index, outcome) = rest.remove(0);
        match outcome {
            Ok(value) => {
                slots.set(index, Some(value));
                done += 1;
                assert forall|i: int| 0 <= i < n && (#[trigger] slots@[i] is Some) implies exists|k: int|
                    0 <= k < done && cs[k].0 == i by {
                    if i != index {
                        let k = choose|k: int| 0 <= k < done - 1 && cs[k].0 == i;
                        assert(0 <= k < done && cs[k].0 == i);
                    } else {
                        assert(cs[done - 1].0 == i);
                    }
                }
            },
            Err(e) => {
                let r = Err(TransactionError::DriverError(e));
                assert({
                    &&& 0 <= done < cs.len()
                    &&& (forall|j: int| 0 <= j < done ==> (#[trigger] cs[j]).1 is Ok)
                    &&& (#[trigger] cs[done as int]).1 matches Err(e2) && r == Err::<
                        Vec<R>,
                        TransactionError<E>,
                    >(TransactionError::DriverError(e2))
                });
                return r;
            },
        }
    }
    assert forall|i: int| 0 <= i < n implies (#[trigger] slots@[i]) is Some by {
        assert(answers(cs, i));
        let k = choose|k: int| 0 <= k < cs.len() && (#[trigger] cs[k]).0 == i;
        assert(cs[k].1 is Ok);
    }
    let ghost filled = slots@;
    let mut results: Vec<R> = Vec::new();
    let mut rest = slots;
    while rest.len() > 0
        invariant
            results@.len() + rest@.len() == n,
            filled.len() == n,
            rest@ == filled.subrange(results@.len() as int, n as int),
            forall|i: int| 0 <= i < n ==> (#[trigger] filled[i]) is Some,
            forall|i: int| 0 <= i < results@.len() ==> filled[i] == Some(#[trigger] results@[i]),
        decreases rest@.len(),
    {
        assert(rest@[0] == filled[results@.len() as int]);
        match rest.remove(0) {
            Some(value) => results.push(value),
            None => {
                assert(false);
            },
        }
    }
    assert forall|k: int| 0 <= k < cs.len() implies (#[trigger] cs[k]).1 == Ok::<R, E>(
        results@[cs[k].0 as int],
    ) by {
        assert(filled[cs[k].0 as int] == Some(results@[cs[k].0 as int]));
    }
    Ok(results)
}

} // verus!
