//! The set of savepoint names that are valid in one transaction.
use vstd::prelude::*;

verus! {

/// Savepoint names of one transaction. A name is present from the moment its
/// `SAVEPOINT` succeeded until it is released.
///
/// Only check-and-change operations are offered, so a membership test and the
/// change that depends on it always happen in one call.
pub struct SavepointRegistry {
    names: Vec<String>,
}

/// Whether some string of `s` reads `x`.
spec fn has_name(s: Seq<String>, x: Seq<char>) -> bool {
    exists|k: int| 0 <= k < s.len() && s[k]@ == x
}

proof fn lemma_has_name_push(s: Seq<String>, e: String, x: Seq<char>)
    ensures
        has_name(s.push(e), x) == (has_name(s, x) || e@ == x),
{
    if has_name(s, x) {
        let k = choose|k: int| 0 <= k < s.len() && s[k]@ == x;
        assert(s.push(e)[k]@ == x);
    }
    if e@ == x {
        assert(s.push(e)[s.len() as int]@ == x);
    }
    if has_name(s.push(e), x) {
        let k = choose|k: int| 0 <= k < s.push(e).len() && s.push(e)[k]@ == x;
        if k < s.len() {
            assert(s[k]@ == x);
        }
    }
}

impl View for SavepointRegistry {
    type V = Set<Seq<char>>;

    closed spec fn view(&self) -> Set<Seq<char>> {
        Set::new(|n: Seq<char>| has_name(self.names@, n))
    }
}

impl SavepointRegistry {
    /// A registry with no names.
    pub fn new() -> (r: Self)
        ensures
            r@ == Set::<Seq<char>>::empty(),
    {
        let r = SavepointRegistry { names: Vec::new() };
        assert(r@ =~= Set::<Seq<char>>::empty());
        r
    }

    /// Whether `name` is registered.
    pub fn contains(&self, name: &String) -> (r: bool)
        ensures
            r == self@.contains(name@),
    {
        let mut i: usize = 0;
        while i < self.names.len()
            invariant
                i <= self.names@.len(),
                forall|j: int| 0 <= j < i ==> self.names@[j]@ != name@,
            decreases self.names@.len() - i,
        {
            if self.names[i] == *name {
                return true;
            }
            i += 1;
        }
        false
    }

    /// Registers `name` unless it is already present; returns whether it was added.
    pub fn insert(&mut self, name: String) -> (r: bool)
        ensures
            r == !old(self)@.contains(name@),
            final(self)@ == old(self)@.insert(name@),
    {
        if self.contains(&name) {
            assert(self@ =~= old(self)@.insert(name@));
            return false;
        }
        let ghost n = name@;
        let ghost before = self.names@;
        self.names.push(name);
        assert forall|x: Seq<char>| #[trigger] self@.contains(x) == old(self)@.insert(n).contains(x) by {
            lemma_has_name_push(before, self.names@.last(), x);
            assert(before.push(self.names@.last()) == self.names@);
        }
        assert(self@ =~= old(self)@.insert(n));
        true
    }

    /// Removes `name` if present; returns whether it was present.
    pub fn remove(&mut self, name: &String) -> (r: bool)
        ensures
            r == old(self)@.contains(name@),
            final(self)@ == old(self)@.remove(name@),
    {
        let ghost before = self.names@;
        let mut kept: Vec<String> = Vec::new();
        let mut found = false;
        let mut i: usize = 0;
        while i < self.names.len()
            invariant
                i <= self.names@.len(),
                self.names@ == before,
                found == has_name(before.subrange(0, i as int), name@),
                forall|x: Seq<char>|
                    #[trigger] has_name(kept@, x) == (x != name@ && has_name(
                        before.subrange(0, i as int),
                        x,
                    )),
            decreases self.names@.len() - i,
        {
            let ghost old_kept = kept@;
            let item = self.names[i].clone();
            assert(before.subrange(0, i + 1) == before.subrange(0, i as int).push(before[i as int]));
            if item == *name {
                found = true;
            } else {
                kept.push(item);
            }
            assert forall|x: Seq<char>|
                #[trigger] has_name(kept@, x) == (x != name@ && has_name(
                    before.subrange(0, i + 1),
                    x,
                )) by {
                lemma_has_name_push(before.subrange(0, i as int), before[i as int], x);
                if item@ != name@ {
                    lemma_has_name_push(old_kept, item, x);
                }
            }
            proof {
                lemma_has_name_push(before.subrange(0, i as int), before[i as int], name@);
            }
            i += 1;
        }
        assert(before.subrange(0, i as int) == before);
        self.names = kept;
        assert(self@ =~= old(self)@.remove(name@));
        found
    }
}

} // verus!
