//! A finite set of strings, used for the negative cache and for the
//! worker's record of store paths it has already taken up.

use vstd::prelude::*;

verus! {

/// A set of strings, kept as a list of its members.
///
/// vstd specifies std's `HashSet` only for keys whose hashing it models
/// (integers and `bool`); with `String` keys not even membership after an
/// insert could be proved, so the set is a list with linear lookups. The
/// sets it holds stay small: hashes missed since start-up, and the paths the
/// worker has taken up.
pub struct StringSet {
    items: Vec<String>,
}

impl View for StringSet {
    type V = Set<Seq<char>>;

    closed spec fn view(&self) -> Set<Seq<char>> {
        Set::new(|h: Seq<char>| exists|i: int| 0 <= i < self.items@.len() && #[trigger] self.items@[i]@ == h)
    }
}

impl StringSet {
    /// The empty set.
    pub fn new() -> (r: StringSet)
        ensures
            r@ == Set::<Seq<char>>::empty(),
    {
        let r = StringSet { items: Vec::new() };
        assert(r@ =~= Set::<Seq<char>>::empty());
        r
    }

    /// Whether `s` is a member.
    pub fn contains(&self, s: &String) -> (r: bool)
        ensures
            r == self@.contains(s@),
    {
        let mut i: usize = 0;
        while i < self.items.len()
            invariant
                i <= self.items@.len(),
                forall|j: int| 0 <= j < i ==> self.items@[j]@ != s@,
            decreases self.items.len() - i,
        {
            if self.items[i] == *s {
                assert(self.items@[i as int]@ == s@);
                return true;
            }
            i = i + 1;
        }
        false
    }

    /// Adds `s`.
    pub fn insert(&mut self, s: String)
        ensures
            final(self)@ == old(self)@.insert(s@),
    {
        if !self.contains(&s) {
            let ghost sv = s@;
            self.items.push(s);
            assert(self.items@[self.items@.len() - 1]@ == sv);
            assert forall|h: Seq<char>| self@.contains(h) == old(self)@.insert(sv).contains(h) by {
                if old(self)@.contains(h) {
                    let i = choose|i: int| 0 <= i < old(self).items@.len() && #[trigger] old(self).items@[i]@ == h;
                    assert(self.items@[i]@ == h);
                }
                if self@.contains(h) && h != sv {
                    let i = choose|i: int| 0 <= i < self.items@.len() && #[trigger] self.items@[i]@ == h;
                    assert(old(self).items@[i]@ == h);
                }
            }
            assert(self@ =~= old(self)@.insert(sv));
        } else {
            assert(old(self)@.insert(s@) =~= old(self)@);
        }
    }

    /// Takes `s` out.
    pub fn remove(&mut self, s: &String)
        ensures
            final(self)@ == old(self)@.remove(s@),
    {
        let mut kept: Vec<String> = Vec::new();
        let mut i: usize = 0;
        while i < self.items.len()
            invariant
                i <= self.items@.len(),
                forall|k: int| 0 <= k < kept@.len() ==> (#[trigger] kept@[k])@ != s@,
                forall|k: int| #![trigger kept@[k]] 0 <= k < kept@.len() ==> exists|j: int| #![trigger self.items@[j]] 0 <= j < i && self.items@[j]@ == kept@[k]@,
                forall|j: int| #![trigger self.items@[j]] 0 <= j < i && self.items@[j]@ != s@ ==> exists|k: int| #![trigger kept@[k]] 0 <= k < kept@.len() && kept@[k]@ == self.items@[j]@,
            decreases self.items.len() - i,
        {
            let ghost before_push = kept@;
            if self.items[i] != *s {
                let c = self.items[i].clone();
                kept.push(c);
                assert(kept@[kept@.len() - 1]@ == self.items@[i as int]@);
            }
            assert forall|j: int| #![trigger self.items@[j]] 0 <= j <= i && self.items@[j]@ != s@
                implies exists|k: int| #![trigger kept@[k]] 0 <= k < kept@.len() && kept@[k]@ == self.items@[j]@ by {
                if j < i {
                    let k = choose|k: int| #![trigger before_push[k]] 0 <= k < before_push.len() && before_push[k]@ == self.items@[j]@;
                    assert(kept@[k] == before_push[k]);
                } else {
                    assert(kept@[kept@.len() - 1]@ == self.items@[j]@);
                }
            }
            i = i + 1;
        }
        let ghost before = old(self)@;
        self.items = kept;
        assert forall|h: Seq<char>| self@.contains(h) == before.remove(s@).contains(h) by {
            if self@.contains(h) {
                let k = choose|k: int| 0 <= k < self.items@.len() && #[trigger] self.items@[k]@ == h;
                assert(exists|j: int| 0 <= j < old(self).items@.len() && (#[trigger] old(self).items@[j])@ == self.items@[k]@);
                let j = choose|j: int| 0 <= j < old(self).items@.len() && (#[trigger] old(self).items@[j])@ == self.items@[k]@;
                assert(before.contains(h));
            }
            if before.remove(s@).contains(h) {
                let j = choose|j: int| 0 <= j < old(self).items@.len() && #[trigger] old(self).items@[j]@ == h;
                let k = choose|k: int| 0 <= k < self.items@.len() && self.items@[k]@ == old(self).items@[j]@;
                assert(self.items@[k]@ == h);
            }
        }
        assert(self@ =~= before.remove(s@));
    }
}

} // verus!
