//! Symbol tables keyed by source names, where a later binding shadows an
//! earlier one.
use vstd::prelude::*;
use crate::text::eq_chars;

verus! {

/// The value bound to `k` by the last entry of `s` that names it.
pub open spec fn assoc_get<V>(s: Seq<(Seq<char>, V)>, k: Seq<char>) -> Option<V>
    decreases s.len(),
{
    if s.len() == 0 {
        None
    } else if s.last().0 == k {
        Some(s.last().1)
    } else {
        assoc_get(s.drop_last(), k)
    }
}

/// A table from names to 32-bit values.
pub struct SymTab {
    pub entries: Vec<(Vec<char>, i32)>,
}

impl View for SymTab {
    type V = Seq<(Seq<char>, i32)>;

    open spec fn view(&self) -> Seq<(Seq<char>, i32)> {
        self.entries@.map_values(|e: (Vec<char>, i32)| (e.0@, e.1))
    }
}

impl SymTab {
    /// The empty table.
    pub fn new() -> (r: SymTab)
        ensures
            r@ == Seq::<(Seq<char>, i32)>::empty(),
    {
        let r = SymTab { entries: Vec::new() };
        assert(r@ =~= Seq::<(Seq<char>, i32)>::empty());
        r
    }

    /// The value bound to `k`, if any.
    pub fn get(&self, k: &Vec<char>) -> (r: Option<i32>)
        ensures
            r == assoc_get(self@, k@),
    {
        let mut i = self.entries.len();
        assert(self@.take(i as int) =~= self@);
        while i > 0
            invariant
                i <= self@.len(),
                self@.len() == self.entries@.len(),
                assoc_get(self@, k@) == assoc_get(self@.take(i as int), k@),
            decreases i,
        {
            let e = &self.entries[i - 1];
            assert(self@.take(i as int).drop_last() =~= self@.take(i - 1));
            assert(self@.take(i as int).last() == self@[i - 1]);
            if eq_chars(&e.0, k) {
                return Some(e.1);
            }
            i = i - 1;
        }
        None
    }

    /// Binds `k` to `v`, shadowing any earlier binding.
    pub fn insert(&mut self, k: Vec<char>, v: i32)
        ensures
            final(self)@ == old(self)@.push((k@, v)),
    {
        self.entries.push((k, v));
        assert(self@ =~= old(self)@.push((k@, v)));
    }
}

/// A set of names.
pub struct NameSet {
    pub names: Vec<Vec<char>>,
}

impl View for NameSet {
    type V = Seq<Seq<char>>;

    open spec fn view(&self) -> Seq<Seq<char>> {
        self.names@.map_values(|n: Vec<char>| n@)
    }
}

impl NameSet {
    /// The empty set.
    pub fn new() -> (r: NameSet)
        ensures
            r@ == Seq::<Seq<char>>::empty(),
    {
        let r = NameSet { names: Vec::new() };
        assert(r@ =~= Seq::<Seq<char>>::empty());
        r
    }

    /// Whether `k` is in the set.
    pub fn contains(&self, k: &Vec<char>) -> (r: bool)
        ensures
            r == self@.contains(k@),
    {
        let mut i: usize = 0;
        while i < self.names.len()
            invariant
                i <= self@.len(),
                self@.len() == self.names@.len(),
                forall|j: int| 0 <= j < i ==> self@[j] != k@,
            decreases self@.len() - i,
        {
            if eq_chars(&self.names[i], k) {
                assert(self@[i as int] == k@);
                return true;
            }
            i = i + 1;
        }
        false
    }

    /// Adds `k`.
    pub fn insert(&mut self, k: Vec<char>)
        ensures
            final(self)@ == old(self)@.push(k@),
    {
        self.names.push(k);
        assert(self@ =~= old(self)@.push(k@));
    }
}

} // verus!
