//! Ordered variable bindings.
//!
//! Environment and property maps are kept as ordered lists of `(key, value)`
//! pairs.  Merging two maps appends the second to the first, and a later
//! binding for a key shadows an earlier one, so "later sources win" holds by
//! construction.  [`lookup_in`] gives the mathematical reading of a pair list
//! and [`lemma_lookup_append`] states the merge semantics exactly.

use vstd::prelude::*;

use crate::text::str_eq;
use crate::value::Value;

verus! {

/// The value bound to `key` by `pairs`: the value of the last pair whose key
/// has the characters of `key`, if any.
pub open spec fn lookup_in<V>(pairs: Seq<(String, V)>, key: Seq<char>) -> Option<V>
    decreases pairs.len(),
{
    if pairs.len() == 0 {
        None
    } else if pairs.last().0@ == key {
        Some(pairs.last().1)
    } else {
        lookup_in(pairs.drop_last(), key)
    }
}

/// Looking a key up in a merged list prefers the later list: the merge of two
/// maps binds every key of the second map as the second map does, and every
/// other key as the first map does.
pub proof fn lemma_lookup_append<V>(a: Seq<(String, V)>, b: Seq<(String, V)>, key: Seq<char>)
    ensures
        lookup_in(a + b, key) == (if lookup_in(b, key) is Some {
            lookup_in(b, key)
        } else {
            lookup_in(a, key)
        }),
    decreases b.len(),
{
    if b.len() == 0 {
        assert(a + b =~= a);
    } else {
        assert((a + b).drop_last() =~= a + b.drop_last());
        lemma_lookup_append(a, b.drop_last(), key);
    }
}

/// An ordered list of `(key, value)` bindings where a later binding for a key
/// shadows an earlier one.
pub struct Bindings<V> {
    pub pairs: Vec<(String, V)>,
}

impl<V> Bindings<V> {
    /// The binding of `key`, as a mathematical value.
    pub open spec fn spec_lookup(&self, key: Seq<char>) -> Option<V> {
        lookup_in(self.pairs@, key)
    }

    /// An empty set of bindings.
    pub fn new() -> (r: Self)
        ensures
            r.pairs@ == Seq::<(String, V)>::empty(),
    {
        Bindings { pairs: Vec::new() }
    }

    /// Add one binding after all present ones; it shadows earlier bindings of
    /// the same key.
    pub fn push(&mut self, key: String, value: V)
        ensures
            final(self).pairs@ == old(self).pairs@.push((key, value)),
    {
        self.pairs.push((key, value));
    }

    /// Merge `other` into `self`; bindings of `other` win over present ones.
    pub fn extend(&mut self, other: Bindings<V>)
        ensures
            final(self).pairs@ == old(self).pairs@ + other.pairs@,
    {
        let mut other = other;
        self.pairs.append(&mut other.pairs);
    }

    /// The number of bindings, shadowed ones included.
    pub fn len(&self) -> (n: usize)
        ensures
            n == self.pairs@.len(),
    {
        self.pairs.len()
    }

    /// The value bound to `key`, honouring shadowing.
    pub fn get(&self, key: &str) -> (r: Option<&V>)
        ensures
            match r {
                Some(v) => self.spec_lookup(key@) == Some(*v),
                None => self.spec_lookup(key@) is None,
            },
    {
        let mut i: usize = self.pairs.len();
        assert(self.pairs@.take(i as int) =~= self.pairs@);
        while i > 0
            invariant
                i <= self.pairs@.len(),
                lookup_in(self.pairs@, key@) == lookup_in(self.pairs@.take(i as int), key@),
            decreases i,
        {
            i = i - 1;
            assert(self.pairs@.take(i + 1).drop_last() =~= self.pairs@.take(i as int));
            if str_eq(self.pairs[i].0.as_str(), key) {
                return Some(&self.pairs[i].1);
            }
        }
        assert(self.pairs@.take(0) =~= Seq::<(String, V)>::empty());
        None
    }
}

impl Clone for Bindings<String> {
    fn clone(&self) -> (res: Self)
        ensures
            res.pairs@ == self.pairs@,
    {
        let mut pairs: Vec<(String, String)> = Vec::new();
        let mut i: usize = 0;
        while i < self.pairs.len()
            invariant
                i <= self.pairs@.len(),
                pairs@ == self.pairs@.take(i as int),
            decreases self.pairs@.len() - i,
        {
            pairs.push((self.pairs[i].0.clone(), self.pairs[i].1.clone()));
            i = i + 1;
            assert(pairs@ =~= self.pairs@.take(i as int));
        }
        assert(pairs@ =~= self.pairs@);
        Bindings { pairs }
    }
}

impl Clone for Bindings<Value> {
    fn clone(&self) -> (res: Self)
        ensures
            res.pairs@ == self.pairs@,
    {
        let mut pairs: Vec<(String, Value)> = Vec::new();
        let mut i: usize = 0;
        while i < self.pairs.len()
            invariant
                i <= self.pairs@.len(),
                pairs@ == self.pairs@.take(i as int),
            decreases self.pairs@.len() - i,
        {
            pairs.push((self.pairs[i].0.clone(), self.pairs[i].1.clone()));
            i = i + 1;
            assert(pairs@ =~= self.pairs@.take(i as int));
        }
        assert(pairs@ =~= self.pairs@);
        Bindings { pairs }
    }
}

} // verus!
