//! Keeping one of each: the order-preserving removal of repeated keys.

use vstd::prelude::*;
use crate::setlists::same_text;

verus! {

/// A value that is recognised by a key.
pub trait Keyed: Sized {
    type Key;

    /// The key by which the value is recognised.
    spec fn key(&self) -> Self::Key;

    /// Whether two values have the same key.
    fn same_key(&self, other: &Self) -> (same: bool)
        ensures
            same == (self.key() == other.key()),
    ;
}

impl Keyed for String {
    type Key = Seq<char>;

    open spec fn key(&self) -> Seq<char> {
        self@
    }

    fn same_key(&self, other: &Self) -> (same: bool) {
        same_text(self, other)
    }
}

/// The keys of a sequence of values, in order.
pub open spec fn keys<T: Keyed>(items: Seq<T>) -> Seq<T::Key> {
    Seq::new(items.len(), |i: int| items[i].key())
}

/// A sequence with one more key at its end, unless it holds that key already.
pub open spec fn with_key<K>(s: Seq<K>, k: K) -> Seq<K> {
    if s.contains(k) {
        s
    } else {
        s.push(k)
    }
}

/// The keys of a sequence, each once, in the order of their first
/// occurrence.
pub open spec fn distinct<K>(s: Seq<K>) -> Seq<K>
    decreases s.len(),
{
    if s.len() == 0 {
        s
    } else {
        with_key(distinct(s.drop_last()), s.last())
    }
}

/// Adding a key at the end of a sequence adds it to the distinct keys unless
/// it is among them.
pub proof fn lemma_distinct_push<K>(s: Seq<K>, k: K)
    ensures
        distinct(s.push(k)) == with_key(distinct(s), k),
{
    assert(s.push(k).drop_last() == s);
}

proof fn lemma_push_contains<K>(s: Seq<K>, x: K, k: K)
    ensures
        s.push(x).contains(k) <==> s.contains(k) || k == x,
{
    let t = s.push(x);
    if t.contains(k) {
        let i = choose|i: int| 0 <= i < t.len() && t[i] == k;
        if i < s.len() {
            assert(s[i] == k);
        }
    }
    if s.contains(k) {
        let i = choose|i: int| 0 <= i < s.len() && s[i] == k;
        assert(t[i] == k);
    }
    if k == x {
        assert(t[s.len() as int] == k);
    }
}

/// A key is among the distinct keys of a sequence exactly when it is in the
/// sequence.
pub proof fn lemma_distinct_contains<K>(s: Seq<K>, k: K)
    ensures
        distinct(s).contains(k) <==> s.contains(k),
    decreases s.len(),
{
    if s.len() > 0 {
        let head = s.drop_last();
        let last = s.last();
        lemma_distinct_contains(head, k);
        lemma_distinct_contains(head, last);
        assert(s == head.push(last));
        lemma_push_contains(head, last, k);
        lemma_push_contains(distinct(head), last, k);
    }
}

/// The distinct keys of a sequence hold exactly the keys of the sequence.
pub proof fn lemma_distinct_same_keys<K>(s: Seq<K>)
    ensures
        forall|k: K| #[trigger] distinct(s).contains(k) <==> s.contains(k),
{
    assert forall|k: K| #[trigger] distinct(s).contains(k) <==> s.contains(k) by {
        lemma_distinct_contains(s, k);
    }
}

/// No key occurs twice among the distinct keys of a sequence.
pub proof fn lemma_distinct_no_duplicates<K>(s: Seq<K>)
    ensures
        distinct(s).no_duplicates(),
    decreases s.len(),
{
    if s.len() > 0 {
        lemma_distinct_no_duplicates(s.drop_last());
    }
}

/// Whether a value with the key of `item` is among `items`.
pub fn holds_key<T: Keyed>(items: &Vec<T>, item: &T) -> (found: bool)
    ensures
        found == keys(items@).contains(item.key()),
{
    let mut i: usize = 0;
    while i < items.len()
        invariant
            i <= items.len(),
            forall|j: int| 0 <= j < i ==> keys(items@)[j] != item.key(),
        decreases items.len() - i,
    {
        if items[i].same_key(item) {
            assert(keys(items@)[i as int] == item.key());
            return true;
        }
        i += 1;
    }
    false
}

/// Puts `item` at the end of `items` unless a value with its key is there.
pub fn push_unique<T: Keyed>(items: &mut Vec<T>, item: T)
    ensures
        keys(final(items)@) == with_key(keys(old(items)@), item.key()),
        final(items)@ == old(items)@ || final(items)@ == old(items)@.push(item),
{
    if !holds_key(items, &item) {
        items.push(item);
        assert(keys(items@) == keys(old(items)@).push(item.key()));
    }
}

} // verus!
