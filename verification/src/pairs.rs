//! The pair buffer: an ordered mapping from string keys to string values.
//!
//! Entries keep the order in which their keys were first inserted. Keys are
//! unique; inserting a key that is already present replaces its value where it
//! stands.

use vstd::prelude::*;
use crate::text::Text;

verus! {

/// The mathematical value of a pair buffer: its entries in iteration order.
pub type Pairs = Seq<(Text, Text)>;

/// The keys of `s` in iteration order.
pub open spec fn keys(s: Pairs) -> Seq<Text> {
    Seq::new(s.len(), |i: int| s[i].0)
}

/// No key occurs at two places of `s`.
pub open spec fn distinct_keys(s: Pairs) -> bool {
    forall|i: int, j: int| 0 <= i < j < s.len() ==> s[i].0 != s[j].0
}

/// Some entry of `s` has key `k`.
pub open spec fn has_key(s: Pairs, k: Text) -> bool {
    exists|i: int| 0 <= i < s.len() && #[trigger] s[i].0 == k
}

/// The place of key `k` in `s`, if it is present. Where keys are distinct there
/// is at most one such place.
pub open spec fn position(s: Pairs, k: Text) -> Option<int> {
    if has_key(s, k) {
        Some(choose|i: int| 0 <= i < s.len() && #[trigger] s[i].0 == k)
    } else {
        None
    }
}

/// The value stored under key `k` in `s`, if the key is present.
pub open spec fn lookup(s: Pairs, k: Text) -> Option<Text> {
    match position(s, k) {
        Some(i) => Some(s[i].1),
        None => None,
    }
}

/// The buffer after storing `v` under `k`: a present key keeps its place and
/// takes the new value, an absent key is appended at the end.
pub open spec fn put(s: Pairs, k: Text, v: Text) -> Pairs {
    match position(s, k) {
        Some(i) => s.update(i, (k, v)),
        None => s.push((k, v)),
    }
}

/// The buffer after storing each entry of `entries` in turn, first to last.
pub open spec fn put_all(s: Pairs, entries: Pairs) -> Pairs
    decreases entries.len(),
{
    if entries.len() == 0 {
        s
    } else {
        put(put_all(s, entries.drop_last()), entries.last().0, entries.last().1)
    }
}

/// With distinct keys, the place of a key is the one index that holds it.
pub proof fn lemma_position_unique(s: Pairs, k: Text, i: int)
    requires
        distinct_keys(s),
        0 <= i < s.len(),
        s[i].0 == k,
    ensures
        position(s, k) == Some(i),
{
}

/// Storing a pair keeps the keys of the buffer distinct.
pub proof fn lemma_put_keeps_distinct(s: Pairs, k: Text, v: Text)
    requires
        distinct_keys(s),
    ensures
        distinct_keys(put(s, k, v)),
        has_key(put(s, k, v), k),
{
    let t = put(s, k, v);
    match position(s, k) {
        Some(i) => {
            assert(t[i].0 == k);
        },
        None => {
            assert(t[s.len() as int].0 == k);
        },
    }
}

/// The keys in the order of their first occurrence in `ks`: each key once, at
/// the rank of its earliest place.
pub open spec fn first_occurrences(ks: Seq<Text>) -> Seq<Text>
    decreases ks.len(),
{
    if ks.len() == 0 {
        Seq::empty()
    } else {
        let earlier = first_occurrences(ks.drop_last());
        if earlier.contains(ks.last()) {
            earlier
        } else {
            earlier.push(ks.last())
        }
    }
}

/// A key is present in a buffer exactly when it is among the buffer's keys.
pub proof fn lemma_has_key_is_contains(s: Pairs, k: Text)
    ensures
        has_key(s, k) <==> keys(s).contains(k),
{
    if has_key(s, k) {
        let i = choose|i: int| 0 <= i < s.len() && #[trigger] s[i].0 == k;
        assert(keys(s)[i] == k);
    }
}

/// Storing under a key that is present overwrites in place: the key keeps its
/// position, its value is the one just stored, the order of the keys is as it
/// was, and every other entry is untouched.
pub proof fn lemma_put_present(s: Pairs, k: Text, v: Text)
    requires
        distinct_keys(s),
        has_key(s, k),
    ensures
        position(put(s, k, v), k) == position(s, k),
        lookup(put(s, k, v), k) == Some(v),
        keys(put(s, k, v)) == keys(s),
        put(s, k, v).len() == s.len(),
        forall|j: int| 0 <= j < s.len() && s[j].0 != k ==> put(s, k, v)[j] == s[j],
{
    let i: int = position(s, k)->0;
    let t = put(s, k, v);
    lemma_put_keeps_distinct(s, k, v);
    lemma_position_unique(t, k, i);
}

/// Storing under a key that is absent appends: the new entry is the last one
/// and every earlier entry is untouched.
pub proof fn lemma_put_absent(s: Pairs, k: Text, v: Text)
    requires
        distinct_keys(s),
        !has_key(s, k),
    ensures
        put(s, k, v) == s.push((k, v)),
        position(put(s, k, v), k) == Some(s.len() as int),
        lookup(put(s, k, v), k) == Some(v),
        keys(put(s, k, v)) == keys(s).push(k),
{
    let t = put(s, k, v);
    lemma_put_keeps_distinct(s, k, v);
    lemma_position_unique(t, k, s.len() as int);
}

/// Storing never removes or moves a key: the keys before the store are the
/// first keys after it, in the same order.
pub proof fn lemma_put_extends_keys(s: Pairs, k: Text, v: Text)
    requires
        distinct_keys(s),
    ensures
        keys(s).is_prefix_of(keys(put(s, k, v))),
{
    if has_key(s, k) {
        lemma_put_present(s, k, v);
    } else {
        lemma_put_absent(s, k, v);
    }
}

/// Storing twice under one key: the second store overwrites the value of the
/// first and leaves the key where the first store put it. The buffer is the
/// one that the second store alone would have made.
pub proof fn lemma_put_twice(s: Pairs, k: Text, first: Text, second: Text)
    requires
        distinct_keys(s),
    ensures
        position(put(put(s, k, first), k, second), k) == position(put(s, k, first), k),
        lookup(put(put(s, k, first), k, second), k) == Some(second),
        put(put(s, k, first), k, second) == put(s, k, second),
{
    let once = put(s, k, first);
    lemma_put_keeps_distinct(s, k, first);
    lemma_put_present(once, k, second);
    if has_key(s, k) {
        lemma_put_present(s, k, first);
    } else {
        lemma_put_absent(s, k, first);
    }
}

/// Storing a sequence of entries keeps the keys of the buffer distinct.
pub proof fn lemma_put_all_keeps_distinct(s: Pairs, entries: Pairs)
    requires
        distinct_keys(s),
    ensures
        distinct_keys(put_all(s, entries)),
    decreases entries.len(),
{
    if entries.len() > 0 {
        lemma_put_all_keeps_distinct(s, entries.drop_last());
        lemma_put_keeps_distinct(
            put_all(s, entries.drop_last()),
            entries.last().0,
            entries.last().1,
        );
    }
}

/// Whatever is stored into an empty buffer, the buffer iterates its keys in
/// the order in which they were first stored.
pub proof fn lemma_put_all_orders_by_first_store(entries: Pairs)
    ensures
        keys(put_all(Seq::empty(), entries)) == first_occurrences(keys(entries)),
    decreases entries.len(),
{
    let empty: Pairs = Seq::empty();
    if entries.len() > 0 {
        let before = put_all(empty, entries.drop_last());
        let k = entries.last().0;
        let v = entries.last().1;
        lemma_put_all_orders_by_first_store(entries.drop_last());
        lemma_put_all_keeps_distinct(empty, entries.drop_last());
        assert(keys(entries).drop_last() =~= keys(entries.drop_last()));
        lemma_has_key_is_contains(before, k);
        if has_key(before, k) {
            lemma_put_present(before, k, v);
        } else {
            lemma_put_absent(before, k, v);
        }
    }
}

/// Storing entries with distinct keys, none of them present before, appends
/// them in the order in which they were stored.
pub proof fn lemma_put_all_distinct_appends(s: Pairs, entries: Pairs)
    requires
        distinct_keys(s + entries),
    ensures
        put_all(s, entries) == s + entries,
    decreases entries.len(),
{
    if entries.len() > 0 {
        let front = entries.drop_last();
        let k = entries.last().0;
        let v = entries.last().1;
        let whole = s + entries;
        assert forall|i: int, j: int| 0 <= i < j < (s + front).len() implies (s + front)[i].0 != (s
            + front)[j].0 by {
            assert((s + front)[i] == whole[i]);
            assert((s + front)[j] == whole[j]);
        }
        lemma_put_all_distinct_appends(s, front);
        assert(!has_key(s + front, k)) by {
            if has_key(s + front, k) {
                let i = choose|i: int| 0 <= i < (s + front).len() && #[trigger] (s + front)[i].0
                    == k;
                assert(whole[i] == (s + front)[i]);
                assert(whole[whole.len() - 1] == entries.last());
            }
        }
        lemma_put_absent(s + front, k, v);
    }
}

/// Storing entries with distinct keys into an empty buffer yields exactly those
/// entries, in the order in which they were stored.
pub proof fn lemma_put_all_distinct(entries: Pairs)
    requires
        distinct_keys(entries),
    ensures
        put_all(Seq::empty(), entries) == entries,
{
    lemma_put_all_distinct_appends(Seq::empty(), entries);
}

/// An ordered, unique-keyed mapping from strings to strings.
#[derive(Debug)]
pub struct PairBuffer {
    entries: Vec<(String, String)>,
}

impl View for PairBuffer {
    type V = Pairs;

    closed spec fn view(&self) -> Pairs {
        Seq::new(self.entries@.len(), |i: int| (self.entries@[i].0@, self.entries@[i].1@))
    }
}

impl PairBuffer {
    /// The buffer's invariant: no key is stored twice.
    pub open spec fn wf(&self) -> bool {
        distinct_keys(self@)
    }

    /// An empty buffer.
    pub fn new() -> (buffer: PairBuffer)
        ensures
            buffer@ == Pairs::empty(),
            buffer.wf(),
    {
        PairBuffer { entries: Vec::new() }
    }

    /// The number of entries.
    pub fn len(&self) -> (n: usize)
        ensures
            n == self@.len(),
    {
        self.entries.len()
    }

    /// Whether the buffer holds no entry.
    pub fn is_empty(&self) -> (empty: bool)
        ensures
            empty == (self@.len() == 0),
    {
        self.entries.len() == 0
    }

    /// The key of the entry at place `index`.
    pub fn key_at(&self, index: usize) -> (key: &String)
        requires
            index < self@.len(),
        ensures
            key@ == self@[index as int].0,
    {
        &self.entries[index].0
    }

    /// The value of the entry at place `index`.
    pub fn value_at(&self, index: usize) -> (value: &String)
        requires
            index < self@.len(),
        ensures
            value@ == self@[index as int].1,
    {
        &self.entries[index].1
    }

    /// The place at which `key` is stored, or `None` when it is absent.
    pub fn position(&self, key: &String) -> (place: Option<usize>)
        requires
            self.wf(),
        ensures
            match place {
                Some(i) => position(self@, key@) == Some(i as int),
                None => position(self@, key@).is_none(),
            },
    {
        let mut i: usize = 0;
        while i < self.entries.len()
            invariant
                i <= self.entries@.len(),
                self.wf(),
                forall|j: int| 0 <= j < i ==> (#[trigger] self@[j]).0 != key@,
            decreases self.entries@.len() - i,
        {
            if self.entries[i].0 == *key {
                proof {
                    lemma_position_unique(self@, key@, i as int);
                }
                return Some(i);
            }
            i += 1;
        }
        None
    }

    /// The value stored under `key`, or `None` when the key is absent.
    pub fn get(&self, key: &String) -> (value: Option<&String>)
        requires
            self.wf(),
        ensures
            match value {
                Some(v) => lookup(self@, key@) == Some(v@),
                None => lookup(self@, key@).is_none(),
            },
    {
        match self.position(key) {
            Some(i) => Some(&self.entries[i].1),
            None => None,
        }
    }

    /// Stores `value` under `key`. A key that is already present keeps its
    /// place and takes the new value; a new key goes to the end.
    pub fn insert(&mut self, key: String, value: String)
        requires
            old(self).wf(),
        ensures
            final(self)@ == put(old(self)@, key@, value@),
            final(self).wf(),
    {
        proof {
            lemma_put_keeps_distinct(self@, key@, value@);
        }
        match self.position(&key) {
            Some(i) => {
                self.entries[i] = (key, value);
            },
            None => {
                self.entries.push((key, value));
            },
        }
    }
}

} // verus!
