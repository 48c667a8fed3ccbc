//! TXT record: the key/value metadata that travels with a service.
//!
//! A record is an ordered list of pairs in which no key occurs twice. The
//! native back-ends keep such records in their own formats; this is the
//! platform-neutral value that the rest of the crate works with.

use crate::error::Error;
use std::fmt::Debug;
use vstd::prelude::*;

verus! {

/// A key and its value, as character sequences.
pub type Pair = (Seq<char>, Seq<char>);

/// Index of the first pair with the key `key`, or `pairs.len()` if there is none.
pub open spec fn position(pairs: Seq<Pair>, key: Seq<char>) -> int
    decreases pairs.len(),
{
    if pairs.len() == 0 {
        0
    } else if pairs[0].0 == key {
        0
    } else {
        1 + position(pairs.drop_first(), key)
    }
}

/// The value stored under `key`, if any.
pub open spec fn lookup(pairs: Seq<Pair>, key: Seq<char>) -> Option<Seq<char>> {
    let i = position(pairs, key);
    if 0 <= i < pairs.len() {
        Some(pairs[i].1)
    } else {
        None
    }
}

/// The record after storing `value` under `key`: a key that is present keeps
/// its place and gets the new value, a new key goes to the end.
pub open spec fn inserted(pairs: Seq<Pair>, key: Seq<char>, value: Seq<char>) -> Seq<Pair> {
    let i = position(pairs, key);
    if 0 <= i < pairs.len() {
        pairs.update(i, (key, value))
    } else {
        pairs.push((key, value))
    }
}

/// The record without `key`; the other pairs keep their order.
pub open spec fn removed(pairs: Seq<Pair>, key: Seq<char>) -> Seq<Pair> {
    let i = position(pairs, key);
    if 0 <= i < pairs.len() {
        pairs.remove(i)
    } else {
        pairs
    }
}

/// The keys of `pairs`, in order.
pub open spec fn keys_of(pairs: Seq<Pair>) -> Seq<Seq<char>> {
    Seq::new(pairs.len(), |i: int| pairs[i].0)
}

/// The values of `pairs`, in order.
pub open spec fn values_of(pairs: Seq<Pair>) -> Seq<Seq<char>> {
    Seq::new(pairs.len(), |i: int| pairs[i].1)
}

/// No key occurs twice.
pub open spec fn distinct_keys(pairs: Seq<Pair>) -> bool {
    forall|i: int, j: int|
        0 <= i < pairs.len() && 0 <= j < pairs.len() && i != j ==> (#[trigger] pairs[i]).0 != (
        #[trigger] pairs[j]).0
}

/// The record that results from storing `entries` one after the other,
/// starting from the empty record.
pub open spec fn inserted_all(entries: Seq<Pair>) -> Seq<Pair>
    decreases entries.len(),
{
    if entries.len() == 0 {
        Seq::empty()
    } else {
        inserted(inserted_all(entries.drop_last()), entries.last().0, entries.last().1)
    }
}

/// `position` stays within `0..=pairs.len()`, points at a pair with the key
/// when inside, and no pair before it has the key.
pub proof fn lemma_position(pairs: Seq<Pair>, key: Seq<char>)
    ensures
        0 <= position(pairs, key) <= pairs.len(),
        position(pairs, key) < pairs.len() ==> pairs[position(pairs, key)].0 == key,
        forall|j: int| 0 <= j < position(pairs, key) ==> (#[trigger] pairs[j]).0 != key,
    decreases pairs.len(),
{
    if pairs.len() == 0 {
    } else if pairs[0].0 == key {
    } else {
        let rest = pairs.drop_first();
        lemma_position(rest, key);
        assert forall|j: int| 0 <= j < position(pairs, key) implies (#[trigger] pairs[j]).0
            != key by {
            if j > 0 {
                assert(pairs[j] == rest[j - 1]);
            }
        }
    }
}

/// Where the pair at index `i` has the key and no earlier pair has it,
/// `position` is `i`; where no pair has it, `position` is the length.
pub proof fn lemma_position_is(pairs: Seq<Pair>, key: Seq<char>, i: int)
    requires
        0 <= i <= pairs.len(),
        i < pairs.len() ==> pairs[i].0 == key,
        forall|j: int| 0 <= j < i ==> (#[trigger] pairs[j]).0 != key,
    ensures
        position(pairs, key) == i,
{
    lemma_position(pairs, key);
    let p = position(pairs, key);
    if p < i {
        assert(pairs[p].0 == key);
    }
}

/// Storing and removing keep the keys distinct.
pub proof fn lemma_distinct_kept(pairs: Seq<Pair>, key: Seq<char>, value: Seq<char>)
    requires
        distinct_keys(pairs),
    ensures
        distinct_keys(inserted(pairs, key, value)),
        distinct_keys(removed(pairs, key)),
{
    lemma_position(pairs, key);
    let p = position(pairs, key);
    let ins = inserted(pairs, key, value);
    assert forall|i: int, j: int| 0 <= i < ins.len() && 0 <= j < ins.len() && i != j implies (
    #[trigger] ins[i]).0 != (#[trigger] ins[j]).0 by {
        if p < pairs.len() {
            assert(ins[i].0 == pairs[i].0);
            assert(ins[j].0 == pairs[j].0);
        } else {
            if i < pairs.len() {
                assert(ins[i] == pairs[i]);
            }
            if j < pairs.len() {
                assert(ins[j] == pairs[j]);
            }
        }
    }
    let rem = removed(pairs, key);
    assert forall|i: int, j: int| 0 <= i < rem.len() && 0 <= j < rem.len() && i != j implies (
    #[trigger] rem[i]).0 != (#[trigger] rem[j]).0 by {
        if p < pairs.len() {
            let a = if i < p { i } else { i + 1 };
            let b = if j < p { j } else { j + 1 };
            assert(rem[i] == pairs[a]);
            assert(rem[j] == pairs[b]);
        }
    }
}

/// What was stored under a key is what is found under it, and the other
/// keys are not touched.
pub proof fn lemma_insert_then_get(pairs: Seq<Pair>, key: Seq<char>, value: Seq<char>, other: Seq<char>)
    ensures
        lookup(inserted(pairs, key, value), key) == Some(value),
        other != key ==> lookup(inserted(pairs, key, value), other) == lookup(pairs, other),
        inserted(pairs, key, value).len() == pairs.len() + (if lookup(pairs, key) is Some {
            0int
        } else {
            1int
        }),
{
    lemma_position(pairs, key);
    let p = position(pairs, key);
    let ins = inserted(pairs, key, value);
    assert forall|j: int| 0 <= j < p implies (#[trigger] ins[j]).0 != key by {
        assert(ins[j].0 == pairs[j].0);
    }
    lemma_position_is(ins, key, p);
    if other != key {
        lemma_position(pairs, other);
        let q = position(pairs, other);
        assert forall|j: int| 0 <= j < q implies (#[trigger] ins[j]).0 != other by {
            assert(ins[j].0 == pairs[j].0);
        }
        if q < pairs.len() {
            assert(ins[q] == pairs[q]);
            lemma_position_is(ins, other, q);
        } else {
            assert forall|j: int| 0 <= j < ins.len() implies (#[trigger] ins[j]).0 != other by {
                if j < pairs.len() {
                    assert(ins[j].0 == pairs[j].0);
                }
            }
            lemma_position_is(ins, other, ins.len() as int);
        }
    }
}

/// A removed key is no longer found, and the other keys are not touched.
pub proof fn lemma_remove_then_get(pairs: Seq<Pair>, key: Seq<char>, other: Seq<char>)
    requires
        distinct_keys(pairs),
    ensures
        lookup(removed(pairs, key), key) is None,
        other != key ==> lookup(removed(pairs, key), other) == lookup(pairs, other),
        removed(pairs, key).len() == pairs.len() - (if lookup(pairs, key) is Some {
            1int
        } else {
            0int
        }),
{
    lemma_position(pairs, key);
    let p = position(pairs, key);
    let rem = removed(pairs, key);
    assert forall|j: int| 0 <= j < rem.len() implies (#[trigger] rem[j]).0 != key by {
        if p < pairs.len() {
            let a = if j < p { j } else { j + 1 };
            assert(rem[j] == pairs[a]);
            assert(pairs[a].0 != pairs[p].0);
        } else {
            assert(rem[j] == pairs[j]);
        }
    }
    lemma_position_is(rem, key, rem.len() as int);
    if other != key && p < pairs.len() {
        lemma_position(pairs, other);
        let q = position(pairs, other);
        if q < pairs.len() {
            let q2 = if q < p { q } else { q - 1 };
            assert(rem[q2] == pairs[q]);
            assert forall|j: int| 0 <= j < q2 implies (#[trigger] rem[j]).0 != other by {
                let a = if j < p { j } else { j + 1 };
                assert(rem[j] == pairs[a]);
            }
            lemma_position_is(rem, other, q2);
        } else {
            assert forall|j: int| 0 <= j < rem.len() implies (#[trigger] rem[j]).0 != other by {
                let a = if j < p { j } else { j + 1 };
                assert(rem[j] == pairs[a]);
            }
            lemma_position_is(rem, other, rem.len() as int);
        }
    }
}

/// A key is found in a record exactly when it is among the record's keys.
pub proof fn lemma_lookup_keys(pairs: Seq<Pair>, key: Seq<char>)
    ensures
        lookup(pairs, key) is Some <==> keys_of(pairs).contains(key),
{
    lemma_position(pairs, key);
    let p = position(pairs, key);
    if p < pairs.len() {
        assert(keys_of(pairs)[p] == key);
    } else if keys_of(pairs).contains(key) {
        let k = choose|k: int| 0 <= k < keys_of(pairs).len() && keys_of(pairs)[k] == key;
        assert(pairs[k].0 == key);
    }
}

/// After storing any sequence of pairs into an empty record, the record
/// holds one entry for each distinct key that was stored, and each key is
/// found with the value that was stored under it last.
pub proof fn lemma_len_counts_distinct_keys(entries: Seq<Pair>)
    ensures
        distinct_keys(inserted_all(entries)),
        keys_of(inserted_all(entries)).to_set() == keys_of(entries).to_set(),
        inserted_all(entries).len() == keys_of(entries).to_set().len(),
        entries.len() > 0 ==> lookup(inserted_all(entries), entries.last().0) == Some(
            entries.last().1,
        ),
    decreases entries.len(),
{
    let record = inserted_all(entries);
    if entries.len() == 0 {
        assert(keys_of(record) =~= Seq::<Seq<char>>::empty());
        assert(keys_of(entries) =~= Seq::<Seq<char>>::empty());
        assert(keys_of(entries).to_set() =~= Set::<Seq<char>>::empty());
    } else {
        let before = inserted_all(entries.drop_last());
        let (key, value) = entries.last();
        lemma_len_counts_distinct_keys(entries.drop_last());
        lemma_distinct_kept(before, key, value);
        lemma_insert_then_get(before, key, value, key);
        lemma_position(before, key);
        let p = position(before, key);
        let earlier = entries.drop_last();
        assert forall|k: Seq<char>| keys_of(record).to_set().contains(k) <==> keys_of(
            entries,
        ).to_set().contains(k) by {
            lemma_lookup_keys(record, k);
            lemma_lookup_keys(before, k);
            lemma_insert_then_get(before, key, value, k);
            assert(keys_of(before).to_set().contains(k) == keys_of(earlier).to_set().contains(k));
            assert(keys_of(record).contains(k) <==> (k == key || keys_of(earlier).contains(k)));
            if keys_of(entries).contains(k) {
                let i = choose|i: int| 0 <= i < keys_of(entries).len() && keys_of(entries)[i] == k;
                if i < entries.len() - 1 {
                    assert(keys_of(earlier)[i] == k);
                } else {
                    assert(k == key);
                }
            }
            if keys_of(earlier).contains(k) {
                let i = choose|i: int| 0 <= i < keys_of(earlier).len() && keys_of(earlier)[i] == k;
                assert(keys_of(entries)[i] == k);
            }
            if k == key {
                assert(keys_of(entries)[entries.len() - 1] == key);
            }
        }
        assert(keys_of(record).to_set() =~= keys_of(entries).to_set());
        assert(keys_of(record).no_duplicates()) by {
            assert forall|i: int, j: int|
                0 <= i < keys_of(record).len() && 0 <= j < keys_of(record).len() && i
                    != j implies keys_of(record)[i] != keys_of(record)[j] by {
                assert(record[i].0 != record[j].0);
            }
        }
        keys_of(record).unique_seq_to_set();
    }
}

/// The pairs held by `entries`, as character sequences.
pub open spec fn pairs_of(entries: Seq<(String, String)>) -> Seq<Pair> {
    Seq::new(entries.len(), |i: int| (entries[i].0@, entries[i].1@))
}

/// Platform-neutral TXT record.
#[derive(Debug, PartialEq, Eq)]
pub struct TxtRecord {
    entries: Vec<(String, String)>,
}

impl View for TxtRecord {
    type V = Seq<Pair>;

    closed spec fn view(&self) -> Seq<Pair> {
        pairs_of(self.entries@)
    }
}

impl DeepView for TxtRecord {
    type V = Seq<Pair>;

    open spec fn deep_view(&self) -> Seq<Pair> {
        self@
    }
}

impl TxtRecord {
    #[verifier::type_invariant]
    spec fn keys_are_distinct(&self) -> bool {
        distinct_keys(self@)
    }

    /// The record that results from storing `pairs` one after the other in
    /// an empty record: a key that occurs several times keeps the place of
    /// its first occurrence and the value of its last.
    pub fn from_pairs(pairs: Vec<(String, String)>) -> (record: Self)
        ensures
            record@ == inserted_all(pairs.deep_view()),
    {
        let mut record = Self::new();
        let mut i: usize = 0;
        assert(pairs.deep_view().take(0) =~= Seq::<Pair>::empty());
        while i < pairs.len()
            invariant
                i <= pairs.len(),
                record@ == inserted_all(pairs.deep_view().take(i as int)),
            decreases pairs.len() - i,
        {
            let ghost all = pairs.deep_view();
            assert(all[i as int] == (pairs[i as int].0@, pairs[i as int].1@));
            let _ = record.insert(pairs[i].0.as_str(), pairs[i].1.as_str());
            proof {
                assert(all.take(i + 1).drop_last() =~= all.take(i as int));
                assert(all.take(i + 1).last() == all[i as int]);
            }
            i = i + 1;
        }
        assert(pairs.deep_view().take(i as int) =~= pairs.deep_view());
        record
    }

    /// Moves the pairs out, leaving the record empty.
    fn take_entries(&mut self) -> (entries: Vec<(String, String)>)
        ensures
            entries == old(self).entries,
            final(self).entries@.len() == 0,
    {
        let mut taken = Self { entries: Vec::new() };
        std::mem::swap(self, &mut taken);
        taken.entries
    }

    /// Index of the pair with the key `key`, or the number of pairs.
    fn find(&self, key: &String) -> (i: usize)
        ensures
            i == position(self@, key@),
            i <= self.entries.len(),
    {
        let mut i: usize = 0;
        while i < self.entries.len()
            invariant
                i <= self.entries.len(),
                forall|j: int| 0 <= j < i ==> (#[trigger] self@[j]).0 != key@,
            decreases self.entries.len() - i,
        {
            if self.entries[i].0 == *key {
                proof {
                    assert(self@[i as int].0 == key@);
                    lemma_position_is(self@, key@, i as int);
                }
                return i;
            }
            assert(self@[i as int].0 != key@);
            i = i + 1;
        }
        proof {
            lemma_position_is(self@, key@, i as int);
        }
        i
    }
}

/// Interface for interacting with underlying mDNS implementation TXT record capabilities
pub trait TTxtRecord: Clone + PartialEq + Eq + Debug {
    /// The pairs of the record, in order.
    spec fn pairs(&self) -> Seq<Pair>;

    /// Constructs a new TXT record
    fn new() -> (record: Self)
        ensures
            record.pairs() == Seq::<Pair>::empty(),
    ;

    /// Inserts the specified value at the specified key.
    fn insert(&mut self, key: &str, value: &str) -> (r: Result<(), Error>)
        ensures
            r is Ok,
            final(self).pairs() == inserted(old(self).pairs(), key@, value@),
            distinct_keys(final(self).pairs()),
    ;

    /// Returns the value at the specified key or `None` if no such key exists.
    fn get(&self, key: &str) -> (value: Option<String>)
        ensures
            value.deep_view() == lookup(self.pairs(), key@),
    ;

    /// Removes the value at the specified key, returning the previous value if present.
    fn remove(&mut self, key: &str) -> (previous: Option<String>)
        ensures
            previous.deep_view() == lookup(old(self).pairs(), key@),
            final(self).pairs() == removed(old(self).pairs(), key@),
            distinct_keys(final(self).pairs()),
    ;

    /// Returns true if the TXT record contains the specified key.
    fn contains_key(&self, key: &str) -> (found: bool)
        ensures
            found == lookup(self.pairs(), key@) is Some,
    ;

    /// Returns the amount of entries in the TXT record. No key occurs twice
    /// in a record, so this is the number of its keys.
    fn len(&self) -> (n: usize)
        ensures
            n == self.pairs().len(),
            distinct_keys(self.pairs()),
    ;

    /// Returns the pairs of the record, in order.
    fn iter(&self) -> (pairs: Vec<(String, String)>)
        ensures
            pairs.deep_view() == self.pairs(),
    ;

    /// Returns the record's keys, in order.
    fn keys(&self) -> (keys: Vec<String>)
        ensures
            keys.deep_view() == keys_of(self.pairs()),
    ;

    /// Returns the record's values, in order.
    fn values(&self) -> (values: Vec<String>)
        ensures
            values.deep_view() == values_of(self.pairs()),
    ;

    /// Returns true if there are no entries in the record.
    fn is_empty(&self) -> (empty: bool)
        ensures
            empty == (self.pairs().len() == 0),
    ;
}

impl TTxtRecord for TxtRecord {
    open spec fn pairs(&self) -> Seq<Pair> {
        self@
    }

    fn new() -> (record: Self) {
        let record = Self { entries: Vec::new() };
        assert(record@ =~= Seq::<Pair>::empty());
        record
    }

    fn insert(&mut self, key: &str, value: &str) -> (r: Result<(), Error>) {
        proof {
            use_type_invariant(&*self);
            lemma_distinct_kept(self@, key@, value@);
        }
        let key = key.to_owned();
        let i = self.find(&key);
        let mut entries = self.take_entries();
        if i < entries.len() {
            entries.set(i, (key, value.to_owned()));
        } else {
            entries.push((key, value.to_owned()));
        }
        assert(pairs_of(entries@) =~= inserted(old(self)@, key@, value@));
        *self = Self { entries };
        Ok(())
    }

    fn get(&self, key: &str) -> (value: Option<String>) {
        let key = key.to_owned();
        let i = self.find(&key);
        if i < self.entries.len() {
            Some(self.entries[i].1.clone())
        } else {
            None
        }
    }

    fn remove(&mut self, key: &str) -> (previous: Option<String>) {
        proof {
            use_type_invariant(&*self);
            lemma_distinct_kept(self@, key@, Seq::empty());
        }
        let key = key.to_owned();
        let i = self.find(&key);
        if i < self.entries.len() {
            let mut entries = self.take_entries();
            let pair = entries.remove(i);
            assert(pairs_of(entries@) =~= removed(old(self)@, key@));
            *self = Self { entries };
            Some(pair.1)
        } else {
            None
        }
    }

    fn contains_key(&self, key: &str) -> (found: bool) {
        let key = key.to_owned();
        let i = self.find(&key);
        i < self.entries.len()
    }

    fn len(&self) -> (n: usize) {
        proof {
            use_type_invariant(self);
        }
        self.entries.len()
    }

    fn iter(&self) -> (pairs: Vec<(String, String)>) {
        let mut pairs: Vec<(String, String)> = Vec::new();
        let mut i: usize = 0;
        while i < self.entries.len()
            invariant
                i <= self.entries.len(),
                pairs.len() == i,
                forall|j: int| 0 <= j < i ==> (#[trigger] pairs[j]).deep_view() == self@[j],
            decreases self.entries.len() - i,
        {
            pairs.push((self.entries[i].0.clone(), self.entries[i].1.clone()));
            i = i + 1;
        }
        assert(pairs.deep_view() =~= self@);
        pairs
    }

    fn keys(&self) -> (keys: Vec<String>) {
        let mut keys: Vec<String> = Vec::new();
        let mut i: usize = 0;
        while i < self.entries.len()
            invariant
                i <= self.entries.len(),
                keys.len() == i,
                forall|j: int| 0 <= j < i ==> (#[trigger] keys[j])@ == self@[j].0,
            decreases self.entries.len() - i,
        {
            keys.push(self.entries[i].0.clone());
            i = i + 1;
        }
        assert(keys.deep_view() =~= keys_of(self@));
        keys
    }

    fn values(&self) -> (values: Vec<String>) {
        let mut values: Vec<String> = Vec::new();
        let mut i: usize = 0;
        while i < self.entries.len()
            invariant
                i <= self.entries.len(),
                values.len() == i,
                forall|j: int| 0 <= j < i ==> (#[trigger] values[j])@ == self@[j].1,
            decreases self.entries.len() - i,
        {
            values.push(self.entries[i].1.clone());
            i = i + 1;
        }
        assert(values.deep_view() =~= values_of(self@));
        values
    }

    fn is_empty(&self) -> (empty: bool) {
        self.entries.len() == 0
    }
}

impl Clone for TxtRecord {
    fn clone(&self) -> (copy: Self)
        ensures
            copy@ == self@,
    {
        proof {
            use_type_invariant(self);
        }
        let entries = self.iter();
        assert(pairs_of(entries@) =~= self@);
        Self { entries }
    }
}

impl Default for TxtRecord {
    fn default() -> (record: Self)
        ensures
            record@ == Seq::<Pair>::empty(),
    {
        Self::new()
    }
}

} // verus!
