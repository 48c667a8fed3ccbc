//! Avahi implementation for cross-platform TXT record.
//!
//! Avahi keeps a TXT record as a linked list of `key=value` strings. Adding
//! a pair puts it in front of the list, and looking a key up finds the pair
//! nearest to the front, so that a pair added later hides an earlier one
//! with the same key. What such a list holds for its reader is here turned
//! into a [`TxtRecord`].

use crate::txt_record::{
    inserted_all, lemma_insert_then_get, lemma_position, lookup, position, Pair, TTxtRecord,
    TxtRecord,
};
use vstd::prelude::*;

verus! {

/// The value of the last pair of `pairs` with the key `key`, if there is one.
pub open spec fn last_value(pairs: Seq<Pair>, key: Seq<char>) -> Option<Seq<char>>
    decreases pairs.len(),
{
    if pairs.len() == 0 {
        None
    } else if pairs.last().0 == key {
        Some(pairs.last().1)
    } else {
        last_value(pairs.drop_last(), key)
    }
}

/// After storing pairs one after the other, each key is found with the
/// value that was stored under it last.
pub proof fn lemma_last_stored_is_found(pairs: Seq<Pair>, key: Seq<char>)
    ensures
        lookup(inserted_all(pairs), key) == last_value(pairs, key),
    decreases pairs.len(),
{
    if pairs.len() > 0 {
        lemma_last_stored_is_found(pairs.drop_last(), key);
        lemma_insert_then_get(
            inserted_all(pairs.drop_last()),
            pairs.last().0,
            pairs.last().1,
            key,
        );
    }
}

/// The last pair with a key, read back to front, is the first one read
/// front to back.
pub proof fn lemma_last_of_reverse(pairs: Seq<Pair>, key: Seq<char>)
    ensures
        last_value(pairs.reverse(), key) == lookup(pairs, key),
    decreases pairs.len(),
{
    if pairs.len() > 0 {
        let rest = pairs.drop_first();
        lemma_last_of_reverse(rest, key);
        assert(pairs.reverse().last() == pairs[0]);
        assert(pairs.reverse().drop_last() =~= rest.reverse());
        lemma_position(pairs, key);
        lemma_position(rest, key);
        if pairs[0].0 != key {
            let p = position(rest, key);
            if p < rest.len() {
                assert(rest[p] == pairs[p + 1]);
            }
        }
    }
}

/// The record finds under each key what the list finds: the value of the
/// pair nearest to the front.
pub proof fn lemma_record_finds_what_list_finds(list: Seq<Pair>, key: Seq<char>)
    ensures
        lookup(inserted_all(list.reverse()), key) == lookup(list, key),
{
    lemma_last_stored_is_found(list.reverse(), key);
    lemma_last_of_reverse(list, key);
}

/// The record for the Avahi string list whose pairs, front first, are
/// `list`: the pairs are stored back to front, as they were added.
pub fn from_string_list(list: Vec<(String, String)>) -> (record: TxtRecord)
    ensures
        record@ == inserted_all(list.deep_view().reverse()),
{
    let mut record = TxtRecord::new();
    let ghost all = list.deep_view().reverse();
    let mut i: usize = list.len();
    assert(all.take(0) =~= Seq::<Pair>::empty());
    while i > 0
        invariant
            i <= list.len(),
            all == list.deep_view().reverse(),
            record@ == inserted_all(all.take(list.len() - i)),
        decreases i,
    {
        i = i - 1;
        proof {
            let done = list.len() - i - 1;
            assert(all[done] == list.deep_view()[i as int]);
            assert(list.deep_view()[i as int] == (list[i as int].0@, list[i as int].1@));
            assert(all.take(done + 1).drop_last() =~= all.take(done));
            assert(all.take(done + 1).last() == all[done]);
        }
        let _ = record.insert(list[i].0.as_str(), list[i].1.as_str());
    }
    assert(all.take(list.len() as int) =~= all);
    record
}

} // verus!
