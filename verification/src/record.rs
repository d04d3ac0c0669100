//! Records as the store hands them out: a flat list in which each key is
//! followed by its value.

use vstd::prelude::*;

verus! {

/// The value that the first `pairs` pairs of a listing give to a key: that of
/// the last of those pairs that carries the key.
pub open spec fn latest(kvs: Seq<Seq<char>>, key: Seq<char>, pairs: nat) -> Option<Seq<char>>
    decreases pairs,
{
    if pairs == 0 {
        None
    } else if kvs[2 * pairs - 2] == key {
        Some(kvs[2 * pairs - 1])
    } else {
        latest(kvs, key, (pairs - 1) as nat)
    }
}

/// The value of a key among the first pairs of a listing, or the empty text
/// where they give none.
pub open spec fn latest_or_empty(kvs: Seq<Seq<char>>, key: Seq<char>, pairs: nat) -> Seq<char> {
    match latest(kvs, key, pairs) {
        Some(value) => value,
        None => Seq::empty(),
    }
}

/// The value that a listing gives to a key.  A key at the very end, with no
/// value after it, is not part of the record.
pub open spec fn field(kvs: Seq<Seq<char>>, key: Seq<char>) -> Option<Seq<char>> {
    latest(kvs, key, kvs.len() / 2)
}

/// The value that a listing gives to a key, or the empty text where it
/// gives none.
pub open spec fn field_or_empty(kvs: Seq<Seq<char>>, key: Seq<char>) -> Seq<char> {
    match field(kvs, key) {
        Some(value) => value,
        None => Seq::empty(),
    }
}

} // verus!
