//! The byte-store, as this library counts on it: a map from byte keys to
//! byte values on which each raw call acts at once.
//!
//! Nothing here runs. These functions say what a raw call answers and what
//! it leaves behind, so that the typed operations can be held against them.

use vstd::prelude::*;

verus! {

/// What a partition of the byte-store holds.
pub type Contents = Map<Seq<u8>, Seq<u8>>;

/// What a raw `get` of `key` answers.
pub open spec fn raw_get(contents: Contents, key: Seq<u8>) -> Option<Seq<u8>> {
    if contents.contains_key(key) {
        Some(contents[key])
    } else {
        None
    }
}

/// What a raw `contains_key` of `key` answers.
pub open spec fn raw_contains_key(contents: Contents, key: Seq<u8>) -> bool {
    contents.contains_key(key)
}

/// What a raw `insert` leaves behind. It answers what `raw_get` would have
/// answered just before.
pub open spec fn raw_insert(contents: Contents, key: Seq<u8>, value: Seq<u8>) -> Contents {
    contents.insert(key, value)
}

/// What a raw `remove` leaves behind. It answers what `raw_get` would have
/// answered just before.
pub open spec fn raw_remove(contents: Contents, key: Seq<u8>) -> Contents {
    contents.remove(key)
}

} // verus!
