//! What the table is meant to be: a map from the stored text of a key to
//! the stored text of its value, one row a key.
//!
//! These are the laws of the store over that map. They hold of a database
//! as far as its engine keeps the table as `put` and `row` say; that part is
//! not proved here.

use crate::encoding::{hex_text, lemma_text_reads_back, lemma_text_tells_bytes_apart};
use crate::store::row_bytes;
use vstd::prelude::*;

verus! {

/// The rows after a value was set: the row of `key` now holds `value`, and
/// every other row is as before.
pub open spec fn put(rows: Map<Seq<char>, Seq<char>>, key: Seq<u8>, value: Seq<u8>) -> Map<
    Seq<char>,
    Seq<char>,
> {
    rows.insert(hex_text(key), hex_text(value))
}

/// The value text of the row of `key`, if there is such a row.
pub open spec fn row(rows: Map<Seq<char>, Seq<char>>, key: Seq<u8>) -> Option<Seq<char>> {
    if rows.contains_key(hex_text(key)) {
        Some(rows[hex_text(key)])
    } else {
        None
    }
}

/// What a lookup of `key` reads.
pub open spec fn value(rows: Map<Seq<char>, Seq<char>>, key: Seq<u8>) -> Result<
    Option<Seq<u8>>,
    (),
> {
    row_bytes(row(rows, key))
}

/// A value that was set is the value read under the same key.
pub proof fn set_then_get(rows: Map<Seq<char>, Seq<char>>, key: Seq<u8>, v: Seq<u8>)
    ensures
        value(put(rows, key, v), key) == Ok::<Option<Seq<u8>>, ()>(Some(v)),
{
    lemma_text_reads_back(v);
}

/// A key with no row reads as no value, and not as an error.
pub proof fn get_without_set(rows: Map<Seq<char>, Seq<char>>, key: Seq<u8>)
    requires
        !rows.contains_key(hex_text(key)),
    ensures
        value(rows, key) == Ok::<Option<Seq<u8>>, ()>(None),
{
}

/// Setting a key twice leaves what setting the second value alone leaves:
/// the second value is read, and the key has one row.
pub proof fn set_twice(rows: Map<Seq<char>, Seq<char>>, key: Seq<u8>, v1: Seq<u8>, v2: Seq<u8>)
    ensures
        put(put(rows, key, v1), key, v2) == put(rows, key, v2),
        value(put(put(rows, key, v1), key, v2), key) == Ok::<Option<Seq<u8>>, ()>(Some(v2)),
        put(put(rows, key, v1), key, v2).dom() == rows.dom().insert(hex_text(key)),
{
    lemma_text_reads_back(v2);
    assert(put(put(rows, key, v1), key, v2) =~= put(rows, key, v2));
    assert(put(rows, key, v2).dom() =~= rows.dom().insert(hex_text(key)));
}

/// Setting one key changes what no other key reads, however alike the two
/// keys are: keys of different bytes have different rows.
pub proof fn set_leaves_other_keys(
    rows: Map<Seq<char>, Seq<char>>,
    key_a: Seq<u8>,
    key_b: Seq<u8>,
    v: Seq<u8>,
)
    requires
        key_a != key_b,
    ensures
        hex_text(key_a) != hex_text(key_b),
        row(put(rows, key_a, v), key_b) == row(rows, key_b),
        value(put(rows, key_a, v), key_b) == value(rows, key_b),
        !rows.contains_key(hex_text(key_b)) ==> value(put(rows, key_a, v), key_b) == Ok::<
            Option<Seq<u8>>,
            (),
        >(None),
{
    if hex_text(key_a) == hex_text(key_b) {
        lemma_text_tells_bytes_apart(key_a, key_b);
    }
}

} // verus!
