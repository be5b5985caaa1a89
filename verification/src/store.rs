//! The interface of a store, and the steps between a typed value and the
//! text of a row that every store shares.

use crate::encoding::{decode, encode, hex_bytes, hex_text, is_hex_text};
use crate::error::Error;
use crate::field::Field;
use crate::json::Json;
use vstd::prelude::*;

verus! {

/// A store of values by key, and of fields by their type.
///
/// Two keys are the same key exactly if their JSON forms are the same
/// bytes. A store holds at most one value for a key: the last one set.
pub trait KeyValueStore {
    /// What a failed call returns.
    type Error;

    /// Keeps `value` under `key`, in place of any value kept there before.
    fn set<K: Json, V: Json>(&mut self, key: &K, value: &V) -> Result<(), Self::Error>;

    /// The value kept under `key`; `None` where there is none. A value that
    /// is there but is not of type `V` is an error.
    fn get<V: Json, K: Json>(&self, key: &K) -> Result<Option<V>, Self::Error>;

    /// Keeps `item` under the name of its type.
    fn set_field<F: Field>(&mut self, item: &F) -> Result<(), Self::Error>;

    /// The value kept under the name of `F`, or the default of `F` where
    /// there is none.
    fn get_field<F: Field>(&self) -> Result<F, Self::Error>;
}

/// Whether `text` is the stored form of some bytes: lowercase hexadecimal.
pub open spec fn is_stored_text(text: Seq<char>) -> bool {
    text == hex_text(hex_bytes(text))
}

/// The text of a looked-up row, as contracts see it.
pub open spec fn row_text(row: Option<String>) -> Option<Seq<char>> {
    match row {
        Some(text) => Some(text@),
        None => None,
    }
}

/// What the text of a looked-up row reads as: nothing where there is no
/// row, else the bytes the text stands for, and an error where it stands
/// for none.
pub open spec fn row_bytes(row: Option<Seq<char>>) -> Result<Option<Seq<u8>>, ()> {
    match row {
        None => Ok(None),
        Some(text) => if is_hex_text(text) {
            Ok(Some(hex_bytes(text)))
        } else {
            Err(())
        },
    }
}

/// Whether `r` is what a lookup returns for a row: `None` for no row,
/// `Error::Hex` for text that is not hexadecimal, and else what some reading
/// of the row's bytes as the JSON of a `V` gave, a failure to read passed
/// on as `Error::SerdeJson`.
pub open spec fn reads_as<V: Json>(row: Option<Seq<char>>, r: Result<Option<V>, Error>) -> bool {
    match row_bytes(row) {
        Ok(None) => r == Ok::<Option<V>, Error>(None),
        Ok(Some(json)) => exists|bytes: &[u8], parsed: Result<V, serde_json::Error>|
            {
                &&& bytes@ == json
                &&& #[trigger] call_ensures(V::from_json, (bytes,), parsed)
                &&& parsed matches Ok(v) ==> r == Ok::<Option<V>, Error>(Some(v))
                &&& parsed matches Err(e) ==> r == Err::<Option<V>, Error>(Error::SerdeJson(e))
            },
        Err(_) => r is Err && r->Err_0 is Hex,
    }
}

/// The text of a result, as contracts see it.
pub open spec fn text_view(r: Result<String, Error>) -> Result<Seq<char>, Error> {
    match r {
        Ok(text) => Ok(text@),
        Err(e) => Err(e),
    }
}

/// Whether `r` is the text to store for `item`: the hexadecimal of what some
/// writing of `item` as JSON gave, a failure to write passed on as
/// `Error::SerdeJson`.
pub open spec fn writes_as<T: Json>(item: &T, r: Result<Seq<char>, Error>) -> bool {
    exists|json: Result<Vec<u8>, serde_json::Error>|
        {
            &&& #[trigger] call_ensures(T::to_json, (item,), json)
            &&& json matches Ok(bytes) ==> r == Ok::<Seq<char>, Error>(hex_text(bytes@))
            &&& json matches Err(e) ==> r == Err::<Seq<char>, Error>(Error::SerdeJson(e))
        }
}

/// The text to store for a value, given what writing it as JSON returned.
pub fn json_to_text(json: Result<Vec<u8>, serde_json::Error>) -> (r: Result<String, Error>)
    ensures
        json matches Ok(bytes) ==> r is Ok && r->Ok_0@ == hex_text(bytes@),
        json matches Err(e) ==> r is Err && r->Err_0 == Error::SerdeJson(e),
        r matches Ok(text) ==> is_stored_text(text@),
{
    match json {
        Ok(bytes) => Ok(encode(bytes.as_slice())),
        Err(e) => Err(Error::SerdeJson(e)),
    }
}

/// The text to store for `item`: its JSON form in hexadecimal. Fails only
/// where `item` cannot be written as JSON.
pub fn to_text<T: Json>(item: &T) -> (r: Result<String, Error>)
    ensures
        writes_as(item, text_view(r)),
        r matches Ok(text) ==> is_stored_text(text@),
        r matches Err(e) ==> e is SerdeJson,
{
    json_to_text(item.to_json())
}

/// The bytes kept in a looked-up row. No row is no value, not an error;
/// text that is not hexadecimal is `Error::Hex`.
pub fn text_to_json(row: Option<String>) -> (r: Result<Option<Vec<u8>>, Error>)
    ensures
        match row_bytes(row_text(row)) {
            Ok(None) => r is Ok && r->Ok_0 is None,
            Ok(Some(bytes)) => r is Ok && r->Ok_0 is Some && r->Ok_0->Some_0@ == bytes,
            Err(_) => r is Err && r->Err_0 is Hex,
        },
{
    match row {
        None => Ok(None),
        Some(text) => match decode(text.as_str()) {
            Ok(bytes) => Ok(Some(bytes)),
            Err(e) => Err(e),
        },
    }
}

/// The value that a lookup returns, given what reading its JSON returned.
/// A failure to read is passed on, never replaced by a default.
pub fn json_to_value<V>(parsed: Result<V, serde_json::Error>) -> (r: Result<Option<V>, Error>)
    ensures
        parsed matches Ok(v) ==> r == Ok::<Option<V>, Error>(Some(v)),
        parsed matches Err(e) ==> r == Err::<Option<V>, Error>(Error::SerdeJson(e)),
{
    match parsed {
        Ok(v) => Ok(Some(v)),
        Err(e) => Err(Error::SerdeJson(e)),
    }
}

/// The value kept in a looked-up row: `None` where there is no row,
/// `Error::Hex` where its text is not hexadecimal, and else whatever reading
/// the bytes as the JSON of a `V` gives.
pub fn from_text<V: Json>(row: Option<String>) -> (r: Result<Option<V>, Error>)
    ensures
        reads_as::<V>(row_text(row), r),
{
    match text_to_json(row) {
        Err(e) => Err(e),
        Ok(None) => Ok(None),
        Ok(Some(bytes)) => json_to_value(V::from_json(bytes.as_slice())),
    }
}

} // verus!
