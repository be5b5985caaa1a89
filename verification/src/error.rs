//! The one error type of the store, with a variant for each step that can fail.

use hex::FromHexError;
use rusqlite::Error as EngineError;
use serde_json::Error as JsonError;
use vstd::prelude::*;
use vstd::std_specs::convert::FromSpecImpl;

verus! {

/// `hex::FromHexError`, carried through unopened.
#[verifier::external_type_specification]
#[verifier::external_body]
pub struct ExFromHexError(FromHexError);

/// `rusqlite::Error`, carried through unopened.
#[verifier::external_type_specification]
#[verifier::external_body]
pub struct ExEngineError(EngineError);

/// `serde_json::Error`, carried through unopened.
#[verifier::external_type_specification]
#[verifier::external_body]
pub struct ExJsonError(JsonError);

/// Why a call on the store failed. No failure is retried or hidden: the
/// first step that fails ends the call with its variant.
#[derive(Debug)]
pub enum Error {
    /// Stored text is not hexadecimal.
    Hex(hex::FromHexError),
    /// The database refused a statement.
    Rusqlite(rusqlite::Error),
    /// A value could not be written as JSON, or bytes do not hold the JSON
    /// of the type asked for.
    SerdeJson(serde_json::Error),
}

impl From<hex::FromHexError> for Error {
    fn from(error: hex::FromHexError) -> (r: Error) {
        Error::Hex(error)
    }
}

impl FromSpecImpl<hex::FromHexError> for Error {
    open spec fn obeys_from_spec() -> bool {
        true
    }

    open spec fn from_spec(error: hex::FromHexError) -> Error {
        Error::Hex(error)
    }
}

impl From<rusqlite::Error> for Error {
    fn from(error: rusqlite::Error) -> (r: Error) {
        Error::Rusqlite(error)
    }
}

impl FromSpecImpl<rusqlite::Error> for Error {
    open spec fn obeys_from_spec() -> bool {
        true
    }

    open spec fn from_spec(error: rusqlite::Error) -> Error {
        Error::Rusqlite(error)
    }
}

impl From<serde_json::Error> for Error {
    fn from(error: serde_json::Error) -> (r: Error) {
        Error::SerdeJson(error)
    }
}

impl FromSpecImpl<serde_json::Error> for Error {
    open spec fn obeys_from_spec() -> bool {
        true
    }

    open spec fn from_spec(error: serde_json::Error) -> Error {
        Error::SerdeJson(error)
    }
}

} // verus!
