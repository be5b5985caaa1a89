//! Values that can be kept in the store: those with a JSON form.

use vstd::prelude::*;

verus! {

/// A value with a JSON form. Keys are compared by the bytes of that form,
/// so a type used as a key must write equal values to equal bytes.
pub trait Json: Sized {
    /// The JSON form of this value.
    fn to_json(&self) -> Result<Vec<u8>, serde_json::Error>;

    /// The value that `bytes` are the JSON form of, or an error where they
    /// are not the JSON of a value of this type.
    fn from_json(bytes: &[u8]) -> Result<Self, serde_json::Error>;
}

/// `serde_json::to_vec`. Nothing is claimed of the bytes: they are whatever
/// the value's `Serialize` impl writes.
#[verifier::external_body]
fn to_vec<T: serde::Serialize>(value: &T) -> (r: Result<Vec<u8>, serde_json::Error>) {
    serde_json::to_vec(value)
}

/// `serde_json::from_slice`. Nothing is claimed of the result: it is
/// whatever the type's `Deserialize` impl reads.
#[verifier::external_body]
fn from_slice<T: serde::de::DeserializeOwned>(bytes: &[u8]) -> (r: Result<
    T,
    serde_json::Error,
>) {
    serde_json::from_slice(bytes)
}

/// Whether `r` is what `serde_json::to_vec` returned for `value`.
pub closed spec fn json_written<T: serde::Serialize>(
    value: &T,
    r: Result<Vec<u8>, serde_json::Error>,
) -> bool {
    call_ensures(to_vec::<T>, (value,), r)
}

/// Whether `r` is what `serde_json::from_slice` returned for `bytes`, read
/// as a `T`.
pub closed spec fn json_read<T: serde::de::DeserializeOwned>(
    bytes: &[u8],
    r: Result<T, serde_json::Error>,
) -> bool {
    call_ensures(from_slice::<T>, (bytes,), r)
}

impl Json for String {
    /// What `serde_json::to_vec` writes for this value.
    fn to_json(&self) -> (r: Result<Vec<u8>, serde_json::Error>)
        ensures
            json_written(self, r),
    {
        to_vec(self)
    }

    /// What `serde_json::from_slice` reads from `bytes`.
    fn from_json(bytes: &[u8]) -> (r: Result<Self, serde_json::Error>)
        ensures
            json_read(bytes, r),
    {
        from_slice(bytes)
    }
}

impl Json for i64 {
    /// What `serde_json::to_vec` writes for this value.
    fn to_json(&self) -> (r: Result<Vec<u8>, serde_json::Error>)
        ensures
            json_written(self, r),
    {
        to_vec(self)
    }

    /// What `serde_json::from_slice` reads from `bytes`.
    fn from_json(bytes: &[u8]) -> (r: Result<Self, serde_json::Error>)
        ensures
            json_read(bytes, r),
    {
        from_slice(bytes)
    }
}

impl Json for u64 {
    /// What `serde_json::to_vec` writes for this value.
    fn to_json(&self) -> (r: Result<Vec<u8>, serde_json::Error>)
        ensures
            json_written(self, r),
    {
        to_vec(self)
    }

    /// What `serde_json::from_slice` reads from `bytes`.
    fn from_json(bytes: &[u8]) -> (r: Result<Self, serde_json::Error>)
        ensures
            json_read(bytes, r),
    {
        from_slice(bytes)
    }
}

impl Json for bool {
    /// What `serde_json::to_vec` writes for this value.
    fn to_json(&self) -> (r: Result<Vec<u8>, serde_json::Error>)
        ensures
            json_written(self, r),
    {
        to_vec(self)
    }

    /// What `serde_json::from_slice` reads from `bytes`.
    fn from_json(bytes: &[u8]) -> (r: Result<Self, serde_json::Error>)
        ensures
            json_read(bytes, r),
    {
        from_slice(bytes)
    }
}

} // verus!
