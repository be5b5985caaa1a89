//! Named singleton values: a type that is its own key.

use crate::json::Json;
use vstd::prelude::*;

verus! {

/// A value kept under a name fixed by its type. The name must not change
/// while the process runs, and no two field types of one store may share
/// it. A field that was never set reads as its type's default.
pub trait Field: Json + Default + std::fmt::Debug {
    /// The name under which values of this type are kept.
    fn key() -> String;
}

/// What reading a field gives once its row was looked up: the value found,
/// or the type's default where there was none.
pub fn found_or_default<F: Field>(found: Option<F>) -> (r: F)
    ensures
        found matches Some(v) ==> r == v,
        found is None ==> call_ensures(F::default, (), r),
{
    match found {
        Some(v) => v,
        None => F::default(),
    }
}

} // verus!
