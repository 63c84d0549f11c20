//! The part of a JSON document that the adapters read.

use vstd::prelude::*;

verus! {

/// A JSON value, reduced to what the adapters tell apart.
#[derive(Debug)]
pub enum JsonValue {
    /// A string.
    Text(String),
    /// A whole number from 0 to 2^64 - 1.
    Unsigned(u64),
    /// An array.
    Array(Vec<JsonValue>),
    /// Anything else: null, a boolean, another number, an object.
    Other,
}

} // verus!
