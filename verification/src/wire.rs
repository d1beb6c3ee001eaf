//! The primitive values that fields travel as.

use vstd::prelude::*;

verus! {

/// A value as it stands on the wire, as far as the decoders here tell values
/// apart: the JSON primitives, and one case for everything that is not one.
///
/// An integer that is not negative travels as `Unsigned`; `Signed` is there
/// for the negative ones, though the decoders take a `Signed` that is not
/// negative for the number it is.
#[derive(Clone, Debug, PartialEq, Eq)]
pub enum Primitive {
    Null,
    Bool(bool),
    Unsigned(u64),
    Signed(i64),
    Text(String),
    /// An array, an object, or a number that is no integer.
    Composite,
}

/// Why a wire value could not be decoded.
#[derive(Clone, Copy, Debug, PartialEq, Eq, Structural)]
pub enum DecodeError {
    /// The value is of a kind that the field travels as, but is no unsigned
    /// 64-bit number: text that is not a base-ten integer in range, or a
    /// negative integer.
    InvalidFormat,
    /// The value is of a kind that the field does not travel as.
    TypeMismatch,
}

} // verus!
