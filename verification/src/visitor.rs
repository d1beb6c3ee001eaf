//! Reading a 64-bit number from a field that may hold it as text or as an
//! integer.
//!
//! Identifiers are written as strings, since not every reader of JSON keeps
//! 64 bits of an integer, but some payloads carry them as integers all the
//! same. Both are taken.

use vstd::prelude::*;

use crate::decimal::{parse_u64, spec_parse_u64};
use crate::wire::{DecodeError, Primitive};

verus! {

/// What [`StringOrInteger`] makes of each kind of wire value.
pub open spec fn spec_visit(p: Primitive) -> Result<u64, DecodeError> {
    match p {
        Primitive::Text(s) => match spec_parse_u64(s@) {
            Some(n) => Ok(n),
            None => Err(DecodeError::InvalidFormat),
        },
        Primitive::Unsigned(n) => Ok(n),
        Primitive::Signed(n) => if n >= 0 {
            Ok(n as u64)
        } else {
            Err(DecodeError::InvalidFormat)
        },
        _ => Err(DecodeError::TypeMismatch),
    }
}

/// Takes a positive integer or a string that holds one.
#[derive(Debug, Default, Clone, Copy)]
pub struct StringOrInteger;

impl StringOrInteger {
    /// Text: read as a base-ten integer.
    pub fn visit_str(self, value: &str) -> (r: Result<u64, DecodeError>)
        ensures
            r == match spec_parse_u64(value@) {
                Some(n) => Ok::<u64, DecodeError>(n),
                None => Err(DecodeError::InvalidFormat),
            },
    {
        match parse_u64(value) {
            Some(n) => Ok(n),
            None => Err(DecodeError::InvalidFormat),
        }
    }

    /// Owned text: as [`visit_str`](Self::visit_str).
    pub fn visit_string(self, value: String) -> (r: Result<u64, DecodeError>)
        ensures
            r == spec_visit(Primitive::Text(value)),
    {
        self.visit_str(value.as_str())
    }

    /// A signed integer: taken where it is not negative.
    pub fn visit_i64(self, value: i64) -> (r: Result<u64, DecodeError>)
        ensures
            r == spec_visit(Primitive::Signed(value)),
    {
        if value >= 0 {
            Ok(value as u64)
        } else {
            Err(DecodeError::InvalidFormat)
        }
    }

    /// As [`visit_i64`](Self::visit_i64), for the narrower type.
    pub fn visit_i8(self, value: i8) -> (r: Result<u64, DecodeError>)
        ensures
            r == spec_visit(Primitive::Signed(value as i64)),
    {
        self.visit_i64(value as i64)
    }

    /// As [`visit_i64`](Self::visit_i64), for the narrower type.
    pub fn visit_i16(self, value: i16) -> (r: Result<u64, DecodeError>)
        ensures
            r == spec_visit(Primitive::Signed(value as i64)),
    {
        self.visit_i64(value as i64)
    }

    /// As [`visit_i64`](Self::visit_i64), for the narrower type.
    pub fn visit_i32(self, value: i32) -> (r: Result<u64, DecodeError>)
        ensures
            r == spec_visit(Primitive::Signed(value as i64)),
    {
        self.visit_i64(value as i64)
    }

    /// An unsigned integer: taken as it is.
    pub fn visit_u64(self, value: u64) -> (r: Result<u64, DecodeError>)
        ensures
            r == spec_visit(Primitive::Unsigned(value)),
    {
        Ok(value)
    }

    /// As [`visit_u64`](Self::visit_u64), for the narrower type.
    pub fn visit_u8(self, value: u8) -> (r: Result<u64, DecodeError>)
        ensures
            r == Ok::<u64, DecodeError>(value as u64),
    {
        Ok(value as u64)
    }

    /// As [`visit_u64`](Self::visit_u64), for the narrower type.
    pub fn visit_u16(self, value: u16) -> (r: Result<u64, DecodeError>)
        ensures
            r == Ok::<u64, DecodeError>(value as u64),
    {
        Ok(value as u64)
    }

    /// As [`visit_u64`](Self::visit_u64), for the narrower type.
    pub fn visit_u32(self, value: u32) -> (r: Result<u64, DecodeError>)
        ensures
            r == Ok::<u64, DecodeError>(value as u64),
    {
        Ok(value as u64)
    }

    /// Any wire value: text and integers as above, every other kind refused.
    pub fn visit(self, value: &Primitive) -> (r: Result<u64, DecodeError>)
        ensures
            r == spec_visit(*value),
    {
        match value {
            Primitive::Text(s) => self.visit_str(s.as_str()),
            Primitive::Unsigned(n) => self.visit_u64(*n),
            Primitive::Signed(n) => self.visit_i64(*n),
            _ => Err(DecodeError::TypeMismatch),
        }
    }
}

} // verus!
