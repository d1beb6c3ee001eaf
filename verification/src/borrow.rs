//! Borrowed forms of fields that may be absent.
//!
//! A resource owns its strings and lists; its accessors lend them out. These
//! say what it means for the loan to be the field, and make the loan.

use vstd::prelude::*;

verus! {

/// Whether the borrowed text `r` is the text of `field`, absent where it is.
pub open spec fn same_text(r: Option<&str>, field: Option<String>) -> bool {
    match (r, field) {
        (Some(a), Some(b)) => a@ == b@,
        (None, None) => true,
        _ => false,
    }
}

/// Whether the borrowed items `r` are the items of `field`, absent where it
/// is.
pub open spec fn same_items<T>(r: Option<&[T]>, field: Option<Vec<T>>) -> bool {
    match (r, field) {
        (Some(a), Some(b)) => a@ == b@,
        (None, None) => true,
        _ => false,
    }
}

/// Whether the borrowed value `r` is the value of `field`, absent where it
/// is.
pub open spec fn same_value<T>(r: Option<&T>, field: Option<T>) -> bool {
    match (r, field) {
        (Some(a), Some(b)) => *a == b,
        (None, None) => true,
        _ => false,
    }
}

/// Whether the borrowed value `r` is the boxed value of `field`, absent
/// where it is.
pub open spec fn same_boxed<T>(r: Option<&T>, field: Option<Box<T>>) -> bool {
    match (r, field) {
        (Some(a), Some(b)) => *a == *b,
        (None, None) => true,
        _ => false,
    }
}

/// Lends the text of an optional string.
pub fn opt_str(field: &Option<String>) -> (r: Option<&str>)
    ensures
        same_text(r, *field),
{
    match field {
        Some(s) => Some(s.as_str()),
        None => None,
    }
}

/// Lends the items of an optional list.
pub fn opt_slice<T>(field: &Option<Vec<T>>) -> (r: Option<&[T]>)
    ensures
        same_items(r, *field),
{
    match field {
        Some(v) => Some(v.as_slice()),
        None => None,
    }
}

/// Lends an optional value.
pub fn opt_ref<T>(field: &Option<T>) -> (r: Option<&T>)
    ensures
        same_value(r, *field),
{
    match field {
        Some(v) => Some(v),
        None => None,
    }
}

/// Lends an optional boxed value.
pub fn opt_boxed<T>(field: &Option<Box<T>>) -> (r: Option<&T>)
    ensures
        same_boxed(r, *field),
{
    match field {
        Some(v) => Some(&**v),
        None => None,
    }
}

} // verus!
