//! Typed fields out of a reply, and typed values out of a variant.

use vstd::prelude::*;
use crate::api::DBusApi;
use crate::error::{CallError, CallErrorView, ErrorKind};

verus! {

/// The failure of a reply that does not hold what was asked of it.
pub open spec fn wrong_response_type() -> CallErrorView {
    CallErrorView { kind: ErrorKind::ResponseShape, message: "D-Bus wrong response type"@ }
}

/// The failure of a variant that does not hold the type asked for. `shown`
/// is the debug form of the variant.
pub open spec fn variant_type_mismatch(shown: Seq<char>) -> CallErrorView {
    CallErrorView {
        kind: ErrorKind::VariantShape,
        message: "D-Bus variant type does not match: "@ + shown,
    }
}

/// The failure of a variant that is no array. `shown` is the debug form of
/// the variant.
pub open spec fn variant_not_an_array(shown: Seq<char>) -> CallErrorView {
    CallErrorView { kind: ErrorKind::VariantShape, message: "D-Bus variant not an array: "@ + shown }
}

/// A variant that was opened as an iterator and read as a `T`: the value
/// where the variant holds one of that type, and the debug form of the
/// variant, which goes into the message where it does not.
#[derive(Debug)]
pub struct VariantRead<T> {
    pub value: Option<T>,
    pub shown: String,
}

impl DBusApi {
    /// The one field asked of a reply. `field` is what reading the first
    /// field of the reply as a `T` gave: nothing where the reply has no
    /// field or one of another type, which is a `ResponseShape` failure.
    pub fn extract<T>(&self, field: Option<T>) -> (r: Result<T, CallError>)
        ensures
            match field {
                Some(value) => r == Ok::<T, CallError>(value),
                None => r matches Err(error) && error@ == wrong_response_type(),
            },
    {
        match field {
            Some(value) => Ok(value),
            None => Err(CallError::new(ErrorKind::ResponseShape, "D-Bus wrong response type")),
        }
    }

    /// The two fields asked of a reply, in their order. `fields` is what
    /// reading the first two fields of the reply as a `T1` and a `T2` gave.
    /// Both must be there: with either missing it is a `ResponseShape`
    /// failure and the other is dropped.
    pub fn extract_two<T1, T2>(&self, fields: (Option<T1>, Option<T2>)) -> (r: Result<
        (T1, T2),
        CallError,
    >)
        ensures
            match fields {
                (Some(first), Some(second)) => r == Ok::<(T1, T2), CallError>((first, second)),
                _ => r matches Err(error) && error@ == wrong_response_type(),
            },
    {
        match fields {
            (Some(first), Some(second)) => Ok((first, second)),
            _ => Err(CallError::new(ErrorKind::ResponseShape, "D-Bus wrong response type")),
        }
    }
}

/// The value of a variant read as a `T`, or a `VariantShape` failure whose
/// message ends with the debug form of the variant.
pub fn extract<T>(var: VariantRead<T>) -> (r: Result<T, CallError>)
    ensures
        match var.value {
            Some(value) => r == Ok::<T, CallError>(value),
            None => r matches Err(error) && error@ == variant_type_mismatch(var.shown@),
        },
{
    match var.value {
        Some(value) => Ok(value),
        None => Err(
            CallError::with_detail(
                ErrorKind::VariantShape,
                "D-Bus variant type does not match: ",
                var.shown.as_str(),
            ),
        ),
    }
}

/// The bytes of a variant read as an array of bytes, or a `VariantShape`
/// failure whose message ends with the debug form of the variant.
pub fn variant_iter_to_vec_u8(var: VariantRead<Vec<u8>>) -> (r: Result<Vec<u8>, CallError>)
    ensures
        match var.value {
            Some(bytes) => r == Ok::<Vec<u8>, CallError>(bytes),
            None => r matches Err(error) && error@ == variant_not_an_array(var.shown@),
        },
{
    match var.value {
        Some(bytes) => Ok(bytes),
        None => Err(
            CallError::with_detail(
                ErrorKind::VariantShape,
                "D-Bus variant not an array: ",
                var.shown.as_str(),
            ),
        ),
    }
}

} // verus!
