//! Reading a property: what to make of the answer of the bus.

use vstd::prelude::*;
use crate::api::DBusApi;
use crate::error::{
    property_failure_text, BusError, BusErrorView, CallError, CallErrorView, ErrorKind,
};
use crate::value::{VariantTo, WireValue};

verus! {

/// The details of a failed read: the words of the error, or `no details`
/// where it has none.
pub open spec fn read_failure_details(error: BusErrorView) -> Seq<char> {
    match error.message {
        Some(details) => details,
        None => "no details"@,
    }
}

/// What a property read comes to, given what the bus answered.
///
/// A value that coerces to `T` is the result. A value of another shape is a
/// `PropertyTypeMismatch`. A failed read is a `PropertyRead` failure with
/// the details of the error. Both messages name the interface, the property
/// and the path.
pub open spec fn property_outcome<T>(
    path: Seq<char>,
    interface: Seq<char>,
    name: Seq<char>,
    read: Result<WireValue, BusError>,
) -> Result<<DBusApi as VariantTo<T>>::V, CallErrorView> where DBusApi: VariantTo<T> {
    match read {
        Ok(value) => match <DBusApi as VariantTo<T>>::coerced(value) {
            Some(data) => Ok(data),
            None => Err(
                CallErrorView {
                    kind: ErrorKind::PropertyTypeMismatch,
                    message: property_failure_text(interface, name, path, "wrong property type"@),
                },
            ),
        },
        Err(error) => Err(
            CallErrorView {
                kind: ErrorKind::PropertyRead,
                message: property_failure_text(interface, name, path, read_failure_details(error@)),
            },
        ),
    }
}

impl DBusApi {
    /// The property `name` of `interface` at `path` as a `T`, from what the
    /// read of it came to: the value that the bus answered with, or its
    /// error.
    pub fn property<T>(
        &self,
        path: &str,
        interface: &str,
        name: &str,
        read: Result<WireValue, BusError>,
    ) -> (r: Result<T, CallError>) where DBusApi: VariantTo<T>
        ensures
            (match r {
                Ok(data) => Ok(<DBusApi as VariantTo<T>>::seen(data)),
                Err(error) => Err(error@),
            }) == property_outcome::<T>(path@, interface@, name@, read),
    {
        match read {
            Ok(value) => {
                match <DBusApi as VariantTo<T>>::variant_to(&value) {
                    Some(data) => Ok(data),
                    None => Err(
                        CallError::property_failure(
                            ErrorKind::PropertyTypeMismatch,
                            interface,
                            name,
                            path,
                            "wrong property type",
                        ),
                    ),
                }
            },
            Err(error) => {
                let details: &str = match &error.message {
                    Some(details) => details.as_str(),
                    None => "no details",
                };
                Err(
                    CallError::property_failure(
                        ErrorKind::PropertyRead,
                        interface,
                        name,
                        path,
                        details,
                    ),
                )
            },
        }
    }
}

} // verus!
