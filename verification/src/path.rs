//! Object paths, and their text.

use vstd::prelude::*;
use vstd::utf8::{decode_utf8, encode_utf8, valid_utf8};
use crate::error::{occurs_in, CallError, CallErrorView, ErrorKind};

verus! {

/// An object path as it is held in memory: its bytes, without the final
/// zero, and its debug form, which stands for it in messages.
#[derive(Clone, Debug, PartialEq, Eq)]
pub struct ObjectPath {
    pub bytes: Vec<u8>,
    pub shown: String,
}

/// The failure of a path whose bytes are no UTF-8. `shown` is the debug
/// form of the path.
pub open spec fn path_not_utf8(shown: Seq<char>) -> CallErrorView {
    CallErrorView { kind: ErrorKind::VariantShape, message: "Path not a UTF-8 string: "@ + shown }
}

/// The text of a path: the characters that its bytes encode, or a failure
/// that shows the path where they encode none.
pub open spec fn path_text(bytes: Seq<u8>, shown: Seq<char>) -> Result<Seq<char>, CallErrorView> {
    if valid_utf8(bytes) {
        Ok(decode_utf8(bytes))
    } else {
        Err(path_not_utf8(shown))
    }
}

/// Calls `core::str::from_utf8` and copies the string that it gives.
/// Trusted: it gives one exactly for bytes that are valid UTF-8, and the
/// string then holds the characters that the bytes encode.
#[verifier::external_body]
fn string_from_utf8(bytes: &[u8]) -> (r: Option<String>)
    ensures
        r is Some <==> valid_utf8(bytes@),
        r matches Some(text) ==> text@ == decode_utf8(bytes@),
{
    match core::str::from_utf8(bytes) {
        Ok(text) => Some(text.to_string()),
        Err(_) => None,
    }
}

/// The path as a string. Bytes that are no valid UTF-8 are a `VariantShape`
/// failure whose message ends with the debug form of the path.
pub fn path_to_string(path: &ObjectPath) -> (r: Result<String, CallError>)
    ensures
        (match r {
            Ok(text) => Ok(text@),
            Err(error) => Err(error@),
        }) == path_text(path.bytes@, path.shown@),
{
    match string_from_utf8(path.bytes.as_slice()) {
        Some(text) => Ok(text),
        None => Err(
            CallError::with_detail(
                ErrorKind::VariantShape,
                "Path not a UTF-8 string: ",
                path.shown.as_str(),
            ),
        ),
    }
}

/// A path whose bytes are the UTF-8 encoding of `text` has exactly `text`
/// as its string.
pub proof fn encoded_path_gives_its_text(text: Seq<char>, shown: Seq<char>)
    ensures
        path_text(encode_utf8(text), shown) == Ok::<Seq<char>, CallErrorView>(text),
{
    vstd::utf8::encode_utf8_valid_utf8(text);
    vstd::utf8::encode_utf8_decode_utf8(text);
}

/// A path whose bytes are no UTF-8 has no string, and the failure shows
/// the path.
pub proof fn unreadable_path_shows_itself(bytes: Seq<u8>, shown: Seq<char>)
    requires
        !valid_utf8(bytes),
    ensures
        path_text(bytes, shown) matches Err(error) && error.kind == ErrorKind::VariantShape
            && occurs_in(shown, error.message),
{
    let message = path_not_utf8(shown).message;
    let at = "Path not a UTF-8 string: "@.len() as int;
    assert(message.subrange(at, at + shown.len()) == shown);
}

} // verus!
