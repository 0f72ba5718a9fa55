//! Wire values, and their coercion into the types that callers ask for.

use vstd::prelude::*;
use crate::api::DBusApi;

verus! {

/// A value as it came over the bus, before anybody has said what type it is
/// to be read as. It holds exactly one of: a string, an integer (every
/// integral wire type widened to 64 bits), or a sequence of further values.
/// Any other shape is `Other`, which no coercion accepts.
#[derive(Debug, PartialEq, Eq)]
pub enum WireValue {
    Text(String),
    Integer(i64),
    Sequence(Vec<WireValue>),
    Other,
}

/// The value behind three readings of one argument of the bus: its string,
/// its integer and its items, each of which it may or may not show. The
/// string counts before the integer, the integer before the items, and an
/// argument that shows none of them is `Other`.
pub open spec fn observed_value(
    text: Option<String>,
    number: Option<i64>,
    items: Option<Vec<WireValue>>,
) -> WireValue {
    match (text, number, items) {
        (Some(text), _, _) => WireValue::Text(text),
        (None, Some(number), _) => WireValue::Integer(number),
        (None, None, Some(items)) => WireValue::Sequence(items),
        (None, None, None) => WireValue::Other,
    }
}

impl WireValue {
    /// The value of an argument that reads as `text` where a string is
    /// asked of it, as `number` where an integer is, and as `items` where
    /// its items are.
    pub fn observed(text: Option<String>, number: Option<i64>, items: Option<Vec<WireValue>>) -> (value:
        WireValue)
        ensures
            value == observed_value(text, number, items),
    {
        match text {
            Some(text) => WireValue::Text(text),
            None => match number {
                Some(number) => WireValue::Integer(number),
                None => match items {
                    Some(items) => WireValue::Sequence(items),
                    None => WireValue::Other,
                },
            },
        }
    }
}

/// The string in a value, if it holds one.
pub open spec fn as_string(value: WireValue) -> Option<Seq<char>> {
    match value {
        WireValue::Text(text) => Some(text@),
        _ => None,
    }
}

/// The integer in a value, if it holds one.
pub open spec fn as_i64(value: WireValue) -> Option<i64> {
    match value {
        WireValue::Integer(number) => Some(number),
        _ => None,
    }
}

/// The integer in a value, cut down to its low 32 bits.
pub open spec fn as_u32(value: WireValue) -> Option<u32> {
    match value {
        WireValue::Integer(number) => Some(number as u32),
        _ => None,
    }
}

/// Whether the integer in a value is zero. Mind the polarity: zero is
/// `true`, every other integer is `false`.
pub open spec fn as_bool(value: WireValue) -> Option<bool> {
    match value {
        WireValue::Integer(number) => Some(number == 0),
        _ => None,
    }
}

/// Every one of `items` holds a string.
pub open spec fn all_text(items: Seq<WireValue>) -> bool {
    forall|i: int| 0 <= i < items.len() ==> (#[trigger] items[i]) is Text
}

/// Every one of `items` holds an integer.
pub open spec fn all_integer(items: Seq<WireValue>) -> bool {
    forall|i: int| 0 <= i < items.len() ==> (#[trigger] items[i]) is Integer
}

/// The strings of a sequence all of whose items hold one, in their order.
/// A single item of another shape leaves nothing.
pub open spec fn as_string_list(value: WireValue) -> Option<Seq<Seq<char>>> {
    match value {
        WireValue::Sequence(items) => if all_text(items@) {
            Some(Seq::new(items@.len(), |i: int| as_string(items@[i]).unwrap()))
        } else {
            None
        },
        _ => None,
    }
}

/// The integers of a sequence all of whose items hold one, each cut down to
/// its low 8 bits, in their order. A single item of another shape leaves
/// nothing.
pub open spec fn as_byte_list(value: WireValue) -> Option<Seq<u8>> {
    match value {
        WireValue::Sequence(items) => if all_integer(items@) {
            Some(Seq::new(items@.len(), |i: int| as_i64(items@[i]).unwrap() as u8))
        } else {
            None
        },
        _ => None,
    }
}

/// Coercion of a wire value into `T`. The dispatcher has it for strings,
/// `i64`, `u32`, `bool`, lists of strings and lists of bytes.
pub trait VariantTo<T> {
    /// A `T` as contracts see it.
    type V;

    /// What contracts see of `data`.
    spec fn seen(data: T) -> Self::V;

    /// What `value` is as a `T`, or nothing where it has another shape.
    spec fn coerced(value: WireValue) -> Option<Self::V>;

    /// Coerces `value` into a `T`. It either gives the whole result or
    /// none of it.
    fn variant_to(value: &WireValue) -> (out: Option<T>)
        ensures
            (match out {
                Some(data) => Some(Self::seen(data)),
                None => None,
            }) == Self::coerced(*value),
    ;
}

impl VariantTo<String> for DBusApi {
    type V = Seq<char>;

    open spec fn seen(data: String) -> Seq<char> {
        data@
    }

    open spec fn coerced(value: WireValue) -> Option<Seq<char>> {
        as_string(value)
    }

    fn variant_to(value: &WireValue) -> (out: Option<String>) {
        match value {
            WireValue::Text(text) => Some(text.clone()),
            _ => None,
        }
    }
}

impl VariantTo<i64> for DBusApi {
    type V = i64;

    open spec fn seen(data: i64) -> i64 {
        data
    }

    open spec fn coerced(value: WireValue) -> Option<i64> {
        as_i64(value)
    }

    fn variant_to(value: &WireValue) -> (out: Option<i64>) {
        match value {
            WireValue::Integer(number) => Some(*number),
            _ => None,
        }
    }
}

impl VariantTo<u32> for DBusApi {
    type V = u32;

    open spec fn seen(data: u32) -> u32 {
        data
    }

    open spec fn coerced(value: WireValue) -> Option<u32> {
        as_u32(value)
    }

    fn variant_to(value: &WireValue) -> (out: Option<u32>) {
        match value {
            WireValue::Integer(number) => Some(#[verifier::truncate] (*number as u32)),
            _ => None,
        }
    }
}

impl VariantTo<bool> for DBusApi {
    type V = bool;

    open spec fn seen(data: bool) -> bool {
        data
    }

    open spec fn coerced(value: WireValue) -> Option<bool> {
        as_bool(value)
    }

    fn variant_to(value: &WireValue) -> (out: Option<bool>) {
        match value {
            WireValue::Integer(number) => Some(*number == 0),
            _ => None,
        }
    }
}

impl VariantTo<Vec<String>> for DBusApi {
    type V = Seq<Seq<char>>;

    open spec fn seen(data: Vec<String>) -> Seq<Seq<char>> {
        data.deep_view()
    }

    open spec fn coerced(value: WireValue) -> Option<Seq<Seq<char>>> {
        as_string_list(value)
    }

    fn variant_to(value: &WireValue) -> (out: Option<Vec<String>>) {
        match value {
            WireValue::Sequence(items) => {
                let mut result: Vec<String> = Vec::new();
                let mut i: usize = 0;
                while i < items.len()
                    invariant
                        *value == WireValue::Sequence(*items),
                        i <= items.len(),
                        result.len() == i,
                        forall|j: int| 0 <= j < i ==> (#[trigger] items@[j]) is Text,
                        forall|j: int|
                            0 <= j < i ==> Some((#[trigger] result@[j])@) == as_string(items@[j]),
                    decreases items.len() - i,
                {
                    match &items[i] {
                        WireValue::Text(text) => {
                            result.push(text.clone());
                        },
                        _ => {
                            assert(!(items@[i as int] is Text));
                            return None;
                        },
                    }
                    i = i + 1;
                }
                assert(result.deep_view() =~= as_string_list(*value).unwrap());
                Some(result)
            },
            _ => None,
        }
    }
}

impl VariantTo<Vec<u8>> for DBusApi {
    type V = Seq<u8>;

    open spec fn seen(data: Vec<u8>) -> Seq<u8> {
        data@
    }

    open spec fn coerced(value: WireValue) -> Option<Seq<u8>> {
        as_byte_list(value)
    }

    fn variant_to(value: &WireValue) -> (out: Option<Vec<u8>>) {
        match value {
            WireValue::Sequence(items) => {
                let mut result: Vec<u8> = Vec::new();
                let mut i: usize = 0;
                while i < items.len()
                    invariant
                        *value == WireValue::Sequence(*items),
                        i <= items.len(),
                        result.len() == i,
                        forall|j: int| 0 <= j < i ==> (#[trigger] items@[j]) is Integer,
                        forall|j: int|
                            0 <= j < i ==> (#[trigger] result@[j]) == as_i64(
                                items@[j],
                            ).unwrap() as u8,
                    decreases items.len() - i,
                {
                    match &items[i] {
                        WireValue::Integer(number) => {
                            result.push(#[verifier::truncate] (*number as u8));
                        },
                        _ => {
                            assert(!(items@[i as int] is Integer));
                            return None;
                        },
                    }
                    i = i + 1;
                }
                assert(result@ =~= as_byte_list(*value).unwrap());
                Some(result)
            },
            _ => None,
        }
    }
}

/// A value that holds a string is no number: it coerces neither to `u32`
/// nor to `i64` nor to `bool`.
pub proof fn text_is_no_number(text: String)
    ensures
        as_u32(WireValue::Text(text)) is None,
        as_i64(WireValue::Text(text)) is None,
        as_bool(WireValue::Text(text)) is None,
{
}

/// An integer is `true` exactly when it is zero.
pub proof fn zero_alone_is_true(number: i64)
    ensures
        as_bool(WireValue::Integer(number)) == Some(number == 0),
{
}

/// An integer that fits in 32 bits without a sign coerces to itself.
pub proof fn small_integer_is_kept(number: i64)
    requires
        0 <= number <= u32::MAX,
    ensures
        as_u32(WireValue::Integer(number)) == Some(number as u32),
        number as u32 == number,
{
}

/// A sequence of strings coerces to those strings, as many as there are
/// and in their order.
pub proof fn string_list_keeps_every_item_in_order(items: Vec<WireValue>)
    requires
        all_text(items@),
    ensures
        as_string_list(WireValue::Sequence(items)) matches Some(texts) && texts.len()
            == items@.len() && forall|i: int|
            0 <= i < items@.len() ==> Some(#[trigger] texts[i]) == as_string(items@[i]),
{
}

/// A sequence of integers coerces to their low bytes, as many as there are
/// and in their order.
pub proof fn byte_list_keeps_every_item_in_order(items: Vec<WireValue>)
    requires
        all_integer(items@),
    ensures
        as_byte_list(WireValue::Sequence(items)) matches Some(bytes) && bytes.len()
            == items@.len() && forall|i: int|
            0 <= i < items@.len() ==> #[trigger] bytes[i] == as_i64(items@[i]).unwrap() as u8,
{
}

/// One item of another shape, wherever it stands, leaves nothing of the
/// list: no part of a sequence is ever returned.
pub proof fn one_stray_item_spoils_the_list(items: Vec<WireValue>, at: int)
    requires
        0 <= at < items@.len(),
    ensures
        !(items@[at] is Text) ==> as_string_list(WireValue::Sequence(items)) is None,
        !(items@[at] is Integer) ==> as_byte_list(WireValue::Sequence(items)) is None,
{
}

} // verus!
