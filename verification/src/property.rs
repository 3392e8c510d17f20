//! Normalization of raw property reads.
//!
//! A property store hands back a tagged variant whose payload depends on
//! the tag. The reader keeps only the two payloads the driver logic
//! consumes — text and signed 32-bit integers — and settles every other
//! tag to `Absent`, so a missing or oddly-typed optional property never
//! becomes an error. Only a failure of the store read itself is an
//! error, and it carries the subsystem's raw status code.
use vstd::prelude::*;

verus! {

/// Variant tag of a text (`BSTR`) payload.
pub const TAG_TEXT: u16 = 8;

/// Variant tag of a signed 32-bit integer payload.
pub const TAG_INT32: u16 = 3;

/// Numeric id of the device-identifier property.
pub const PROP_DEVICE_ID: u32 = 2;

/// Numeric id of the device-description property.
pub const PROP_DEVICE_DESC: u32 = 4;

/// Numeric id of the device-name property.
pub const PROP_DEVICE_NAME: u32 = 7;

/// Numeric id of the static document-handling-capabilities bitmask.
pub const PROP_HANDLING_CAPABILITIES: u32 = 3086;

/// Numeric id of the dynamic document-handling-status bitmask.
pub const PROP_HANDLING_STATUS: u32 = 3087;

/// Numeric id of the writable document-handling-select property.
pub const PROP_HANDLING_SELECT: u32 = 3088;

/// A tagged variant as a property store returns it, before
/// normalization: the tag together with the payload it selects. A text
/// payload may be null, which `Text(None)` records.
#[derive(Debug, Clone, PartialEq, Eq)]
pub enum RawVariant {
    Text(Option<String>),
    Int32(i32),
    Other(u16),
}

/// A property value normalized for consumption: text, a signed 32-bit
/// integer, or `Absent` for a property that was missing or of an
/// unexpected type. There is no partially-initialized state: every read
/// settles to exactly one of these.
#[derive(Debug, Clone, PartialEq, Eq)]
pub enum PropertyValue {
    Text(String),
    Int32(i32),
    Absent,
}

/// What normalization makes of one raw variant: text stays text with a
/// null payload read as the empty string, integers stay integers, and
/// every other tag settles to `Absent`.
pub open spec fn is_normalized(raw: RawVariant, v: PropertyValue) -> bool {
    match raw {
        RawVariant::Text(Some(s)) => v matches PropertyValue::Text(t) && t@ == s@,
        RawVariant::Text(None) => v matches PropertyValue::Text(t) && t@ == Seq::<char>::empty(),
        RawVariant::Int32(n) => v == PropertyValue::Int32(n),
        RawVariant::Other(_) => v == PropertyValue::Absent,
    }
}

/// The outcome a whole property read settles to: a failed store read
/// keeps its status code, a successful one is normalized.
pub open spec fn is_read_outcome(raw: Result<RawVariant, u32>, r: Result<
    PropertyValue,
    u32,
>) -> bool {
    match raw {
        Ok(rv) => r matches Ok(v) && is_normalized(rv, v),
        Err(status) => r == Err::<PropertyValue, u32>(status),
    }
}

/// Normalizes the outcome of one property read. A failure of the store
/// read is passed through as an error carrying the subsystem status
/// code; no payload is inspected in that case.
pub fn read_property(raw: Result<RawVariant, u32>) -> (r: Result<PropertyValue, u32>)
    ensures
        is_read_outcome(raw, r),
{
    match raw {
        Ok(RawVariant::Text(Some(s))) => Ok(PropertyValue::Text(s)),
        Ok(RawVariant::Text(None)) => Ok(PropertyValue::Text(String::new())),
        Ok(RawVariant::Int32(v)) => Ok(PropertyValue::Int32(v)),
        Ok(RawVariant::Other(_)) => Ok(PropertyValue::Absent),
        Err(status) => Err(status),
    }
}

/// The text a raw variant normalizes to when the property is expected
/// to be textual: the payload for a text variant (empty when null), and
/// the empty string for any other tag.
pub open spec fn text_of(raw: RawVariant) -> Seq<char> {
    match raw {
        RawVariant::Text(Some(s)) => s@,
        _ => Seq::<char>::empty(),
    }
}

/// Reads a property that is expected to be textual, such as a device
/// identifier, name or description: a failed store read keeps its
/// status code, everything else settles to text, with the empty string
/// standing in for a null, missing or oddly-typed value.
pub fn read_text_property(raw: Result<RawVariant, u32>) -> (r: Result<String, u32>)
    ensures
        match raw {
            Ok(rv) => r matches Ok(s) && s@ == text_of(rv),
            Err(status) => r == Err::<String, u32>(status),
        },
{
    match read_property(raw) {
        Ok(value) => Ok(text_or_empty(value)),
        Err(status) => Err(status),
    }
}

/// The text of a property value that is expected to be textual; any
/// other variant reads as the empty string.
pub fn text_or_empty(value: PropertyValue) -> (r: String)
    ensures
        match value {
            PropertyValue::Text(s) => r@ == s@,
            _ => r@ == Seq::<char>::empty(),
        },
{
    match value {
        PropertyValue::Text(s) => s,
        _ => String::new(),
    }
}

} // verus!
