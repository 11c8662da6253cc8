use vstd::prelude::*;

use crate::error::DeviceError;
use crate::text::owned;

verus! {

/// The shape of a value read from the device's control channel, as far as
/// the core needs to tell shapes apart.
#[derive(Debug, Clone)]
pub enum PropertyValue {
    /// A string value (`DeviceName`, `ProductVersion`).
    Text(String),
    /// An unsigned integer value (`UniqueChipID`).
    Unsigned(u64),
    /// Any other shape.
    Other,
}

/// Reads `value` as a string; any other shape is protocol drift, reported
/// as `UnexpectedValueType` naming `key`.
pub fn expect_string(key: &str, value: PropertyValue) -> (r: Result<String, DeviceError>)
    ensures
        match value {
            PropertyValue::Text(s) => r == Ok::<String, DeviceError>(s),
            _ => r matches Err(DeviceError::UnexpectedValueType(k)) && k@ == key@,
        },
{
    match value {
        PropertyValue::Text(s) => Ok(s),
        _ => Err(DeviceError::UnexpectedValueType(owned(key))),
    }
}

/// Reads `value` as an unsigned integer; any other shape is reported as
/// `UnexpectedValueType` naming `key`.
pub fn expect_unsigned(key: &str, value: PropertyValue) -> (r: Result<u64, DeviceError>)
    ensures
        match value {
            PropertyValue::Unsigned(n) => r == Ok::<u64, DeviceError>(n),
            _ => r matches Err(DeviceError::UnexpectedValueType(k)) && k@ == key@,
        },
{
    match value {
        PropertyValue::Unsigned(n) => Ok(n),
        _ => Err(DeviceError::UnexpectedValueType(owned(key))),
    }
}

} // verus!
