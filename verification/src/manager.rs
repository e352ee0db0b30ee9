//! Decisions of the NetworkManager client that do not depend on D-Bus itself.
use vstd::prelude::*;
use crate::error::NmError;
use crate::text::{contains_chars, str_contains};

verus! {

/// The `DeviceType` of a WiFi device (`NM_DEVICE_TYPE_WIFI`).
pub const NM_DEVICE_TYPE_WIFI: u32 = 2;

/// Whether a device's `DeviceType` is that of a WiFi device.
pub fn is_wifi_device(device_type: u32) -> (r: bool)
    ensures
        r == (device_type == NM_DEVICE_TYPE_WIFI),
{
    device_type == NM_DEVICE_TYPE_WIFI
}

/// Whether a failed `RequestScan` only means that a scan is already under
/// way: its D-Bus error name mentions "ScanningNotAllowed".
pub fn scan_refusal_is_benign(error_name: &str) -> (r: bool)
    ensures
        r == contains_chars(error_name@, "ScanningNotAllowed"@),
{
    str_contains(error_name, "ScanningNotAllowed")
}

/// The active connection to deactivate: an error when there is none.
pub fn disconnect_target(active_connection: Option<String>) -> (r: Result<String, NmError>)
    ensures
        match active_connection {
            Some(p) => r == Ok::<String, NmError>(p),
            None => r == Err::<String, NmError>(NmError::NoActiveConnection),
        },
{
    match active_connection {
        Some(path) => Ok(path),
        None => Err(NmError::NoActiveConnection),
    }
}

} // verus!
