//! Errors of the NetworkManager client.
use vstd::prelude::*;

verus! {

/// An error of a NetworkManager operation. Errors that come from the D-Bus
/// libraries keep the text that those libraries give them.
#[derive(Clone, Debug)]
pub enum NmError {
    Dbus(String),
    Fdo(String),
    NoWifiDevice,
    WifiDisabled,
    ConnectionFailed(String),
    NoActiveConnection,
    AccessPointNotFound(String),
    InvalidSsid,
    Property(String),
    AuthenticationFailed,
    ZVariant(String),
}

/// The message of an error.
pub open spec fn error_message(e: NmError) -> Seq<char> {
    match e {
        NmError::Dbus(s) => "D-Bus error: "@ + s@,
        NmError::Fdo(s) => "D-Bus fdo error: "@ + s@,
        NmError::NoWifiDevice => "No WiFi device found"@,
        NmError::WifiDisabled => "WiFi is disabled"@,
        NmError::ConnectionFailed(s) => "Connection failed: "@ + s@,
        NmError::NoActiveConnection => "No active connection"@,
        NmError::AccessPointNotFound(s) => "Access point not found: "@ + s@,
        NmError::InvalidSsid => "Invalid SSID encoding"@,
        NmError::Property(s) => "Property error: "@ + s@,
        NmError::AuthenticationFailed => "Authentication failed"@,
        NmError::ZVariant(s) => "ZVariant error: "@ + s@,
    }
}

impl NmError {
    /// The message of this error.
    pub fn to_string(&self) -> (r: String)
        ensures
            r@ == error_message(*self),
    {
        match self {
            NmError::Dbus(s) => String::from_str("D-Bus error: ").concat(s.as_str()),
            NmError::Fdo(s) => String::from_str("D-Bus fdo error: ").concat(s.as_str()),
            NmError::NoWifiDevice => String::from_str("No WiFi device found"),
            NmError::WifiDisabled => String::from_str("WiFi is disabled"),
            NmError::ConnectionFailed(s) => String::from_str("Connection failed: ").concat(
                s.as_str(),
            ),
            NmError::NoActiveConnection => String::from_str("No active connection"),
            NmError::AccessPointNotFound(s) => String::from_str("Access point not found: ").concat(
                s.as_str(),
            ),
            NmError::InvalidSsid => String::from_str("Invalid SSID encoding"),
            NmError::Property(s) => String::from_str("Property error: ").concat(s.as_str()),
            NmError::AuthenticationFailed => String::from_str("Authentication failed"),
            NmError::ZVariant(s) => String::from_str("ZVariant error: ").concat(s.as_str()),
        }
    }
}

} // verus!
