//! Security types, connection states and device states reported by NetworkManager.
use vstd::prelude::*;

verus! {

/// `NM_802_11_AP_FLAGS_PRIVACY`: the access point requires encryption (WEP or better).
pub const AP_FLAG_PRIVACY: u32 = 0x1;

/// `NM_802_11_AP_FLAGS_WPS`: the access point supports WPS.
pub const AP_FLAG_WPS: u32 = 0x2;

/// `NM_802_11_AP_FLAGS_WPS_PBC`: WPS push-button mode.
pub const AP_FLAG_WPS_PBC: u32 = 0x4;

/// `NM_802_11_AP_FLAGS_WPS_PIN`: WPS PIN mode.
pub const AP_FLAG_WPS_PIN: u32 = 0x8;

/// Security flag: 40-bit WEP pairwise cipher.
pub const AP_SEC_PAIR_WEP40: u32 = 0x001;

/// Security flag: 104-bit WEP pairwise cipher.
pub const AP_SEC_PAIR_WEP104: u32 = 0x002;

/// Security flag: TKIP pairwise cipher.
pub const AP_SEC_PAIR_TKIP: u32 = 0x004;

/// Security flag: CCMP pairwise cipher.
pub const AP_SEC_PAIR_CCMP: u32 = 0x008;

/// Security flag: 40-bit WEP group cipher.
pub const AP_SEC_GROUP_WEP40: u32 = 0x010;

/// Security flag: 104-bit WEP group cipher.
pub const AP_SEC_GROUP_WEP104: u32 = 0x020;

/// Security flag: TKIP group cipher.
pub const AP_SEC_GROUP_TKIP: u32 = 0x040;

/// Security flag: CCMP group cipher.
pub const AP_SEC_GROUP_CCMP: u32 = 0x080;

/// Security flag: pre-shared key authentication.
pub const AP_SEC_KEY_MGMT_PSK: u32 = 0x100;

/// Security flag: 802.1x (enterprise) authentication.
pub const AP_SEC_KEY_MGMT_8021X: u32 = 0x200;

/// Security flag: SAE (WPA3) authentication.
pub const AP_SEC_KEY_MGMT_SAE: u32 = 0x400;

/// `bits` has every bit of `flag` set.
pub open spec fn has_flag(bits: u32, flag: u32) -> bool {
    bits & flag == flag
}

/// The security scheme advertised by an access point.
#[derive(Clone, Copy, Debug, PartialEq, Eq, Structural)]
pub enum SecurityType {
    Open,
    Wep,
    Wpa,
    Wpa2,
    Wpa3,
    Wpa2Enterprise,
    Unknown,
}

/// The security scheme that the three flag words of an access point announce:
/// the strongest RSN key management first, then WPA, then the privacy bit.
pub open spec fn security_from_flags(flags: u32, wpa_flags: u32, rsn_flags: u32) -> SecurityType {
    if has_flag(rsn_flags, AP_SEC_KEY_MGMT_SAE) {
        SecurityType::Wpa3
    } else if has_flag(rsn_flags, AP_SEC_KEY_MGMT_8021X) {
        SecurityType::Wpa2Enterprise
    } else if has_flag(rsn_flags, AP_SEC_KEY_MGMT_PSK) {
        SecurityType::Wpa2
    } else if has_flag(wpa_flags, AP_SEC_KEY_MGMT_PSK) {
        SecurityType::Wpa
    } else if has_flag(flags, AP_FLAG_PRIVACY) {
        SecurityType::Wep
    } else {
        SecurityType::Open
    }
}

/// The text shown for a security scheme.
pub open spec fn security_label(s: SecurityType) -> Seq<char> {
    match s {
        SecurityType::Open => "Open"@,
        SecurityType::Wep => "WEP"@,
        SecurityType::Wpa => "WPA"@,
        SecurityType::Wpa2 => "WPA2"@,
        SecurityType::Wpa3 => "WPA3"@,
        SecurityType::Wpa2Enterprise => "WPA2-EAP"@,
        SecurityType::Unknown => "Unknown"@,
    }
}

impl SecurityType {
    /// Classifies an access point from its `Flags`, `WpaFlags` and `RsnFlags` properties.
    pub fn from_ap_flags(flags: u32, wpa_flags: u32, rsn_flags: u32) -> (r: SecurityType)
        ensures
            r == security_from_flags(flags, wpa_flags, rsn_flags),
            r != SecurityType::Unknown,
            r == SecurityType::Open <==> !has_flag(flags, AP_FLAG_PRIVACY) && !has_flag(
                wpa_flags,
                AP_SEC_KEY_MGMT_PSK,
            ) && !has_flag(rsn_flags, AP_SEC_KEY_MGMT_PSK) && !has_flag(
                rsn_flags,
                AP_SEC_KEY_MGMT_8021X,
            ) && !has_flag(rsn_flags, AP_SEC_KEY_MGMT_SAE),
    {
        if rsn_flags & AP_SEC_KEY_MGMT_SAE == AP_SEC_KEY_MGMT_SAE {
            SecurityType::Wpa3
        } else if rsn_flags & AP_SEC_KEY_MGMT_8021X == AP_SEC_KEY_MGMT_8021X {
            SecurityType::Wpa2Enterprise
        } else if rsn_flags & AP_SEC_KEY_MGMT_PSK == AP_SEC_KEY_MGMT_PSK {
            SecurityType::Wpa2
        } else if wpa_flags & AP_SEC_KEY_MGMT_PSK == AP_SEC_KEY_MGMT_PSK {
            SecurityType::Wpa
        } else if flags & AP_FLAG_PRIVACY == AP_FLAG_PRIVACY {
            SecurityType::Wep
        } else {
            SecurityType::Open
        }
    }

    /// Every scheme but `Open` asks for a password.
    pub fn requires_password(&self) -> (r: bool)
        ensures
            r == (*self != SecurityType::Open),
    {
        match self {
            SecurityType::Open => false,
            _ => true,
        }
    }

    /// The text shown for this scheme.
    pub fn to_string(&self) -> (r: String)
        ensures
            r@ == security_label(*self),
    {
        match self {
            SecurityType::Open => String::from_str("Open"),
            SecurityType::Wep => String::from_str("WEP"),
            SecurityType::Wpa => String::from_str("WPA"),
            SecurityType::Wpa2 => String::from_str("WPA2"),
            SecurityType::Wpa3 => String::from_str("WPA3"),
            SecurityType::Wpa2Enterprise => String::from_str("WPA2-EAP"),
            SecurityType::Unknown => String::from_str("Unknown"),
        }
    }
}

/// How a network relates to this machine.
#[derive(Clone, Copy, Debug, PartialEq, Eq, Structural)]
pub enum ConnectionStatus {
    Connected,
    Connecting,
    Disconnected,
    Known,
}

/// The text shown for a connection status; a network that is neither active nor saved shows nothing.
pub open spec fn status_label(s: ConnectionStatus) -> Seq<char> {
    match s {
        ConnectionStatus::Connected => "Connected"@,
        ConnectionStatus::Connecting => "Connecting"@,
        ConnectionStatus::Disconnected => ""@,
        ConnectionStatus::Known => "Saved"@,
    }
}

impl ConnectionStatus {
    /// The text shown for this status.
    pub fn to_string(&self) -> (r: String)
        ensures
            r@ == status_label(*self),
    {
        match self {
            ConnectionStatus::Connected => String::from_str("Connected"),
            ConnectionStatus::Connecting => String::from_str("Connecting"),
            ConnectionStatus::Disconnected => String::from_str(""),
            ConnectionStatus::Known => String::from_str("Saved"),
        }
    }
}

/// The `State` property of a NetworkManager device.
#[derive(Clone, Copy, Debug, PartialEq, Eq, Structural)]
pub enum NmDeviceState {
    Unknown,
    Unmanaged,
    Unavailable,
    Disconnected,
    Prepare,
    Config,
    NeedAuth,
    IpConfig,
    IpCheck,
    Secondaries,
    Activated,
    Deactivating,
    Failed,
}

/// The number by which NetworkManager reports each device state.
pub open spec fn device_state_code(s: NmDeviceState) -> u32 {
    match s {
        NmDeviceState::Unknown => 0,
        NmDeviceState::Unmanaged => 10,
        NmDeviceState::Unavailable => 20,
        NmDeviceState::Disconnected => 30,
        NmDeviceState::Prepare => 40,
        NmDeviceState::Config => 50,
        NmDeviceState::NeedAuth => 60,
        NmDeviceState::IpConfig => 70,
        NmDeviceState::IpCheck => 80,
        NmDeviceState::Secondaries => 90,
        NmDeviceState::Activated => 100,
        NmDeviceState::Deactivating => 110,
        NmDeviceState::Failed => 120,
    }
}

/// The state that NetworkManager reports by a number; a number that names no state is `Unknown`.
pub open spec fn device_state_from_code(val: u32) -> NmDeviceState {
    if val == 10 {
        NmDeviceState::Unmanaged
    } else if val == 20 {
        NmDeviceState::Unavailable
    } else if val == 30 {
        NmDeviceState::Disconnected
    } else if val == 40 {
        NmDeviceState::Prepare
    } else if val == 50 {
        NmDeviceState::Config
    } else if val == 60 {
        NmDeviceState::NeedAuth
    } else if val == 70 {
        NmDeviceState::IpConfig
    } else if val == 80 {
        NmDeviceState::IpCheck
    } else if val == 90 {
        NmDeviceState::Secondaries
    } else if val == 100 {
        NmDeviceState::Activated
    } else if val == 110 {
        NmDeviceState::Deactivating
    } else if val == 120 {
        NmDeviceState::Failed
    } else {
        NmDeviceState::Unknown
    }
}

/// The text shown for a device state.
pub open spec fn device_state_label(s: NmDeviceState) -> Seq<char> {
    match s {
        NmDeviceState::Activated => "Connected"@,
        NmDeviceState::Disconnected => "Disconnected"@,
        NmDeviceState::Unavailable => "Unavailable"@,
        NmDeviceState::Unmanaged => "Unmanaged"@,
        NmDeviceState::Prepare => "Preparing"@,
        NmDeviceState::Config => "Configuring"@,
        NmDeviceState::NeedAuth => "Authenticating"@,
        NmDeviceState::IpConfig => "Getting IP"@,
        NmDeviceState::IpCheck => "Checking IP"@,
        NmDeviceState::Secondaries => "Secondaries"@,
        NmDeviceState::Deactivating => "Disconnecting"@,
        NmDeviceState::Failed => "Failed"@,
        NmDeviceState::Unknown => "Unknown"@,
    }
}

impl NmDeviceState {
    /// Decodes a reported state; a number that names no state is `Unknown`.
    pub fn from_u32(val: u32) -> (r: NmDeviceState)
        ensures
            r == device_state_from_code(val),
    {
        match val {
            0 => NmDeviceState::Unknown,
            10 => NmDeviceState::Unmanaged,
            20 => NmDeviceState::Unavailable,
            30 => NmDeviceState::Disconnected,
            40 => NmDeviceState::Prepare,
            50 => NmDeviceState::Config,
            60 => NmDeviceState::NeedAuth,
            70 => NmDeviceState::IpConfig,
            80 => NmDeviceState::IpCheck,
            90 => NmDeviceState::Secondaries,
            100 => NmDeviceState::Activated,
            110 => NmDeviceState::Deactivating,
            120 => NmDeviceState::Failed,
            _ => NmDeviceState::Unknown,
        }
    }

    /// The text shown for this state.
    pub fn to_string(&self) -> (r: String)
        ensures
            r@ == device_state_label(*self),
    {
        match self {
            NmDeviceState::Activated => String::from_str("Connected"),
            NmDeviceState::Disconnected => String::from_str("Disconnected"),
            NmDeviceState::Unavailable => String::from_str("Unavailable"),
            NmDeviceState::Unmanaged => String::from_str("Unmanaged"),
            NmDeviceState::Prepare => String::from_str("Preparing"),
            NmDeviceState::Config => String::from_str("Configuring"),
            NmDeviceState::NeedAuth => String::from_str("Authenticating"),
            NmDeviceState::IpConfig => String::from_str("Getting IP"),
            NmDeviceState::IpCheck => String::from_str("Checking IP"),
            NmDeviceState::Secondaries => String::from_str("Secondaries"),
            NmDeviceState::Deactivating => String::from_str("Disconnecting"),
            NmDeviceState::Failed => String::from_str("Failed"),
            NmDeviceState::Unknown => String::from_str("Unknown"),
        }
    }
}

/// Decoding a state's own number gives that state back, and a number that
/// decodes to a state other than `Unknown` is that state's number.
pub proof fn lemma_device_state_code_roundtrip(s: NmDeviceState, val: u32)
    ensures
        device_state_from_code(device_state_code(s)) == s,
        device_state_from_code(val) != NmDeviceState::Unknown ==> device_state_code(
            device_state_from_code(val),
        ) == val,
{
}


/// RSN key management decides before WPA: SAE gives WPA3, then 802.1X gives
/// WPA2-Enterprise, then PSK gives WPA2, whatever the WPA flags and the
/// privacy bit say. WPA is the answer exactly when the RSN flags announce
/// none of the three and the WPA flags announce PSK, and WEP exactly when
/// only the privacy bit is set among these.
pub proof fn lemma_security_precedence(flags: u32, wpa_flags: u32, rsn_flags: u32)
    ensures
        has_flag(rsn_flags, AP_SEC_KEY_MGMT_SAE) ==> security_from_flags(flags, wpa_flags, rsn_flags)
            == SecurityType::Wpa3,
        has_flag(rsn_flags, AP_SEC_KEY_MGMT_8021X) && !has_flag(rsn_flags, AP_SEC_KEY_MGMT_SAE)
            ==> security_from_flags(flags, wpa_flags, rsn_flags) == SecurityType::Wpa2Enterprise,
        has_flag(rsn_flags, AP_SEC_KEY_MGMT_PSK) && !has_flag(rsn_flags, AP_SEC_KEY_MGMT_SAE)
            && !has_flag(rsn_flags, AP_SEC_KEY_MGMT_8021X) ==> security_from_flags(
            flags,
            wpa_flags,
            rsn_flags,
        ) == SecurityType::Wpa2,
        security_from_flags(flags, wpa_flags, rsn_flags) == SecurityType::Wpa <==> (!has_flag(
            rsn_flags,
            AP_SEC_KEY_MGMT_PSK,
        ) && !has_flag(rsn_flags, AP_SEC_KEY_MGMT_8021X) && !has_flag(rsn_flags, AP_SEC_KEY_MGMT_SAE)
            && has_flag(wpa_flags, AP_SEC_KEY_MGMT_PSK)),
        security_from_flags(flags, wpa_flags, rsn_flags) == SecurityType::Wep <==> (!has_flag(
            rsn_flags,
            AP_SEC_KEY_MGMT_PSK,
        ) && !has_flag(rsn_flags, AP_SEC_KEY_MGMT_8021X) && !has_flag(rsn_flags, AP_SEC_KEY_MGMT_SAE)
            && !has_flag(wpa_flags, AP_SEC_KEY_MGMT_PSK) && has_flag(flags, AP_FLAG_PRIVACY)),
{
}

} // verus!
