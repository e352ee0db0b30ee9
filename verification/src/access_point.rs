//! Access points as NetworkManager reports them.
use vstd::prelude::*;
use crate::text::{decode_utf8_lossy, utf8_lossy};
use crate::types::{security_from_flags, SecurityType};

verus! {

/// The properties of one access point that the network list is built from.
#[derive(Clone, Debug)]
pub struct AccessPointInfo {
    pub ssid: String,
    pub bssid: String,
    pub strength: u8,
    pub frequency: u32,
    pub security: SecurityType,
}

/// An access point with its text fields taken as character sequences.
pub struct AccessPointView {
    pub ssid: Seq<char>,
    pub bssid: Seq<char>,
    pub strength: u8,
    pub frequency: u32,
    pub security: SecurityType,
}

impl View for AccessPointInfo {
    type V = AccessPointView;

    open spec fn view(&self) -> AccessPointView {
        AccessPointView {
            ssid: self.ssid@,
            bssid: self.bssid@,
            strength: self.strength,
            frequency: self.frequency,
            security: self.security,
        }
    }
}

impl AccessPointInfo {
    /// Builds the description of an access point from its D-Bus properties.
    /// A hidden network, whose SSID is empty, gives `None`.
    pub fn from_properties(
        ssid_bytes: &[u8],
        strength: u8,
        frequency: u32,
        flags: u32,
        wpa_flags: u32,
        rsn_flags: u32,
        bssid: String,
    ) -> (r: Option<AccessPointInfo>)
        ensures
            r is None <==> ssid_bytes@.len() == 0,
            r is None <==> utf8_lossy(ssid_bytes@).len() == 0,
            r matches Some(info) ==> info@ == (AccessPointView {
                ssid: utf8_lossy(ssid_bytes@),
                bssid: bssid@,
                strength,
                frequency,
                security: security_from_flags(flags, wpa_flags, rsn_flags),
            }),
    {
        let ssid = decode_utf8_lossy(ssid_bytes);
        if ssid.as_str().is_empty() {
            return None;
        }
        let security = SecurityType::from_ap_flags(flags, wpa_flags, rsn_flags);
        Some(AccessPointInfo { ssid, bssid, strength, frequency, security })
    }
}

} // verus!
