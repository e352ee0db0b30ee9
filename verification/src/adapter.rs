//! What the adapter panel shows about the WiFi device.
use vstd::prelude::*;
use crate::text::{decimal, decimal_string, opt_text};
use crate::types::{device_state_from_code, device_state_label, NmDeviceState};

verus! {

/// The properties of the WiFi device shown in the adapter panel.
#[derive(Clone, Debug)]
pub struct AdapterInfo {
    pub interface: String,
    pub hw_address: String,
    pub state: String,
    pub ip_address: Option<String>,
    pub frequency: Option<String>,
    pub driver: String,
    pub bitrate: Option<String>,
    pub wifi_enabled: bool,
}

/// The adapter information as text.
pub struct AdapterView {
    pub interface: Seq<char>,
    pub hw_address: Seq<char>,
    pub state: Seq<char>,
    pub ip_address: Option<Seq<char>>,
    pub frequency: Option<Seq<char>>,
    pub driver: Seq<char>,
    pub bitrate: Option<Seq<char>>,
    pub wifi_enabled: bool,
}

impl View for AdapterInfo {
    type V = AdapterView;

    open spec fn view(&self) -> AdapterView {
        AdapterView {
            interface: self.interface@,
            hw_address: self.hw_address@,
            state: self.state@,
            ip_address: opt_text(self.ip_address),
            frequency: opt_text(self.frequency),
            driver: self.driver@,
            bitrate: opt_text(self.bitrate),
            wifi_enabled: self.wifi_enabled,
        }
    }
}

/// The adapter panel before NetworkManager has been asked.
pub open spec fn default_adapter() -> AdapterView {
    AdapterView {
        interface: "N/A"@,
        hw_address: "N/A"@,
        state: "Unknown"@,
        ip_address: None,
        frequency: None,
        driver: "N/A"@,
        bitrate: None,
        wifi_enabled: false,
    }
}

/// A text property, or "N/A" when it could not be read.
pub open spec fn text_or_na(o: Option<Seq<char>>) -> Seq<char> {
    match o {
        Some(s) => s,
        None => "N/A"@,
    }
}

/// The bit rate as shown: the `Bitrate` property is in kbit/s; zero means no link.
pub open spec fn bitrate_label(kbits: Option<u32>) -> Option<Seq<char>> {
    match kbits {
        Some(b) => if b > 0 {
            Some(decimal((b / 1000) as nat) + " Mbit/s"@)
        } else {
            None
        },
        None => None,
    }
}

/// The frequency of the active access point as shown.
pub open spec fn frequency_label(mhz: Option<u32>) -> Option<Seq<char>> {
    match mhz {
        Some(f) => Some(decimal(f as nat) + " MHz"@),
        None => None,
    }
}

impl Default for AdapterInfo {
    fn default() -> (r: AdapterInfo)
        ensures
            r@ == default_adapter(),
    {
        AdapterInfo {
            interface: String::from_str("N/A"),
            hw_address: String::from_str("N/A"),
            state: String::from_str("Unknown"),
            ip_address: None,
            frequency: None,
            driver: String::from_str("N/A"),
            bitrate: None,
            wifi_enabled: false,
        }
    }
}

fn or_na(o: Option<String>) -> (r: String)
    ensures
        r@ == text_or_na(opt_text(o)),
{
    match o {
        Some(s) => s,
        None => String::from_str("N/A"),
    }
}

impl AdapterInfo {
    /// Builds the adapter panel from the device's properties; each `None` is a
    /// property that could not be read. An unreadable `State` counts as 0.
    pub fn from_properties(
        interface: Option<String>,
        hw_address: Option<String>,
        state: Option<u32>,
        driver: Option<String>,
        wifi_enabled: bool,
        ip_address: Option<String>,
        bitrate_kbits: Option<u32>,
        active_frequency: Option<u32>,
    ) -> (r: AdapterInfo)
        ensures
            r@ == (AdapterView {
                interface: text_or_na(opt_text(interface)),
                hw_address: text_or_na(opt_text(hw_address)),
                state: device_state_label(
                    device_state_from_code(
                        match state {
                            Some(v) => v,
                            None => 0,
                        },
                    ),
                ),
                ip_address: opt_text(ip_address),
                frequency: frequency_label(active_frequency),
                driver: text_or_na(opt_text(driver)),
                bitrate: bitrate_label(bitrate_kbits),
                wifi_enabled,
            }),
    {
        let code = match state {
            Some(v) => v,
            None => 0,
        };
        let state_text = NmDeviceState::from_u32(code).to_string();
        let bitrate = match bitrate_kbits {
            Some(b) => if b > 0 {
                Some(decimal_string((b / 1000) as u64).concat(" Mbit/s"))
            } else {
                None
            },
            None => None,
        };
        let frequency = match active_frequency {
            Some(f) => Some(decimal_string(f as u64).concat(" MHz")),
            None => None,
        };
        AdapterInfo {
            interface: or_na(interface),
            hw_address: or_na(hw_address),
            state: state_text,
            ip_address,
            frequency,
            driver: or_na(driver),
            bitrate,
            wifi_enabled,
        }
    }
}

} // verus!
