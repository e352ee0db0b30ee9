//! The connection settings sent to NetworkManager to join a new network.
use vstd::prelude::*;
use vstd::string::StringSliceAdditionalSpecFns;
use crate::types::SecurityType;

verus! {

/// The value of one setting: text, or a byte string.
#[derive(Clone, Debug)]
pub enum SettingValue {
    Text(String),
    Bytes(Vec<u8>),
}

/// One key of one section of the settings (`a{sa{sv}}` on D-Bus).
#[derive(Clone, Debug)]
pub struct Setting {
    pub section: String,
    pub key: String,
    pub value: SettingValue,
}

/// A setting value as text or bytes.
pub enum ValueView {
    Text(Seq<char>),
    Bytes(Seq<u8>),
}

/// A setting as text.
pub struct SettingView {
    pub section: Seq<char>,
    pub key: Seq<char>,
    pub value: ValueView,
}

impl View for Setting {
    type V = SettingView;

    open spec fn view(&self) -> SettingView {
        SettingView {
            section: self.section@,
            key: self.key@,
            value: match self.value {
                SettingValue::Text(s) => ValueView::Text(s@),
                SettingValue::Bytes(b) => ValueView::Bytes(b@),
            },
        }
    }
}

/// The settings of a vector, as text.
pub open spec fn setting_views(s: Seq<Setting>) -> Seq<SettingView> {
    s.map_values(|x: Setting| x@)
}

/// A text setting.
pub open spec fn text_setting(section: Seq<char>, key: Seq<char>, value: Seq<char>) -> SettingView {
    SettingView { section, key, value: ValueView::Text(value) }
}

/// The wireless-security section for a scheme: WPA and WPA2 use a pre-shared
/// key, WPA3 uses SAE, WEP puts the password in the first WEP key; other
/// schemes send no such section.
pub open spec fn security_settings(security: SecurityType, password: Seq<char>) -> Seq<SettingView> {
    let sec = "802-11-wireless-security"@;
    match security {
        SecurityType::Wpa | SecurityType::Wpa2 => seq![
            text_setting(sec, "key-mgmt"@, "wpa-psk"@),
            text_setting(sec, "psk"@, password),
        ],
        SecurityType::Wpa3 => seq![
            text_setting(sec, "key-mgmt"@, "sae"@),
            text_setting(sec, "psk"@, password),
        ],
        SecurityType::Wep => seq![
            text_setting(sec, "key-mgmt"@, "none"@),
            text_setting(sec, "wep-key0"@, password),
        ],
        _ => seq![],
    }
}

/// The settings of a new infrastructure WiFi connection to `ssid`, named
/// after it, with automatic IPv4 and IPv6 configuration.
pub open spec fn connection_settings_of(
    ssid: Seq<char>,
    ssid_bytes: Seq<u8>,
    password: Seq<char>,
    security: SecurityType,
) -> Seq<SettingView> {
    seq![
        text_setting("connection"@, "type"@, "802-11-wireless"@),
        text_setting("connection"@, "id"@, ssid),
        SettingView { section: "802-11-wireless"@, key: "ssid"@, value: ValueView::Bytes(ssid_bytes) },
        text_setting("802-11-wireless"@, "mode"@, "infrastructure"@),
    ] + security_settings(security, password) + seq![
        text_setting("ipv4"@, "method"@, "auto"@),
        text_setting("ipv6"@, "method"@, "auto"@),
    ]
}

fn text(section: &str, key: &str, value: &str) -> (r: Setting)
    ensures
        r@ == text_setting(section@, key@, value@),
{
    Setting {
        section: String::from_str(section),
        key: String::from_str(key),
        value: SettingValue::Text(String::from_str(value)),
    }
}

/// The settings for `AddAndActivateConnection` that join `ssid` with `password`.
pub fn connection_settings(ssid: &str, password: &str, security: SecurityType) -> (r: Vec<Setting>)
    ensures
        setting_views(r@) == connection_settings_of(ssid@, ssid.spec_bytes(), password@, security),
{
    let mut r: Vec<Setting> = Vec::new();
    r.push(text("connection", "type", "802-11-wireless"));
    r.push(text("connection", "id", ssid));
    let bytes = vstd::slice::slice_to_vec(ssid.as_bytes());
    r.push(
        Setting {
            section: String::from_str("802-11-wireless"),
            key: String::from_str("ssid"),
            value: SettingValue::Bytes(bytes),
        },
    );
    r.push(text("802-11-wireless", "mode", "infrastructure"));
    let ghost head = setting_views(r@);
    match security {
        SecurityType::Wpa | SecurityType::Wpa2 => {
            r.push(text("802-11-wireless-security", "key-mgmt", "wpa-psk"));
            r.push(text("802-11-wireless-security", "psk", password));
        },
        SecurityType::Wpa3 => {
            r.push(text("802-11-wireless-security", "key-mgmt", "sae"));
            r.push(text("802-11-wireless-security", "psk", password));
        },
        SecurityType::Wep => {
            r.push(text("802-11-wireless-security", "key-mgmt", "none"));
            r.push(text("802-11-wireless-security", "wep-key0", password));
        },
        _ => {},
    }
    assert(setting_views(r@) =~= head + security_settings(security, password@));
    r.push(text("ipv4", "method", "auto"));
    r.push(text("ipv6", "method", "auto"));
    assert(setting_views(r@) =~= connection_settings_of(
        ssid@,
        ssid.spec_bytes(),
        password@,
        security,
    ));
    r
}

} // verus!
