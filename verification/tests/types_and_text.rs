use wifitui::config::{default_auto_refresh, default_auto_scan, default_tick_rate, AppConfig, GeneralConfig};
use wifitui::error::NmError;
use wifitui::manager::{disconnect_target, is_wifi_device, scan_refusal_is_benign};
use wifitui::text::{check_object_path, decimal_string, optional_object_path, str_contains};
use wifitui::types::{
    ConnectionStatus, NmDeviceState, SecurityType, AP_FLAG_PRIVACY, AP_SEC_KEY_MGMT_8021X,
    AP_SEC_KEY_MGMT_PSK, AP_SEC_KEY_MGMT_SAE, AP_SEC_PAIR_CCMP,
};

#[test]
fn security_from_flags_prefers_strongest_rsn() {
    let all = AP_SEC_KEY_MGMT_SAE | AP_SEC_KEY_MGMT_8021X | AP_SEC_KEY_MGMT_PSK;
    assert_eq!(SecurityType::from_ap_flags(AP_FLAG_PRIVACY, AP_SEC_KEY_MGMT_PSK, all), SecurityType::Wpa3);
    assert_eq!(
        SecurityType::from_ap_flags(0, 0, AP_SEC_KEY_MGMT_8021X | AP_SEC_KEY_MGMT_PSK),
        SecurityType::Wpa2Enterprise
    );
    assert_eq!(SecurityType::from_ap_flags(0, 0, AP_SEC_KEY_MGMT_PSK | AP_SEC_PAIR_CCMP), SecurityType::Wpa2);
}

#[test]
fn security_from_flags_falls_back_to_wpa_wep_open() {
    assert_eq!(SecurityType::from_ap_flags(0, AP_SEC_KEY_MGMT_PSK, 0), SecurityType::Wpa);
    assert_eq!(SecurityType::from_ap_flags(AP_FLAG_PRIVACY, 0, 0), SecurityType::Wep);
    assert_eq!(SecurityType::from_ap_flags(0, 0, 0), SecurityType::Open);
    // bits that name no key management do not make a network secure
    assert_eq!(SecurityType::from_ap_flags(0x2 | 0x4 | 0x8, AP_SEC_PAIR_CCMP, 0x80), SecurityType::Open);
    // flags of unknown meaning are ignored, as bitflags' truncation does
    assert_eq!(SecurityType::from_ap_flags(0xFFFF_FFF0, 0, 0), SecurityType::Open);
}

#[test]
fn only_open_networks_need_no_password() {
    assert!(!SecurityType::Open.requires_password());
    for s in [
        SecurityType::Wep,
        SecurityType::Wpa,
        SecurityType::Wpa2,
        SecurityType::Wpa3,
        SecurityType::Wpa2Enterprise,
        SecurityType::Unknown,
    ] {
        assert!(s.requires_password());
    }
}

#[test]
fn labels_of_security_and_status() {
    assert_eq!(SecurityType::Open.to_string(), "Open");
    assert_eq!(SecurityType::Wep.to_string(), "WEP");
    assert_eq!(SecurityType::Wpa.to_string(), "WPA");
    assert_eq!(SecurityType::Wpa2.to_string(), "WPA2");
    assert_eq!(SecurityType::Wpa3.to_string(), "WPA3");
    assert_eq!(SecurityType::Wpa2Enterprise.to_string(), "WPA2-EAP");
    assert_eq!(SecurityType::Unknown.to_string(), "Unknown");
    assert_eq!(ConnectionStatus::Connected.to_string(), "Connected");
    assert_eq!(ConnectionStatus::Connecting.to_string(), "Connecting");
    assert_eq!(ConnectionStatus::Disconnected.to_string(), "");
    assert_eq!(ConnectionStatus::Known.to_string(), "Saved");
}

#[test]
fn device_states_decode_and_print() {
    let cases = [
        (0, NmDeviceState::Unknown, "Unknown"),
        (10, NmDeviceState::Unmanaged, "Unmanaged"),
        (20, NmDeviceState::Unavailable, "Unavailable"),
        (30, NmDeviceState::Disconnected, "Disconnected"),
        (40, NmDeviceState::Prepare, "Preparing"),
        (50, NmDeviceState::Config, "Configuring"),
        (60, NmDeviceState::NeedAuth, "Authenticating"),
        (70, NmDeviceState::IpConfig, "Getting IP"),
        (80, NmDeviceState::IpCheck, "Checking IP"),
        (90, NmDeviceState::Secondaries, "Secondaries"),
        (100, NmDeviceState::Activated, "Connected"),
        (110, NmDeviceState::Deactivating, "Disconnecting"),
        (120, NmDeviceState::Failed, "Failed"),
    ];
    for (code, state, label) in cases {
        assert_eq!(NmDeviceState::from_u32(code), state);
        assert_eq!(state.to_string(), label);
    }
}

#[test]
fn unknown_device_state_codes() {
    for code in [1, 5, 15, 99, 121, 130, u32::MAX] {
        assert_eq!(NmDeviceState::from_u32(code), NmDeviceState::Unknown);
    }
}

#[test]
fn error_messages() {
    assert_eq!(NmError::Dbus("timeout".to_string()).to_string(), "D-Bus error: timeout");
    assert_eq!(NmError::Fdo("denied".to_string()).to_string(), "D-Bus fdo error: denied");
    assert_eq!(NmError::NoWifiDevice.to_string(), "No WiFi device found");
    assert_eq!(NmError::WifiDisabled.to_string(), "WiFi is disabled");
    assert_eq!(NmError::ConnectionFailed("x".to_string()).to_string(), "Connection failed: x");
    assert_eq!(NmError::NoActiveConnection.to_string(), "No active connection");
    assert_eq!(NmError::AccessPointNotFound("/ap/1".to_string()).to_string(), "Access point not found: /ap/1");
    assert_eq!(NmError::InvalidSsid.to_string(), "Invalid SSID encoding");
    assert_eq!(NmError::Property("bad".to_string()).to_string(), "Property error: bad");
    assert_eq!(NmError::AuthenticationFailed.to_string(), "Authentication failed");
    assert_eq!(NmError::ZVariant("sig".to_string()).to_string(), "ZVariant error: sig");
}

#[test]
fn config_defaults() {
    assert_eq!(default_tick_rate(), 250);
    assert_eq!(default_auto_scan(), 30);
    assert_eq!(default_auto_refresh(), 10);
    let g = GeneralConfig::default();
    assert_eq!((g.tick_rate, g.auto_scan_interval, g.auto_refresh_interval), (250, 30, 10));
    assert_eq!(AppConfig::default().general, g);
}

#[test]
fn config_missing_keys_take_defaults() {
    let g = GeneralConfig::from_fields(Some(100), None, Some(5));
    assert_eq!((g.tick_rate, g.auto_scan_interval, g.auto_refresh_interval), (100, 30, 5));
    let c = AppConfig::from_general(None);
    assert_eq!(c.general, GeneralConfig::default());
    let c = AppConfig::from_general(Some(g));
    assert_eq!(c.general, g);
}

#[test]
fn decimal_numbers() {
    assert_eq!(decimal_string(0), "0");
    assert_eq!(decimal_string(7), "7");
    assert_eq!(decimal_string(10), "10");
    assert_eq!(decimal_string(2412), "2412");
    assert_eq!(decimal_string(u64::MAX), u64::MAX.to_string());
}

#[test]
fn substring_search() {
    assert!(str_contains("abc", ""));
    assert!(str_contains("abc", "abc"));
    assert!(str_contains("xxabcxx", "bc"));
    assert!(!str_contains("ab", "abc"));
    assert!(!str_contains("acb", "ab"));
}

#[test]
fn object_paths() {
    assert_eq!(optional_object_path("/"), None);
    assert_eq!(
        optional_object_path("/org/freedesktop/NetworkManager/AccessPoint/3"),
        Some("/org/freedesktop/NetworkManager/AccessPoint/3".to_string())
    );
    assert_eq!(optional_object_path("//"), Some("//".to_string()));
}

#[test]
fn manager_decisions() {
    assert!(is_wifi_device(2));
    assert!(!is_wifi_device(1));
    assert!(!is_wifi_device(30));
    assert!(scan_refusal_is_benign("org.freedesktop.NetworkManager.Device.Wireless.ScanningNotAllowed"));
    assert!(!scan_refusal_is_benign("org.freedesktop.NetworkManager.PermissionDenied"));
    assert_eq!(disconnect_target(Some("/ac/1".to_string())).unwrap(), "/ac/1");
    assert!(matches!(disconnect_target(None), Err(NmError::NoActiveConnection)));
}

#[test]
fn object_paths_are_checked_before_sending() {
    assert!(check_object_path("/org/freedesktop/NetworkManager/Devices/3", "device").is_ok());
    assert!(check_object_path("/", "device").is_ok());
    assert!(check_object_path("/a_b/C9", "AP").is_ok());
    for bad in ["", "org/freedesktop", "/a/", "//", "/a//b", "/a-b", "/ä"] {
        match check_object_path(bad, "AP") {
            Err(NmError::Property(m)) => assert_eq!(m, "invalid AP path: Invalid object path"),
            other => panic!("{bad:?} gave {other:?}"),
        }
    }
    match check_object_path("x", "active connection") {
        Err(NmError::Property(m)) => assert_eq!(m, "invalid active connection path: Invalid object path"),
        other => panic!("unexpected {other:?}"),
    }
}
