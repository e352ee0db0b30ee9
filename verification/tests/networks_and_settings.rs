use wifitui::access_point::AccessPointInfo;
use wifitui::adapter::AdapterInfo;
use wifitui::networks::{build_network_list, merge_access_points, sort_networks, ScannedAccessPoint, WifiNetwork};
use wifitui::saved::SavedConnections;
use wifitui::settings::{connection_settings, Setting, SettingValue};
use wifitui::types::{ConnectionStatus, SecurityType, AP_SEC_KEY_MGMT_PSK};

fn ap(path: &str, ssid: &str, strength: u8) -> ScannedAccessPoint {
    ScannedAccessPoint {
        path: path.to_string(),
        info: AccessPointInfo {
            ssid: ssid.to_string(),
            bssid: format!("00:11:22:33:44:{:02x}", strength),
            strength,
            frequency: 2412,
            security: SecurityType::Wpa2,
        },
    }
}

fn net(ssid: &str, strength: u8, status: ConnectionStatus) -> WifiNetwork {
    WifiNetwork {
        ssid: ssid.to_string(),
        bssid: String::new(),
        signal_strength: strength,
        frequency: 2412,
        security: SecurityType::Open,
        status,
        ap_path: format!("/ap/{}", ssid),
        saved_connection_path: None,
    }
}

#[test]
fn access_point_from_properties() {
    let info = AccessPointInfo::from_properties(b"home", 70, 5180, 0, 0, AP_SEC_KEY_MGMT_PSK, "AA:BB".to_string())
        .unwrap();
    assert_eq!(info.ssid, "home");
    assert_eq!(info.bssid, "AA:BB");
    assert_eq!(info.strength, 70);
    assert_eq!(info.frequency, 5180);
    assert_eq!(info.security, SecurityType::Wpa2);
}

#[test]
fn hidden_access_point_is_skipped() {
    assert!(AccessPointInfo::from_properties(b"", 70, 5180, 0, 0, 0, String::new()).is_none());
}

#[test]
fn ssid_bytes_are_decoded_lossily() {
    let info = AccessPointInfo::from_properties("café".as_bytes(), 1, 1, 0, 0, 0, String::new()).unwrap();
    assert_eq!(info.ssid, "café");
    let info = AccessPointInfo::from_properties(&[b'a', 0xff, b'b'], 1, 1, 0, 0, 0, String::new()).unwrap();
    assert_eq!(info.ssid, "a\u{FFFD}b");
}

#[test]
fn saved_connections_keep_last_profile_per_ssid() {
    let mut saved = SavedConnections::new();
    assert_eq!(saved.get(&"home".to_string()), None);
    saved.insert("home".to_string(), "/s/1".to_string());
    saved.insert("work".to_string(), "/s/2".to_string());
    saved.insert("home".to_string(), "/s/3".to_string());
    assert_eq!(saved.get(&"home".to_string()), Some("/s/3".to_string()));
    assert_eq!(saved.get(&"work".to_string()), Some("/s/2".to_string()));
    assert_eq!(saved.get(&"cafe".to_string()), None);
}

#[test]
fn saved_profiles_are_filtered() {
    let mut saved = SavedConnections::new();
    saved.record_profile(Some("802-3-ethernet".to_string()), Some(b"wired".to_vec()), "/s/1".to_string());
    saved.record_profile(Some("802-11-wireless".to_string()), None, "/s/2".to_string());
    saved.record_profile(Some("802-11-wireless".to_string()), Some(Vec::new()), "/s/3".to_string());
    saved.record_profile(None, Some(b"typeless".to_vec()), "/s/4".to_string());
    saved.record_profile(Some("802-11-wireless".to_string()), Some(b"home".to_vec()), "/s/5".to_string());
    assert_eq!(saved.get(&"wired".to_string()), None);
    assert_eq!(saved.get(&"typeless".to_string()), Some("/s/4".to_string()));
    assert_eq!(saved.get(&"home".to_string()), Some("/s/5".to_string()));
    assert_eq!(saved.get(&String::new()), None);
}

#[test]
fn merge_keeps_one_row_per_ssid_with_strongest_signal() {
    let aps = vec![ap("/ap/1", "home", 40), ap("/ap/2", "cafe", 60), ap("/ap/3", "home", 80), ap("/ap/4", "home", 50)];
    let nets = merge_access_points(&aps, &None, &SavedConnections::new());
    assert_eq!(nets.len(), 2);
    assert_eq!(nets[0].ssid, "home");
    assert_eq!(nets[0].signal_strength, 80);
    assert_eq!(nets[0].ap_path, "/ap/3");
    assert_eq!(nets[1].ssid, "cafe");
    assert_eq!(nets[1].status, ConnectionStatus::Disconnected);
}

#[test]
fn merge_keeps_the_connected_access_point() {
    let aps = vec![ap("/ap/1", "home", 40), ap("/ap/2", "home", 90)];
    let nets = merge_access_points(&aps, &Some("/ap/1".to_string()), &SavedConnections::new());
    assert_eq!(nets.len(), 1);
    assert_eq!(nets[0].status, ConnectionStatus::Connected);
    assert_eq!(nets[0].signal_strength, 40);
    // a weaker active access point that comes later does not take the row
    let aps = vec![ap("/ap/1", "home", 80), ap("/ap/2", "home", 50)];
    let nets = merge_access_points(&aps, &Some("/ap/2".to_string()), &SavedConnections::new());
    assert_eq!(nets[0].status, ConnectionStatus::Disconnected);
    assert_eq!(nets[0].ap_path, "/ap/1");
}

#[test]
fn merge_marks_saved_networks_known() {
    let mut saved = SavedConnections::new();
    saved.insert("home".to_string(), "/s/9".to_string());
    let nets = merge_access_points(&vec![ap("/ap/1", "home", 40)], &None, &saved);
    assert_eq!(nets[0].status, ConnectionStatus::Known);
    assert_eq!(nets[0].saved_connection_path, Some("/s/9".to_string()));
}

#[test]
fn sort_orders_by_status_then_signal_and_is_stable() {
    let v = vec![
        net("a", 30, ConnectionStatus::Disconnected),
        net("b", 90, ConnectionStatus::Disconnected),
        net("c", 10, ConnectionStatus::Known),
        net("d", 20, ConnectionStatus::Connected),
        net("e", 30, ConnectionStatus::Disconnected),
        net("f", 50, ConnectionStatus::Connecting),
    ];
    let sorted = sort_networks(v);
    let order: Vec<&str> = sorted.iter().map(|n| n.ssid.as_str()).collect();
    assert_eq!(order, vec!["d", "f", "c", "b", "a", "e"]);
}

#[test]
fn sort_of_empty_list() {
    assert!(sort_networks(Vec::new()).is_empty());
}

#[test]
fn network_list_end_to_end() {
    let mut saved = SavedConnections::new();
    saved.insert("work".to_string(), "/s/1".to_string());
    let aps = vec![
        ap("/ap/1", "guest", 90),
        ap("/ap/2", "work", 20),
        ap("/ap/3", "home", 35),
        ap("/ap/4", "guest", 95),
    ];
    let list = build_network_list(&aps, &Some("/ap/3".to_string()), &saved);
    let order: Vec<(&str, u8)> = list.iter().map(|n| (n.ssid.as_str(), n.signal_strength)).collect();
    assert_eq!(order, vec![("home", 35), ("work", 20), ("guest", 95)]);
}

fn text(s: &Setting) -> (String, String, String) {
    let v = match &s.value {
        SettingValue::Text(t) => t.clone(),
        SettingValue::Bytes(b) => format!("{:?}", b),
    };
    (s.section.clone(), s.key.clone(), v)
}

#[test]
fn settings_for_wpa2() {
    let s: Vec<_> = connection_settings("home", "secret", SecurityType::Wpa2).iter().map(text).collect();
    let expected = vec![
        ("connection", "type", "802-11-wireless"),
        ("connection", "id", "home"),
        ("802-11-wireless", "ssid", "[104, 111, 109, 101]"),
        ("802-11-wireless", "mode", "infrastructure"),
        ("802-11-wireless-security", "key-mgmt", "wpa-psk"),
        ("802-11-wireless-security", "psk", "secret"),
        ("ipv4", "method", "auto"),
        ("ipv6", "method", "auto"),
    ];
    let expected: Vec<(String, String, String)> =
        expected.into_iter().map(|(a, b, c)| (a.to_string(), b.to_string(), c.to_string())).collect();
    assert_eq!(s, expected);
}

#[test]
fn settings_per_security_scheme() {
    let key = |sec: SecurityType| -> Vec<(String, String)> {
        connection_settings("n", "pw", sec)
            .iter()
            .map(text)
            .filter(|(sect, _, _)| sect == "802-11-wireless-security")
            .map(|(_, k, v)| (k, v))
            .collect()
    };
    let pair = |a: &str, b: &str| (a.to_string(), b.to_string());
    assert_eq!(key(SecurityType::Wpa), vec![pair("key-mgmt", "wpa-psk"), pair("psk", "pw")]);
    assert_eq!(key(SecurityType::Wpa3), vec![pair("key-mgmt", "sae"), pair("psk", "pw")]);
    assert_eq!(key(SecurityType::Wep), vec![pair("key-mgmt", "none"), pair("wep-key0", "pw")]);
    assert!(key(SecurityType::Open).is_empty());
    assert!(key(SecurityType::Wpa2Enterprise).is_empty());
    assert_eq!(connection_settings("n", "", SecurityType::Open).len(), 6);
}

#[test]
fn settings_ssid_is_utf8_bytes() {
    let s = connection_settings("é", "", SecurityType::Open);
    match &s[2].value {
        SettingValue::Bytes(b) => assert_eq!(b, &vec![0xc3, 0xa9]),
        _ => panic!("ssid must be bytes"),
    }
}

#[test]
fn adapter_defaults() {
    let a = AdapterInfo::default();
    assert_eq!(a.interface, "N/A");
    assert_eq!(a.hw_address, "N/A");
    assert_eq!(a.state, "Unknown");
    assert_eq!(a.driver, "N/A");
    assert_eq!(a.ip_address, None);
    assert_eq!(a.frequency, None);
    assert_eq!(a.bitrate, None);
    assert!(!a.wifi_enabled);
}

#[test]
fn adapter_from_properties() {
    let a = AdapterInfo::from_properties(
        Some("wlan0".to_string()),
        None,
        Some(100),
        Some("iwlwifi".to_string()),
        true,
        Some("192.168.1.5".to_string()),
        Some(866700),
        Some(5180),
    );
    assert_eq!(a.interface, "wlan0");
    assert_eq!(a.hw_address, "N/A");
    assert_eq!(a.state, "Connected");
    assert_eq!(a.driver, "iwlwifi");
    assert!(a.wifi_enabled);
    assert_eq!(a.ip_address.as_deref(), Some("192.168.1.5"));
    assert_eq!(a.bitrate.as_deref(), Some("866 Mbit/s"));
    assert_eq!(a.frequency.as_deref(), Some("5180 MHz"));
}

#[test]
fn adapter_without_link() {
    let a = AdapterInfo::from_properties(None, None, None, None, false, None, Some(0), None);
    assert_eq!(a.state, "Unknown");
    assert_eq!(a.bitrate, None);
    assert_eq!(a.frequency, None);
    let a = AdapterInfo::from_properties(None, None, Some(30), None, false, None, Some(999), None);
    assert_eq!(a.state, "Disconnected");
    assert_eq!(a.bitrate.as_deref(), Some("0 Mbit/s"));
}
