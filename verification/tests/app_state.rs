use wifitui::adapter::AdapterInfo;
use wifitui::app::{App, Command, ConnectRequest, FocusedPanel, Key, KeyInput, NotifLevel};
use wifitui::error::NmError;
use wifitui::networks::WifiNetwork;
use wifitui::types::{ConnectionStatus, SecurityType};

fn net(ssid: &str, status: ConnectionStatus, security: SecurityType, saved: Option<&str>) -> WifiNetwork {
    WifiNetwork {
        ssid: ssid.to_string(),
        bssid: String::new(),
        signal_strength: 50,
        frequency: 2412,
        security,
        status,
        ap_path: format!("/ap/{}", ssid),
        saved_connection_path: saved.map(|s| s.to_string()),
    }
}

fn app_with(n: usize) -> App {
    let mut app = App::new();
    let nets = (0..n)
        .map(|i| net(&format!("n{}", i), ConnectionStatus::Disconnected, SecurityType::Open, None))
        .collect();
    app.apply_networks(nets);
    app
}

fn key(c: char) -> KeyInput {
    KeyInput { code: Key::Char(c), ctrl: false, alt: false, shift: false }
}

fn ctrl(c: char) -> KeyInput {
    KeyInput { code: Key::Char(c), ctrl: true, alt: false, shift: false }
}

fn type_text(app: &mut App, text: &str) {
    for c in text.chars() {
        assert!(matches!(app.handle_key_event(key(c)), Command::Nothing));
    }
}

fn code(code: Key) -> KeyInput {
    KeyInput { code, ctrl: false, alt: false, shift: false }
}

fn last_message(app: &App) -> (String, NotifLevel) {
    let n = app.notifications.last().unwrap();
    (n.message.clone(), n.level)
}

#[test]
fn new_app_state() {
    let app = App::new();
    assert!(app.running);
    assert!(app.networks.is_empty());
    assert_eq!(app.selected, Some(0));
    assert_eq!(app.focused_panel, FocusedPanel::Networks);
    assert!(!app.is_scanning);
    assert!(!app.password_modal.visible);
    assert!(app.notifications.is_empty());
    assert_eq!(app.adapter_info.state, "Unknown");
}

#[test]
fn selection_moves_and_stops_at_ends() {
    let mut app = app_with(3);
    assert_eq!(app.selected, Some(0));
    app.select_previous();
    assert_eq!(app.selected, Some(0));
    app.select_next();
    app.select_next();
    assert_eq!(app.selected, Some(2));
    app.select_next();
    assert_eq!(app.selected, Some(2));
    app.select_first();
    assert_eq!(app.selected, Some(0));
    app.select_last();
    assert_eq!(app.selected, Some(2));
}

#[test]
fn selection_up_undoes_down() {
    let mut app = app_with(4);
    app.selected = Some(1);
    app.select_next();
    app.select_previous();
    assert_eq!(app.selected, Some(1));
    app.select_previous();
    app.select_next();
    assert_eq!(app.selected, Some(1));
}

#[test]
fn selection_in_empty_list_does_nothing() {
    let mut app = App::new();
    app.select_next();
    app.select_last();
    app.select_first();
    app.select_previous();
    assert_eq!(app.selected, Some(0));
    assert!(app.selected_network().is_none());
}

#[test]
fn applying_networks_clamps_selection() {
    let mut app = app_with(5);
    app.selected = Some(4);
    app.apply_networks(vec![net("a", ConnectionStatus::Known, SecurityType::Wpa2, Some("/s"))]);
    assert_eq!(app.selected, Some(0));
    app.apply_networks(Vec::new());
    assert_eq!(app.selected, None);
    app.apply_networks(vec![net("a", ConnectionStatus::Known, SecurityType::Wpa2, None), net("b", ConnectionStatus::Known, SecurityType::Wpa2, None)]);
    assert_eq!(app.selected, Some(0));
    assert_eq!(app.selected_network().unwrap().ssid, "a");
}

#[test]
fn toggle_focus_twice_returns() {
    let mut app = App::new();
    app.toggle_focus();
    assert_eq!(app.focused_panel, FocusedPanel::Adapter);
    app.toggle_focus();
    assert_eq!(app.focused_panel, FocusedPanel::Networks);
}

#[test]
fn refresh_failures_are_notified() {
    let mut app = App::new();
    app.finish_refresh(Err(NmError::NoWifiDevice), Err(NmError::Dbus("gone".to_string())), 7);
    assert_eq!(app.notifications.len(), 2);
    assert_eq!(app.notifications[0].message, "Refresh failed: No WiFi device found");
    assert_eq!(app.notifications[0].level, NotifLevel::Error);
    assert_eq!(app.notifications[0].created_at, 7);
    assert_eq!(app.notifications[1].message, "Adapter info failed: D-Bus error: gone");
}

#[test]
fn refresh_success_replaces_data() {
    let mut app = App::new();
    let mut info = AdapterInfo::default();
    info.interface = "wlan0".to_string();
    app.finish_refresh(Ok(vec![net("a", ConnectionStatus::Connected, SecurityType::Open, None)]), Ok(info), 0);
    assert_eq!(app.networks.len(), 1);
    assert_eq!(app.selected, Some(0));
    assert_eq!(app.adapter_info.interface, "wlan0");
    assert!(app.notifications.is_empty());
}

#[test]
fn tick_requests_refresh_and_scan_periodically() {
    let mut app = App::new();
    let mut refreshes = Vec::new();
    let mut scans = Vec::new();
    for t in 1..=240u64 {
        let r = app.tick(t);
        if r.refresh {
            refreshes.push(t);
        }
        if r.scan {
            scans.push(t);
            assert!(r.refresh);
        }
    }
    assert_eq!(refreshes, vec![40, 80, 120, 160, 200, 240]);
    assert_eq!(scans, vec![120, 240]);
    assert_eq!(app.tick_count, 240);
}

#[test]
fn tick_stops_scan_animation_after_twenty_ticks() {
    let mut app = App::new();
    app.start_scan();
    for i in 1..20 {
        app.tick(0);
        assert!(app.is_scanning);
        assert_eq!(app.scan_tick, i);
    }
    app.tick(0);
    assert!(!app.is_scanning);
    assert_eq!(app.scan_tick, 0);
}

#[test]
fn tick_expires_notifications_after_five_seconds() {
    let mut app = App::new();
    app.add_notification("old", NotifLevel::Info, 1000);
    app.add_notification("new", NotifLevel::Success, 4000);
    app.tick(5999);
    assert_eq!(app.notifications.len(), 2);
    app.tick(6000);
    assert_eq!(app.notifications.len(), 1);
    assert_eq!(app.notifications[0].message, "new");
    app.tick(9000);
    assert!(app.notifications.is_empty());
}

#[test]
fn connect_to_connected_network_only_reports() {
    let mut app = App::new();
    app.apply_networks(vec![net("a", ConnectionStatus::Connected, SecurityType::Wpa2, Some("/s"))]);
    let r = app.connect_selected(3);
    assert!(matches!(r, ConnectRequest::Nothing));
    assert_eq!(last_message(&app), ("Already connected".to_string(), NotifLevel::Info));
}

#[test]
fn connect_to_known_network_activates_profile() {
    let mut app = App::new();
    app.apply_networks(vec![net("a", ConnectionStatus::Known, SecurityType::Wpa2, Some("/s/1"))]);
    match app.connect_selected(0) {
        ConnectRequest::ActivateSaved { connection_path, ap_path } => {
            assert_eq!(connection_path, "/s/1");
            assert_eq!(ap_path, "/ap/a");
        }
        other => panic!("unexpected {:?}", other),
    }
    assert!(app.notifications.is_empty());
    app.finish_connect(Ok(()), 1);
    assert_eq!(last_message(&app), ("Connecting...".to_string(), NotifLevel::Info));
    app.finish_connect(Err(NmError::AuthenticationFailed), 1);
    assert_eq!(last_message(&app), ("Connection failed: Authentication failed".to_string(), NotifLevel::Error));
}

#[test]
fn connect_to_known_network_without_profile_does_nothing() {
    let mut app = App::new();
    app.apply_networks(vec![net("a", ConnectionStatus::Known, SecurityType::Wpa2, None)]);
    assert!(matches!(app.connect_selected(0), ConnectRequest::Nothing));
    assert!(app.notifications.is_empty());
    assert!(!app.password_modal.visible);
}

#[test]
fn connect_to_open_network_joins_without_password() {
    let mut app = App::new();
    app.apply_networks(vec![net("cafe", ConnectionStatus::Disconnected, SecurityType::Open, None)]);
    match app.connect_selected(0) {
        ConnectRequest::Join { ssid, password, security, ap_path } => {
            assert_eq!(ssid, "cafe");
            assert_eq!(password, "");
            assert_eq!(security, SecurityType::Open);
            assert_eq!(ap_path, "/ap/cafe");
        }
        other => panic!("unexpected {:?}", other),
    }
}

#[test]
fn connect_to_secured_network_opens_dialog() {
    let mut app = App::new();
    app.apply_networks(vec![net("home", ConnectionStatus::Disconnected, SecurityType::Wpa3, None)]);
    assert!(matches!(app.connect_selected(0), ConnectRequest::Nothing));
    let m = &app.password_modal;
    assert!(m.visible);
    assert_eq!(m.input, "");
    assert_eq!(m.target_ssid, "home");
    assert_eq!(m.target_ap_path, "/ap/home");
    assert_eq!(m.target_security, SecurityType::Wpa3);
    assert!(!m.show_password);
    assert_eq!(m.error_message, None);
}

#[test]
fn password_dialog_flow() {
    let mut app = App::new();
    app.apply_networks(vec![net("home", ConnectionStatus::Disconnected, SecurityType::Wpa2, None)]);
    app.connect_selected(0);
    // empty password is refused
    assert!(matches!(app.handle_key_event(code(Key::Enter)), Command::Nothing));
    assert!(app.password_modal.visible);
    assert_eq!(app.password_modal.error_message.as_deref(), Some("Password cannot be empty"));
    // typing goes to the text field
    assert!(matches!(app.handle_key_event(key('q')), Command::Nothing));
    assert!(app.running);
    assert_eq!((app.password_modal.input.as_str(), app.password_modal.cursor), ("q", 1));
    app.handle_key_event(code(Key::Backspace));
    type_text(&mut app, "hunter2");
    assert_eq!((app.password_modal.input.as_str(), app.password_modal.cursor), ("hunter2", 7));
    app.handle_key_event(code(Key::Tab));
    assert!(app.password_modal.show_password);
    match app.handle_key_event(code(Key::Enter)) {
        Command::ConnectWithPassword(p) => assert_eq!(p, "hunter2"),
        other => panic!("unexpected {:?}", other),
    }
    assert!(!app.password_modal.visible);
    match app.connect_with_password("hunter2".to_string()) {
        ConnectRequest::Join { ssid, password, security, ap_path } => {
            assert_eq!((ssid.as_str(), password.as_str(), security, ap_path.as_str()), ("home", "hunter2", SecurityType::Wpa2, "/ap/home"));
        }
        other => panic!("unexpected {:?}", other),
    }
    assert!(app.finish_connect_with_password(Ok(()), 2));
    assert_eq!(last_message(&app), ("Connecting to home...".to_string(), NotifLevel::Info));
    assert!(!app.finish_connect_with_password(Err(NmError::ConnectionFailed("no".to_string())), 2));
    assert_eq!(last_message(&app), ("Connection failed: Connection failed: no".to_string(), NotifLevel::Error));
}

#[test]
fn password_dialog_escape_and_clear() {
    let mut app = App::new();
    app.apply_networks(vec![net("home", ConnectionStatus::Disconnected, SecurityType::Wep, None)]);
    app.connect_selected(0);
    type_text(&mut app, "abc");
    app.handle_key_event(ctrl('u'));
    assert_eq!(app.password_modal.input, "");
    assert!(app.password_modal.visible);
    type_text(&mut app, "abc");
    app.handle_key_event(code(Key::Enter));
    app.password_modal.visible = true;
    app.password_modal.error_message = Some("x".to_string());
    app.handle_key_event(code(Key::Esc));
    assert!(!app.password_modal.visible);
    assert_eq!(app.password_modal.input, "");
    assert_eq!(app.password_modal.error_message, None);
}

#[test]
fn password_field_edits_text_and_cursor() {
    let mut app = App::new();
    app.apply_networks(vec![net("home", ConnectionStatus::Disconnected, SecurityType::Wpa2, None)]);
    app.connect_selected(0);
    assert_eq!(app.password_modal.cursor, 0);
    type_text(&mut app, "abc");
    assert_eq!((app.password_modal.input.as_str(), app.password_modal.cursor), ("abc", 3));
    // Shift is allowed for typed characters
    let upper = KeyInput { code: Key::Char('D'), ctrl: false, alt: false, shift: true };
    assert!(matches!(app.handle_key_event(upper), Command::Nothing));
    assert_eq!((app.password_modal.input.as_str(), app.password_modal.cursor), ("abcD", 4));
    // moving left and inserting in the middle
    app.handle_key_event(code(Key::Left));
    app.handle_key_event(code(Key::Left));
    assert_eq!(app.password_modal.cursor, 2);
    app.handle_key_event(key('X'));
    assert_eq!((app.password_modal.input.as_str(), app.password_modal.cursor), ("abXcD", 3));
    // Home, Delete, End, Backspace
    app.handle_key_event(code(Key::Home));
    assert_eq!(app.password_modal.cursor, 0);
    app.handle_key_event(code(Key::Backspace));
    assert_eq!((app.password_modal.input.as_str(), app.password_modal.cursor), ("abXcD", 0));
    app.handle_key_event(code(Key::Delete));
    assert_eq!((app.password_modal.input.as_str(), app.password_modal.cursor), ("bXcD", 0));
    app.handle_key_event(code(Key::Right));
    assert_eq!(app.password_modal.cursor, 1);
    app.handle_key_event(code(Key::End));
    assert_eq!(app.password_modal.cursor, 4);
    app.handle_key_event(code(Key::Backspace));
    assert_eq!((app.password_modal.input.as_str(), app.password_modal.cursor), ("bXc", 3));
    // keys the field ignores change nothing and ask nothing
    assert!(matches!(app.handle_key_event(code(Key::Up)), Command::Nothing));
    assert!(matches!(app.handle_key_event(code(Key::Other)), Command::Nothing));
    assert_eq!((app.password_modal.input.as_str(), app.password_modal.cursor), ("bXc", 3));
    assert!(app.password_modal.visible);
}

#[test]
fn password_field_word_keys() {
    let mut app = App::new();
    app.apply_networks(vec![net("home", ConnectionStatus::Disconnected, SecurityType::Wpa2, None)]);
    app.connect_selected(0);
    type_text(&mut app, "correct horse");
    // Alt+Backspace deletes the word before the cursor
    let alt_backspace = KeyInput { code: Key::Backspace, ctrl: false, alt: true, shift: false };
    app.handle_key_event(alt_backspace);
    assert_eq!((app.password_modal.input.as_str(), app.password_modal.cursor), ("correct ", 8));
    // Ctrl+Left goes to the start of the previous word
    type_text(&mut app, "battery");
    let ctrl_left = KeyInput { code: Key::Left, ctrl: true, alt: false, shift: false };
    app.handle_key_event(ctrl_left);
    assert_eq!(app.password_modal.cursor, 8);
    // Ctrl+k cuts to the end, Ctrl+a goes to the start
    app.handle_key_event(ctrl('k'));
    assert_eq!((app.password_modal.input.as_str(), app.password_modal.cursor), ("correct ", 8));
    app.handle_key_event(ctrl('a'));
    assert_eq!(app.password_modal.cursor, 0);
    // Ctrl+u empties the field and puts the cursor back at the start
    app.handle_key_event(code(Key::End));
    app.handle_key_event(ctrl('u'));
    assert_eq!((app.password_modal.input.as_str(), app.password_modal.cursor), ("", 0));
    // Esc resets the field too
    type_text(&mut app, "xy");
    app.handle_key_event(code(Key::Esc));
    assert_eq!((app.password_modal.input.as_str(), app.password_modal.cursor), ("", 0));
}

#[test]
fn main_view_keys() {
    let mut app = app_with(3);
    assert!(matches!(app.handle_key_event(key('j')), Command::Nothing));
    assert_eq!(app.selected, Some(1));
    app.handle_key_event(code(Key::Down));
    assert_eq!(app.selected, Some(2));
    app.handle_key_event(key('k'));
    app.handle_key_event(code(Key::Up));
    assert_eq!(app.selected, Some(0));
    app.handle_key_event(key('G'));
    assert_eq!(app.selected, Some(2));
    app.handle_key_event(key('g'));
    assert_eq!(app.selected, Some(0));
    assert!(matches!(app.handle_key_event(code(Key::Enter)), Command::Connect));
    assert!(matches!(app.handle_key_event(key(' ')), Command::Connect));
    assert!(matches!(app.handle_key_event(key('d')), Command::Disconnect));
    assert!(matches!(app.handle_key_event(key('f')), Command::Forget));
    assert!(matches!(app.handle_key_event(key('s')), Command::Scan));
    assert!(matches!(app.handle_key_event(key('w')), Command::ToggleWifi));
    assert!(matches!(app.handle_key_event(key('r')), Command::Refresh));
    assert!(matches!(app.handle_key_event(key('c')), Command::Nothing));
    assert!(matches!(app.handle_key_event(code(Key::Other)), Command::Nothing));
    app.handle_key_event(code(Key::Tab));
    assert_eq!(app.focused_panel, FocusedPanel::Adapter);
    assert!(app.running);
}

#[test]
fn quit_keys() {
    let mut app = App::new();
    app.handle_key_event(key('q'));
    assert!(!app.running);
    let mut app = App::new();
    app.handle_key_event(ctrl('c'));
    assert!(!app.running);
}

#[test]
fn disconnect_replies() {
    let mut app = App::new();
    assert!(app.finish_disconnect(Ok(()), 0));
    assert_eq!(last_message(&app), ("Disconnected".to_string(), NotifLevel::Success));
    assert!(!app.finish_disconnect(Err(NmError::NoActiveConnection), 0));
    assert_eq!(last_message(&app), ("Disconnect failed: No active connection".to_string(), NotifLevel::Error));
}

#[test]
fn forget_flow() {
    let mut app = App::new();
    assert!(app.forget_selected(0).is_none());
    assert!(app.notifications.is_empty());
    app.apply_networks(vec![net("guest", ConnectionStatus::Disconnected, SecurityType::Open, None)]);
    assert!(app.forget_selected(0).is_none());
    assert_eq!(last_message(&app), ("Network is not saved".to_string(), NotifLevel::Warning));
    app.apply_networks(vec![net("home", ConnectionStatus::Known, SecurityType::Wpa2, Some("/s/4"))]);
    let req = app.forget_selected(0).unwrap();
    assert_eq!(req.connection_path, "/s/4");
    assert_eq!(req.ssid, "home");
    assert!(app.finish_forget(&req.ssid, Ok(()), 0));
    assert_eq!(last_message(&app), ("Forgot home".to_string(), NotifLevel::Success));
    assert!(!app.finish_forget(&req.ssid, Err(NmError::Fdo("denied".to_string())), 0));
    assert_eq!(last_message(&app), ("Forget failed: D-Bus fdo error: denied".to_string(), NotifLevel::Error));
}

#[test]
fn scan_replies() {
    let mut app = App::new();
    app.scan_tick = 7;
    app.start_scan();
    assert!(app.is_scanning);
    assert_eq!(app.scan_tick, 0);
    app.finish_scan(Ok(()), 0);
    assert!(app.is_scanning);
    assert_eq!(last_message(&app), ("Scanning...".to_string(), NotifLevel::Info));
    app.finish_scan(Err(NmError::WifiDisabled), 0);
    assert!(!app.is_scanning);
    assert_eq!(last_message(&app), ("Scan failed: WiFi is disabled".to_string(), NotifLevel::Error));
}

#[test]
fn wifi_toggle_replies() {
    let mut app = App::new();
    assert!(app.finish_toggle_wifi(Ok(true), 0));
    assert_eq!(last_message(&app), ("WiFi enabled".to_string(), NotifLevel::Success));
    assert!(app.finish_toggle_wifi(Ok(false), 0));
    assert_eq!(last_message(&app), ("WiFi disabled".to_string(), NotifLevel::Success));
    assert!(!app.finish_toggle_wifi(Err(NmError::Property("x".to_string())), 0));
    assert_eq!(last_message(&app), ("WiFi toggle failed: Property error: x".to_string(), NotifLevel::Error));
}
