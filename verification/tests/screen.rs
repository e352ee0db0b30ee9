use wifitui::app::{Notification, NotifLevel};
use wifitui::networks::WifiNetwork;
use wifitui::types::{ConnectionStatus, SecurityType};
use wifitui::ui::{
    centered_rect, keybindings, network_row, networks_title, notification_layout, password_display, signal_icon,
    Area,
};

#[test]
fn signal_icon_bands() {
    assert_eq!(signal_icon(0), "󰤯");
    assert_eq!(signal_icon(19), "󰤯");
    assert_eq!(signal_icon(20), "󰤟");
    assert_eq!(signal_icon(39), "󰤟");
    assert_eq!(signal_icon(40), "󰤢");
    assert_eq!(signal_icon(59), "󰤢");
    assert_eq!(signal_icon(60), "󰤥");
    assert_eq!(signal_icon(79), "󰤥");
    assert_eq!(signal_icon(80), "󰤨");
    assert_eq!(signal_icon(100), "󰤨");
    assert_eq!(signal_icon(101), "󰤯");
    assert_eq!(signal_icon(255), "󰤯");
}

#[test]
fn table_row_cells() {
    let n = WifiNetwork {
        ssid: "home".to_string(),
        bssid: String::new(),
        signal_strength: 72,
        frequency: 2412,
        security: SecurityType::Wpa2,
        status: ConnectionStatus::Known,
        ap_path: String::new(),
        saved_connection_path: None,
    };
    assert_eq!(network_row(&n), vec!["󰤥", "home", "72%", "WPA2", "Saved"]);
}

#[test]
fn panel_titles() {
    assert_eq!(networks_title(false, "", 12), " Networks (12) ");
    assert_eq!(networks_title(true, "⠋", 12), " Networks ⠋ ");
}

#[test]
fn help_bar_bindings() {
    assert_eq!(
        keybindings(true),
        vec![("Enter", "Connect"), ("Esc", "Cancel"), ("Tab", "Show/Hide"), ("Ctrl+u", "Clear")]
    );
    let main = keybindings(false);
    assert_eq!(main.len(), 8);
    assert_eq!(main[0], ("Enter", "Connect"));
    assert_eq!(main[5], ("j/↓", "Down"));
    assert_eq!(main[7], ("q", "Quit"));
}

#[test]
fn password_field_masking() {
    assert_eq!(password_display("abc", true), "abc");
    assert_eq!(password_display("abc", false), "●●●");
    assert_eq!(password_display("", false), "");
    // one dot per byte, as the width of the field is counted in bytes
    assert_eq!(password_display("é", false), "●●");
}

#[test]
fn dialog_is_centred() {
    let a = Area { x: 0, y: 0, width: 80, height: 24 };
    assert_eq!(centered_rect(55, 8, a), Area { x: 12, y: 8, width: 55, height: 8 });
    let small = Area { x: 2, y: 1, width: 40, height: 6 };
    assert_eq!(centered_rect(55, 8, small), Area { x: 2, y: 1, width: 40, height: 6 });
}

fn note(msg: &str) -> Notification {
    Notification { message: msg.to_string(), level: NotifLevel::Info, created_at: 0 }
}

#[test]
fn notification_boxes_newest_first() {
    let area = Area { x: 0, y: 0, width: 80, height: 24 };
    let notes = vec![note("first"), note("second"), note("third"), note("fourth")];
    let boxes = notification_layout(&notes, area);
    assert_eq!(boxes.len(), 3);
    // " fourth " is 8 bytes, box 10 wide, at the right edge, on line 20
    assert_eq!(boxes[0], Some(Area { x: 69, y: 20, width: 10, height: 1 }));
    assert_eq!(boxes[1], Some(Area { x: 70, y: 18, width: 9, height: 1 }));
    assert_eq!(boxes[2], Some(Area { x: 69, y: 16, width: 10, height: 1 }));
}

#[test]
fn notification_boxes_are_capped_and_clipped() {
    let area = Area { x: 0, y: 0, width: 20, height: 3 };
    let long = "a".repeat(50);
    let boxes = notification_layout(&vec![note(&long), note("x")], area);
    assert_eq!(boxes[0], Some(Area { x: 14, y: 0, width: 5, height: 1 }));
    assert_eq!(boxes[1], Some(Area { x: 9, y: 0, width: 10, height: 1 }));
    let nothing = notification_layout(&Vec::new(), area);
    assert!(nothing.is_empty());
    let off = Area { x: 0, y: 5, width: 20, height: 0 };
    assert_eq!(notification_layout(&vec![note("x")], off), vec![None]);
}

#[test]
fn dialog_is_cut_at_the_coordinate_limit() {
    let edge = Area { x: 65530, y: 65533, width: 10, height: 8 };
    assert_eq!(centered_rect(55, 8, edge), Area { x: 65530, y: 65533, width: 5, height: 2 });
}
