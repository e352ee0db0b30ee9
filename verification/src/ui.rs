//! What the screen shows: texts of the network table, the help bar and the
//! password field, and where the password dialog and the notifications go.
use vstd::prelude::*;
use vstd::string::StringSliceAdditionalSpecFns;
use vstd::utf8::encode_utf8;
use crate::app::{notification_views, Notification};
use crate::networks::WifiNetwork;
use crate::text::{decimal, decimal_string};
use crate::types::{security_label, status_label};

verus! {

broadcast use vstd::slice::group_slice_axioms;

/// The signal icon for a strength in percent, in five bands of 20.
pub open spec fn signal_icon_of(strength: u8) -> Seq<char> {
    if strength <= 19 {
        "󰤯"@
    } else if strength <= 39 {
        "󰤟"@
    } else if strength <= 59 {
        "󰤢"@
    } else if strength <= 79 {
        "󰤥"@
    } else if strength <= 100 {
        "󰤨"@
    } else {
        "󰤯"@
    }
}

/// The signal icon for a strength in percent.
pub fn signal_icon(strength: u8) -> (r: &'static str)
    ensures
        r@ == signal_icon_of(strength),
{
    if strength <= 19 {
        "󰤯"
    } else if strength <= 39 {
        "󰤟"
    } else if strength <= 59 {
        "󰤢"
    } else if strength <= 79 {
        "󰤥"
    } else if strength <= 100 {
        "󰤨"
    } else {
        "󰤯"
    }
}

/// The cells of one row of the network table: icon, SSID, signal, security, status.
pub open spec fn network_row_of(
    ssid: Seq<char>,
    strength: u8,
    security: crate::types::SecurityType,
    status: crate::types::ConnectionStatus,
) -> Seq<Seq<char>> {
    seq![
        signal_icon_of(strength),
        ssid,
        decimal(strength as nat) + "%"@,
        security_label(security),
        status_label(status),
    ]
}

/// The cells of the row of `net` in the network table.
pub fn network_row(net: &WifiNetwork) -> (r: Vec<String>)
    ensures
        r@.map_values(|c: String| c@) == network_row_of(
            net.ssid@,
            net.signal_strength,
            net.security,
            net.status,
        ),
{
    let mut r: Vec<String> = Vec::new();
    r.push(String::from_str(signal_icon(net.signal_strength)));
    r.push(net.ssid.clone());
    r.push(decimal_string(net.signal_strength as u64).concat("%"));
    r.push(net.security.to_string());
    r.push(net.status.to_string());
    assert(r@.map_values(|c: String| c@) =~= network_row_of(
        net.ssid@,
        net.signal_strength,
        net.security,
        net.status,
    ));
    r
}

/// The title of the network panel: the spinner frame while scanning, else the number of rows.
pub open spec fn networks_title_of(is_scanning: bool, spinner: Seq<char>, count: nat) -> Seq<char> {
    if is_scanning {
        " Networks "@ + spinner + " "@
    } else {
        " Networks ("@ + decimal(count) + ") "@
    }
}

/// The title of the network panel.
pub fn networks_title(is_scanning: bool, spinner: &str, count: usize) -> (r: String)
    ensures
        r@ == networks_title_of(is_scanning, spinner@, count as nat),
{
    if is_scanning {
        String::from_str(" Networks ").concat(spinner).concat(" ")
    } else {
        String::from_str(" Networks (").concat(decimal_string(count as u64).as_str()).concat(") ")
    }
}

/// The key bindings shown in the help bar: those of the password dialog
/// while it is open, else those of the main view.
pub open spec fn keybindings_of(modal_visible: bool) -> Seq<(Seq<char>, Seq<char>)> {
    if modal_visible {
        seq![
            ("Enter"@, "Connect"@),
            ("Esc"@, "Cancel"@),
            ("Tab"@, "Show/Hide"@),
            ("Ctrl+u"@, "Clear"@),
        ]
    } else {
        seq![
            ("Enter"@, "Connect"@),
            ("d"@, "Disconnect"@),
            ("f"@, "Forget"@),
            ("s"@, "Scan"@),
            ("w"@, "WiFi on/off"@),
            ("j/↓"@, "Down"@),
            ("k/↑"@, "Up"@),
            ("q"@, "Quit"@),
        ]
    }
}

/// The key bindings of the help bar, as (key, action) pairs.
pub fn keybindings(modal_visible: bool) -> (r: Vec<(&'static str, &'static str)>)
    ensures
        r@.map_values(|p: (&str, &str)| (p.0@, p.1@)) == keybindings_of(modal_visible),
{
    let mut r: Vec<(&'static str, &'static str)> = Vec::new();
    if modal_visible {
        r.push(("Enter", "Connect"));
        r.push(("Esc", "Cancel"));
        r.push(("Tab", "Show/Hide"));
        r.push(("Ctrl+u", "Clear"));
    } else {
        r.push(("Enter", "Connect"));
        r.push(("d", "Disconnect"));
        r.push(("f", "Forget"));
        r.push(("s", "Scan"));
        r.push(("w", "WiFi on/off"));
        r.push(("j/↓", "Down"));
        r.push(("k/↑", "Up"));
        r.push(("q", "Quit"));
    }
    assert(r@.map_values(|p: (&str, &str)| (p.0@, p.1@)) =~= keybindings_of(modal_visible));
    r
}

/// What the password field shows: the password itself, or one dot per byte of it.
pub open spec fn password_shown(value: Seq<char>, value_bytes: nat, show: bool) -> Seq<char> {
    if show {
        value
    } else {
        Seq::new(value_bytes, |i: int| '●')
    }
}

/// The text of the password field.
pub fn password_display(value: &str, show: bool) -> (r: String)
    ensures
        r@ == password_shown(value@, value.spec_bytes().len(), show),
{
    if show {
        return String::from_str(value);
    }
    let n = value.as_bytes().len();
    let mut r = String::new();
    let mut i: usize = 0;
    while i < n
        invariant
            i <= n,
            n == value.spec_bytes().len(),
            r@ == Seq::new(i as nat, |k: int| '●'),
        decreases n - i,
    {
        proof {
            reveal_strlit("●");
        }
        r.append("●");
        i = i + 1;
        assert(r@ =~= Seq::new(i as nat, |k: int| '●'));
    }
    r
}

/// A rectangle of terminal cells.
#[derive(Clone, Copy, Debug, PartialEq, Eq, Structural)]
pub struct Area {
    pub x: u16,
    pub y: u16,
    pub width: u16,
    pub height: u16,
}

/// `a - b`, or 0 when `b` is larger.
pub open spec fn sat_sub(a: int, b: int) -> int {
    if a >= b {
        a - b
    } else {
        0
    }
}

/// The rectangle at (`x`, `y`) of `width` by `height` cells, cut so that it
/// does not reach past the last coordinate `u16::MAX`.
pub open spec fn rect_at(x: u16, y: u16, width: u16, height: u16) -> Area {
    Area {
        x,
        y,
        width: if width <= u16::MAX - x {
            width
        } else {
            (u16::MAX - x) as u16
        },
        height: if height <= u16::MAX - y {
            height
        } else {
            (u16::MAX - y) as u16
        },
    }
}

/// Calls `ratatui::layout::Rect::new`, which cuts the width and height of the
/// rectangle so that `x + width` and `y + height` stay within `u16`, and
/// returns its four fields.
#[verifier::external_body]
fn new_rect(x: u16, y: u16, width: u16, height: u16) -> (r: Area)
    ensures
        r == rect_at(x, y, width, height),
{
    let r = ratatui::layout::Rect::new(x, y, width, height);
    Area { x: r.x, y: r.y, width: r.width, height: r.height }
}

/// A `width` by `height` rectangle centred in `area`, cut to fit.
pub open spec fn centered_in(width: u16, height: u16, area: Area) -> Area {
    rect_at(
        (area.x + sat_sub(area.width as int, width as int) / 2) as u16,
        (area.y + sat_sub(area.height as int, height as int) / 2) as u16,
        if width <= area.width {
            width
        } else {
            area.width
        },
        if height <= area.height {
            height
        } else {
            area.height
        },
    )
}

/// Where the password dialog of `width` by `height` cells goes in `area`.
pub fn centered_rect(width: u16, height: u16, area: Area) -> (r: Area)
    requires
        area.x + sat_sub(area.width as int, width as int) / 2 <= u16::MAX,
        area.y + sat_sub(area.height as int, height as int) / 2 <= u16::MAX,
    ensures
        r == centered_in(width, height, area),
{
    let dx = if area.width >= width {
        area.width - width
    } else {
        0
    };
    let dy = if area.height >= height {
        area.height - height
    } else {
        0
    };
    new_rect(
        area.x + dx / 2,
        area.y + dy / 2,
        if width <= area.width {
            width
        } else {
            area.width
        },
        if height <= area.height {
            height
        } else {
            area.height
        },
    )
}

/// Where one notification goes: `message_bytes` is the length of its message
/// in bytes, `y` the line given to it. The text is the message between two
/// spaces, in a box two cells wider, at most half the width of `area`, at
/// its right edge; it is drawn only when line `y` lies inside `area`.
pub open spec fn notification_box(area: Area, message_bytes: nat, y: int) -> Option<Area> {
    let width: int = if (message_bytes + 2) % 65536 + 2 <= area.width / 2 {
        ((message_bytes + 2) % 65536 + 2) as int
    } else {
        (area.width / 2) as int
    };
    if area.y <= y < area.y + area.height {
        Some(rect_at((area.x + sat_sub(area.width as int, width + 1)) as u16, y as u16, width as u16, 1))
    } else {
        None
    }
}

/// The line of the `k`-th newest notification: the fourth line from the
/// bottom of `area` for the newest, two lines higher for each older one.
pub open spec fn notification_line(area: Area, k: int) -> int {
    sat_sub(area.y + sat_sub(area.height as int, 4), 2 * k)
}

/// The boxes of the three newest notifications, newest first; `None` for
/// one that falls outside `area`.
pub open spec fn notification_boxes(area: Area, notes: Seq<crate::app::NotificationView>, bytes: Seq<
    nat,
>) -> Seq<Option<Area>> {
    let shown = if notes.len() < 3 {
        notes.len()
    } else {
        3
    };
    Seq::new(
        shown,
        |k: int| notification_box(area, bytes[notes.len() - 1 - k], notification_line(area, k)),
    )
}

/// The boxes of the three newest of `notes` in `area`, newest first.
pub fn notification_layout(notes: &Vec<Notification>, area: Area) -> (r: Vec<Option<Area>>)
    requires
        area.y + sat_sub(area.height as int, 4) <= u16::MAX,
        area.y + area.height <= u16::MAX,
        area.x + area.width <= u16::MAX,
        forall|i: int|
            0 <= i < notes@.len() ==> (encode_utf8(#[trigger] notes@[i].message@).len() + 2) % 65536 + 2
                <= u16::MAX,
    ensures
        r@ == notification_boxes(
            area,
            notification_views(notes@),
            notes@.map_values(|n: Notification| encode_utf8(n.message@).len()),
        ),
{
    let ghost bytes = notes@.map_values(|n: Notification| encode_utf8(n.message@).len());
    let ghost views = notification_views(notes@);
    let n = notes.len();
    let shown: usize = if n < 3 {
        n
    } else {
        3
    };
    let mut r: Vec<Option<Area>> = Vec::new();
    let base = area.y + if area.height >= 4 {
        area.height - 4
    } else {
        0
    };
    let mut y_offset: u16 = base;
    let mut k: usize = 0;
    while k < shown
        invariant
            shown <= n,
            n == notes@.len(),
            shown == (if n < 3 {
                n
            } else {
                3
            }),
            k <= shown,
            base == area.y + sat_sub(area.height as int, 4),
            y_offset == notification_line(area, k as int),
            area.y + area.height <= u16::MAX,
            area.x + area.width <= u16::MAX,
            bytes == notes@.map_values(|n: Notification| encode_utf8(n.message@).len()),
            views == notification_views(notes@),
            forall|i: int|
                0 <= i < notes@.len() ==> (encode_utf8(#[trigger] notes@[i].message@).len() + 2) % 65536
                    + 2 <= u16::MAX,
            r@ == notification_boxes(area, views, bytes).take(k as int),
        decreases shown - k,
    {
        let note = &notes[n - 1 - k];
        let len = note.message.as_str().as_bytes().len();
        assert(len == bytes[n - 1 - k]);
        let text_width: u16 = ((len % 65536 + 2) % 65536) as u16;
        assert(text_width == (bytes[n - 1 - k] + 2) % 65536);
        assert(encode_utf8(notes@[n - 1 - k].message@).len() == len);
        let half = area.width / 2;
        let width: u16 = if text_width + 2 <= half {
            text_width + 2
        } else {
            half
        };
        let x = area.x + if area.width >= width + 1 {
            area.width - (width + 1)
        } else {
            0
        };
        let slot = if y_offset >= area.y && y_offset < area.y + area.height {
            Some(new_rect(x, y_offset, width, 1))
        } else {
            None
        };
        assert(slot == notification_box(area, bytes[n - 1 - k], notification_line(area, k as int)));
        r.push(slot);
        assert(r@ =~= notification_boxes(area, views, bytes).take(k + 1));
        y_offset = if y_offset >= 2 {
            y_offset - 2
        } else {
            0
        };
        k = k + 1;
    }
    assert(notification_boxes(area, views, bytes).len() == shown);
    assert(notification_boxes(area, views, bytes).take(shown as int) =~= notification_boxes(
        area,
        views,
        bytes,
    ));
    r
}

} // verus!
