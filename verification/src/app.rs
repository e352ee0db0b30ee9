//! The state of the user interface and how each user action and each reply
//! of NetworkManager changes it.
use vstd::prelude::*;
use crate::adapter::{default_adapter, AdapterInfo, AdapterView};
use crate::error::{error_message, NmError};
use crate::networks::{network_views, NetworkView, WifiNetwork};
use crate::field::{backspaced, edit_password_field, field_after_key, typed_into};
use crate::text::opt_text;
use crate::types::{ConnectionStatus, SecurityType};

verus! {

/// How a notification is coloured.
#[derive(Clone, Copy, Debug, PartialEq, Eq, Structural)]
pub enum NotifLevel {
    Info,
    Success,
    Warning,
    Error,
}

/// A message shown for a few seconds in the corner of the screen.
#[derive(Clone, Debug)]
pub struct Notification {
    pub message: String,
    pub level: NotifLevel,
    /// When the message was posted, in milliseconds on the application's clock.
    pub created_at: u64,
}

/// A notification as text.
pub struct NotificationView {
    pub message: Seq<char>,
    pub level: NotifLevel,
    pub created_at: u64,
}

impl View for Notification {
    type V = NotificationView;

    open spec fn view(&self) -> NotificationView {
        NotificationView { message: self.message@, level: self.level, created_at: self.created_at }
    }
}

/// The notifications of a vector, as text.
pub open spec fn notification_views(s: Seq<Notification>) -> Seq<NotificationView> {
    s.map_values(|n: Notification| n@)
}

/// The panel that has the keyboard focus.
#[derive(Clone, Copy, Debug, PartialEq, Eq, Structural)]
pub enum FocusedPanel {
    Networks,
    Adapter,
}

/// The dialog that asks for the password of a network.
#[derive(Clone, Debug)]
pub struct PasswordModal {
    pub visible: bool,
    /// The text typed so far.
    pub input: String,
    /// Where the cursor of the text field stands, in characters.
    pub cursor: usize,
    pub target_ssid: String,
    pub target_ap_path: String,
    pub target_security: SecurityType,
    pub show_password: bool,
    pub error_message: Option<String>,
}

/// The password dialog as text.
pub struct ModalView {
    pub visible: bool,
    pub input: Seq<char>,
    pub cursor: nat,
    pub target_ssid: Seq<char>,
    pub target_ap_path: Seq<char>,
    pub target_security: SecurityType,
    pub show_password: bool,
    pub error_message: Option<Seq<char>>,
}

impl View for PasswordModal {
    type V = ModalView;

    open spec fn view(&self) -> ModalView {
        ModalView {
            visible: self.visible,
            input: self.input@,
            cursor: self.cursor as nat,
            target_ssid: self.target_ssid@,
            target_ap_path: self.target_ap_path@,
            target_security: self.target_security,
            show_password: self.show_password,
            error_message: opt_text(self.error_message),
        }
    }
}

/// The closed, empty password dialog.
pub open spec fn hidden_modal() -> ModalView {
    ModalView {
        visible: false,
        input: seq![],
        cursor: 0,
        target_ssid: seq![],
        target_ap_path: seq![],
        target_security: SecurityType::Open,
        show_password: false,
        error_message: None,
    }
}

impl Default for PasswordModal {
    fn default() -> (r: PasswordModal)
        ensures
            r@ == hidden_modal(),
    {
        PasswordModal {
            visible: false,
            input: String::new(),
            cursor: 0,
            target_ssid: String::new(),
            target_ap_path: String::new(),
            target_security: SecurityType::Open,
            show_password: false,
            error_message: None,
        }
    }
}

/// The state of the application.
pub struct App {
    pub running: bool,
    pub networks: Vec<WifiNetwork>,
    pub adapter_info: AdapterInfo,
    pub focused_panel: FocusedPanel,
    /// The selected row of the network table.
    pub selected: Option<usize>,
    pub is_scanning: bool,
    pub scan_tick: usize,
    pub password_modal: PasswordModal,
    pub notifications: Vec<Notification>,
    /// Ticks since start; drives the automatic refresh and scan.
    pub tick_count: usize,
}

/// The application state as mathematical values.
pub struct AppView {
    pub running: bool,
    pub networks: Seq<NetworkView>,
    pub adapter: AdapterView,
    pub focused: FocusedPanel,
    pub selected: Option<usize>,
    pub is_scanning: bool,
    pub scan_tick: usize,
    pub modal: ModalView,
    pub notifications: Seq<NotificationView>,
    pub tick_count: usize,
}

impl View for App {
    type V = AppView;

    open spec fn view(&self) -> AppView {
        AppView {
            running: self.running,
            networks: network_views(self.networks@),
            adapter: self.adapter_info@,
            focused: self.focused_panel,
            selected: self.selected,
            is_scanning: self.is_scanning,
            scan_tick: self.scan_tick,
            modal: self.password_modal@,
            notifications: notification_views(self.notifications@),
            tick_count: self.tick_count,
        }
    }
}

/// `s` with one more notification.
pub open spec fn notified(s: AppView, message: Seq<char>, level: NotifLevel, now: u64) -> AppView {
    AppView {
        notifications: s.notifications.push(
            NotificationView { message, level, created_at: now },
        ),
        ..s
    }
}

/// The row after the selected one; the last row stays selected.
pub open spec fn next_index(selected: Option<usize>, len: nat) -> usize {
    let cur = match selected {
        Some(i) => i,
        None => 0,
    };
    if cur >= len - 1 {
        cur
    } else {
        (cur + 1) as usize
    }
}

/// The row before the selected one; the first row stays selected.
pub open spec fn previous_index(selected: Option<usize>) -> usize {
    let cur = match selected {
        Some(i) => i,
        None => 0,
    };
    if cur == 0 {
        0
    } else {
        (cur - 1) as usize
    }
}

/// The selection after the network list has been replaced by one of `len`
/// rows: the same row when it still exists, else the last row; none in an
/// empty list.
pub open spec fn clamped_selection(selected: Option<usize>, len: nat) -> Option<usize> {
    if len == 0 {
        None
    } else {
        let cur = match selected {
            Some(i) => i,
            None => 0,
        };
        if cur <= len - 1 {
            Some(cur)
        } else {
            Some((len - 1) as usize)
        }
    }
}

/// The state after moving the selection down.
pub open spec fn selection_down(s: AppView) -> AppView {
    if s.networks.len() == 0 {
        s
    } else {
        AppView { selected: Some(next_index(s.selected, s.networks.len())), ..s }
    }
}

/// The state after moving the selection up.
pub open spec fn selection_up(s: AppView) -> AppView {
    if s.networks.len() == 0 {
        s
    } else {
        AppView { selected: Some(previous_index(s.selected)), ..s }
    }
}

/// The state after selecting the first row.
pub open spec fn selection_first(s: AppView) -> AppView {
    if s.networks.len() == 0 {
        s
    } else {
        AppView { selected: Some(0), ..s }
    }
}

/// The state after selecting the last row.
pub open spec fn selection_last(s: AppView) -> AppView {
    if s.networks.len() == 0 {
        s
    } else {
        AppView { selected: Some((s.networks.len() - 1) as usize), ..s }
    }
}

/// The other panel.
pub open spec fn other_panel(p: FocusedPanel) -> FocusedPanel {
    match p {
        FocusedPanel::Networks => FocusedPanel::Adapter,
        FocusedPanel::Adapter => FocusedPanel::Networks,
    }
}

/// The selected row, if the selection points at one.
pub open spec fn selected_row(s: AppView) -> Option<NetworkView> {
    match s.selected {
        Some(i) => if i < s.networks.len() {
            Some(s.networks[i as int])
        } else {
            None
        },
        None => None,
    }
}

impl App {
    /// The state at start: running, no networks, the first row selected, the
    /// network panel focused.
    pub fn new() -> (r: App)
        ensures
            r@ == (AppView {
                running: true,
                networks: seq![],
                adapter: default_adapter(),
                focused: FocusedPanel::Networks,
                selected: Some(0),
                is_scanning: false,
                scan_tick: 0,
                modal: hidden_modal(),
                notifications: seq![],
                tick_count: 0,
            }),
    {
        let r = App {
            running: true,
            networks: Vec::new(),
            adapter_info: AdapterInfo::default(),
            focused_panel: FocusedPanel::Networks,
            selected: Some(0),
            is_scanning: false,
            scan_tick: 0,
            password_modal: PasswordModal::default(),
            notifications: Vec::new(),
            tick_count: 0,
        };
        assert(r@.networks =~= seq![]);
        assert(r@.notifications =~= seq![]);
        r
    }

    /// Posts a notification at time `now`.
    pub fn add_notification(&mut self, message: &str, level: NotifLevel, now: u64)
        ensures
            final(self)@ == notified(old(self)@, message@, level, now),
    {
        let n = Notification { message: String::from_str(message), level, created_at: now };
        self.notifications.push(n);
        assert(final(self)@.notifications =~= old(self)@.notifications.push(n@));
    }

    /// Moves the selection one row down.
    pub fn select_next(&mut self)
        ensures
            final(self)@ == selection_down(old(self)@),
    {
        if self.networks.is_empty() {
            return ;
        }
        let current = match self.selected {
            Some(i) => i,
            None => 0,
        };
        let next = if current >= self.networks.len() - 1 {
            current
        } else {
            current + 1
        };
        self.selected = Some(next);
    }

    /// Moves the selection one row up.
    pub fn select_previous(&mut self)
        ensures
            final(self)@ == selection_up(old(self)@),
    {
        if self.networks.is_empty() {
            return ;
        }
        let current = match self.selected {
            Some(i) => i,
            None => 0,
        };
        let prev = if current == 0 {
            0
        } else {
            current - 1
        };
        self.selected = Some(prev);
    }

    /// Selects the first row.
    pub fn select_first(&mut self)
        ensures
            final(self)@ == selection_first(old(self)@),
    {
        if !self.networks.is_empty() {
            self.selected = Some(0);
        }
    }

    /// Selects the last row.
    pub fn select_last(&mut self)
        ensures
            final(self)@ == selection_last(old(self)@),
    {
        if !self.networks.is_empty() {
            self.selected = Some(self.networks.len() - 1);
        }
    }

    /// Moves the focus to the other panel.
    pub fn toggle_focus(&mut self)
        ensures
            final(self)@ == (AppView { focused: other_panel(old(self)@.focused), ..old(self)@ }),
    {
        self.focused_panel = match self.focused_panel {
            FocusedPanel::Networks => FocusedPanel::Adapter,
            FocusedPanel::Adapter => FocusedPanel::Networks,
        };
    }

    /// The selected network, if the selection points at a row.
    pub fn selected_network(&self) -> (r: Option<&WifiNetwork>)
        ensures
            match r {
                Some(n) => selected_row(self@) == Some(n@),
                None => selected_row(self@) is None,
            },
    {
        match self.selected {
            Some(i) => if i < self.networks.len() {
                Some(&self.networks[i])
            } else {
                None
            },
            None => None,
        }
    }

    /// Replaces the network list, keeping the selection on a row.
    pub fn apply_networks(&mut self, networks: Vec<WifiNetwork>)
        ensures
            final(self)@ == (AppView {
                networks: network_views(networks@),
                selected: clamped_selection(old(self)@.selected, networks@.len()),
                ..old(self)@
            }),
    {
        let had = self.selected;
        self.networks = networks;
        if !self.networks.is_empty() {
            let cur = match had {
                Some(i) => i,
                None => 0,
            };
            let last = self.networks.len() - 1;
            self.selected = Some(
                if cur <= last {
                    cur
                } else {
                    last
                },
            );
        } else {
            self.selected = None;
        }
    }
}

/// How long a notification stays on screen, in milliseconds.
pub const NOTIFICATION_LIFETIME_MS: u64 = 5000;

/// A notification posted at `created_at` is still shown at `now`: less than
/// five seconds have passed (one posted later than `now` is shown too).
pub open spec fn alive(n: NotificationView, now: u64) -> bool {
    now < n.created_at + 5000
}

/// The notifications that are still shown at `now`.
pub open spec fn alive_at(now: u64) -> spec_fn(NotificationView) -> bool {
    |n: NotificationView| alive(n, now)
}

/// The state after the network list was asked for: the new list, or a
/// notification of the failure.
pub open spec fn after_network_refresh(
    s: AppView,
    r: Result<Seq<NetworkView>, NmError>,
    now: u64,
) -> AppView {
    match r {
        Ok(n) => AppView { networks: n, selected: clamped_selection(s.selected, n.len()), ..s },
        Err(e) => notified(s, "Refresh failed: "@ + error_message(e), NotifLevel::Error, now),
    }
}

/// The state after the adapter properties were asked for.
pub open spec fn after_adapter_refresh(s: AppView, r: Result<AdapterView, NmError>, now: u64) -> AppView {
    match r {
        Ok(a) => AppView { adapter: a, ..s },
        Err(e) => notified(s, "Adapter info failed: "@ + error_message(e), NotifLevel::Error, now),
    }
}

/// Ticks between two automatic refreshes (10 s at 250 ms a tick).
pub const REFRESH_EVERY_TICKS: usize = 40;

/// Ticks between two automatic scans (30 s at 250 ms a tick).
pub const SCAN_EVERY_TICKS: usize = 120;

/// Ticks that the scanning animation lasts (5 s at 250 ms a tick).
pub const SCAN_ANIMATION_TICKS: usize = 20;

/// What a tick asks the caller to do against NetworkManager.
#[derive(Clone, Copy, Debug, PartialEq, Eq, Structural)]
pub struct TickRequest {
    pub refresh: bool,
    pub scan: bool,
}

/// The state after one tick at time `now`: the counters advance, expired
/// notifications go, and the scanning animation stops after 20 ticks.
pub open spec fn ticked(s: AppView, now: u64) -> AppView {
    let st = if s.is_scanning {
        s.scan_tick + 1
    } else {
        s.scan_tick as int
    };
    let stop = s.is_scanning && st >= 20;
    AppView {
        tick_count: (s.tick_count + 1) as usize,
        scan_tick: if stop {
            0
        } else {
            st as usize
        },
        is_scanning: s.is_scanning && !stop,
        notifications: s.notifications.filter(alive_at(now)),
        ..s
    }
}

impl App {
    /// Takes the replies of a refresh: the network list, then the adapter
    /// properties, each replacing what is shown or posting its failure.
    pub fn finish_refresh(
        &mut self,
        networks: Result<Vec<WifiNetwork>, NmError>,
        adapter: Result<AdapterInfo, NmError>,
        now: u64,
    )
        ensures
            final(self)@ == after_adapter_refresh(
                after_network_refresh(
                    old(self)@,
                    match networks {
                        Ok(v) => Ok(network_views(v@)),
                        Err(e) => Err(e),
                    },
                    now,
                ),
                match adapter {
                    Ok(a) => Ok(a@),
                    Err(e) => Err(e),
                },
                now,
            ),
    {
        match networks {
            Ok(n) => self.apply_networks(n),
            Err(e) => {
                let msg = String::from_str("Refresh failed: ").concat(e.to_string().as_str());
                self.add_notification(msg.as_str(), NotifLevel::Error, now);
            },
        }
        match adapter {
            Ok(a) => self.adapter_info = a,
            Err(e) => {
                let msg = String::from_str("Adapter info failed: ").concat(e.to_string().as_str());
                self.add_notification(msg.as_str(), NotifLevel::Error, now);
            },
        }
    }

    /// Drops the notifications that are no longer shown at `now`.
    fn expire_notifications(&mut self, now: u64)
        ensures
            final(self)@ == (AppView {
                notifications: old(self)@.notifications.filter(alive_at(now)),
                ..old(self)@
            }),
    {
        let ghost all = notification_views(self.notifications@);
        let mut kept: Vec<Notification> = Vec::new();
        let mut i: usize = 0;
        let n = self.notifications.len();
        while i < n
            invariant
                n == self.notifications@.len(),
                all == notification_views(self.notifications@),
                i <= n,
                notification_views(kept@) == all.take(i as int).filter(alive_at(now)),
            decreases n - i,
        {
            proof {
                reveal(Seq::filter);
                assert(all.take(i + 1).drop_last() =~= all.take(i as int));
                assert(all.take(i + 1).last() == self.notifications@[i as int]@);
            }
            let note = &self.notifications[i];
            if note.created_at >= now || now - note.created_at < NOTIFICATION_LIFETIME_MS {
                let copy = Notification {
                    message: note.message.clone(),
                    level: note.level,
                    created_at: note.created_at,
                };
                let ghost before = notification_views(kept@);
                kept.push(copy);
                assert(notification_views(kept@) =~= before.push(copy@));
            }
            i = i + 1;
        }
        assert(all.take(n as int) =~= all);
        self.notifications = kept;
    }

    /// One tick of the event loop at time `now`. The reply says whether the
    /// network list is due for a refresh (every 40th tick) and the device
    /// for a scan (every 120th tick).
    pub fn tick(&mut self, now: u64) -> (r: TickRequest)
        requires
            old(self).tick_count < usize::MAX,
            old(self).is_scanning ==> old(self).scan_tick < usize::MAX,
        ensures
            final(self)@ == ticked(old(self)@, now),
            r.refresh == (final(self).tick_count % 40 == 0),
            r.scan == (final(self).tick_count % 120 == 0),
    {
        self.tick_count = self.tick_count + 1;
        if self.is_scanning {
            self.scan_tick = self.scan_tick + 1;
        }
        self.expire_notifications(now);
        let refresh = self.tick_count % REFRESH_EVERY_TICKS == 0;
        let scan = self.tick_count % SCAN_EVERY_TICKS == 0;
        if self.is_scanning && self.scan_tick >= SCAN_ANIMATION_TICKS {
            self.is_scanning = false;
            self.scan_tick = 0;
        }
        TickRequest { refresh, scan }
    }
}

/// What connecting to the selected network asks of NetworkManager.
#[derive(Clone, Debug)]
pub enum ConnectRequest {
    Nothing,
    /// Activate the saved profile `connection_path` on access point `ap_path`.
    ActivateSaved { connection_path: String, ap_path: String },
    /// Add and activate a new connection to `ssid` through `ap_path`.
    Join { ssid: String, password: String, security: SecurityType, ap_path: String },
}

/// A connect request as text.
pub enum ConnectRequestView {
    Nothing,
    ActivateSaved { connection_path: Seq<char>, ap_path: Seq<char> },
    Join { ssid: Seq<char>, password: Seq<char>, security: SecurityType, ap_path: Seq<char> },
}

impl View for ConnectRequest {
    type V = ConnectRequestView;

    open spec fn view(&self) -> ConnectRequestView {
        match self {
            ConnectRequest::Nothing => ConnectRequestView::Nothing,
            ConnectRequest::ActivateSaved { connection_path, ap_path } => ConnectRequestView::ActivateSaved {
                connection_path: connection_path@,
                ap_path: ap_path@,
            },
            ConnectRequest::Join { ssid, password, security, ap_path } => ConnectRequestView::Join {
                ssid: ssid@,
                password: password@,
                security: *security,
                ap_path: ap_path@,
            },
        }
    }
}

/// The password dialog opened for a network.
pub open spec fn modal_for(n: NetworkView) -> ModalView {
    ModalView {
        visible: true,
        input: seq![],
        cursor: 0,
        target_ssid: n.ssid,
        target_ap_path: n.ap_path,
        target_security: n.security,
        show_password: false,
        error_message: None,
    }
}

/// Connecting to the selected network: a connected one is only reported, a
/// known one is activated from its saved profile, an open one is joined
/// without a password, and for any other the password dialog opens.
pub open spec fn connect_plan(s: AppView, now: u64) -> (AppView, ConnectRequestView) {
    match selected_row(s) {
        None => (s, ConnectRequestView::Nothing),
        Some(n) => match n.status {
            ConnectionStatus::Connected => (
                notified(s, "Already connected"@, NotifLevel::Info, now),
                ConnectRequestView::Nothing,
            ),
            ConnectionStatus::Known => match n.saved_connection_path {
                Some(p) => (
                    s,
                    ConnectRequestView::ActivateSaved { connection_path: p, ap_path: n.ap_path },
                ),
                None => (s, ConnectRequestView::Nothing),
            },
            _ => if n.security == SecurityType::Open {
                (
                    s,
                    ConnectRequestView::Join {
                        ssid: n.ssid,
                        password: seq![],
                        security: SecurityType::Open,
                        ap_path: n.ap_path,
                    },
                )
            } else {
                (AppView { modal: modal_for(n), ..s }, ConnectRequestView::Nothing)
            },
        },
    }
}

/// The notification that ends an attempt to connect.
pub open spec fn after_connect(s: AppView, r: Result<(), NmError>, now: u64) -> AppView {
    match r {
        Ok(()) => notified(s, "Connecting..."@, NotifLevel::Info, now),
        Err(e) => notified(s, "Connection failed: "@ + error_message(e), NotifLevel::Error, now),
    }
}

/// What forgetting the selected network asks of NetworkManager.
#[derive(Clone, Debug)]
pub struct ForgetRequest {
    pub connection_path: String,
    pub ssid: String,
}

impl App {
    /// Connects to the selected network, as `connect_plan` says.
    pub fn connect_selected(&mut self, now: u64) -> (r: ConnectRequest)
        ensures
            (final(self)@, r@) == connect_plan(old(self)@, now),
    {
        let (status, security, ssid, ap_path, saved) = match self.selected_network() {
            Some(n) => (
                n.status,
                n.security,
                n.ssid.clone(),
                n.ap_path.clone(),
                match &n.saved_connection_path {
                    Some(p) => Some(p.clone()),
                    None => None,
                },
            ),
            None => {
                return ConnectRequest::Nothing;
            },
        };
        match status {
            ConnectionStatus::Connected => {
                self.add_notification("Already connected", NotifLevel::Info, now);
                ConnectRequest::Nothing
            },
            ConnectionStatus::Known => match saved {
                Some(p) => ConnectRequest::ActivateSaved { connection_path: p, ap_path },
                None => ConnectRequest::Nothing,
            },
            _ => {
                if security == SecurityType::Open {
                    ConnectRequest::Join {
                        ssid,
                        password: String::new(),
                        security: SecurityType::Open,
                        ap_path,
                    }
                } else {
                    self.password_modal =
                    PasswordModal {
                        visible: true,
                        input: String::new(),
                        cursor: 0,
                        target_ssid: ssid,
                        target_ap_path: ap_path,
                        target_security: security,
                        show_password: false,
                        error_message: None,
                    };
                    ConnectRequest::Nothing
                }
            },
        }
    }

    /// Takes the reply to an `ActivateSaved` or open `Join` request.
    pub fn finish_connect(&mut self, result: Result<(), NmError>, now: u64)
        ensures
            final(self)@ == after_connect(old(self)@, result, now),
    {
        match result {
            Ok(()) => self.add_notification("Connecting...", NotifLevel::Info, now),
            Err(e) => {
                let msg = String::from_str("Connection failed: ").concat(e.to_string().as_str());
                self.add_notification(msg.as_str(), NotifLevel::Error, now);
            },
        }
    }

    /// The request that joins the network of the password dialog with `password`.
    pub fn connect_with_password(&self, password: String) -> (r: ConnectRequest)
        ensures
            r@ == (ConnectRequestView::Join {
                ssid: self@.modal.target_ssid,
                password: password@,
                security: self@.modal.target_security,
                ap_path: self@.modal.target_ap_path,
            }),
    {
        ConnectRequest::Join {
            ssid: self.password_modal.target_ssid.clone(),
            password,
            security: self.password_modal.target_security,
            ap_path: self.password_modal.target_ap_path.clone(),
        }
    }

    /// Takes the reply to a `Join` with a password; answers whether the list
    /// should be refreshed.
    pub fn finish_connect_with_password(&mut self, result: Result<(), NmError>, now: u64) -> (refresh:
        bool)
        ensures
            refresh == result is Ok,
            final(self)@ == (match result {
                Ok(()) => notified(
                    old(self)@,
                    "Connecting to "@ + old(self)@.modal.target_ssid + "..."@,
                    NotifLevel::Info,
                    now,
                ),
                Err(e) => notified(
                    old(self)@,
                    "Connection failed: "@ + error_message(e),
                    NotifLevel::Error,
                    now,
                ),
            }),
    {
        match result {
            Ok(()) => {
                let msg = String::from_str("Connecting to ").concat(
                    self.password_modal.target_ssid.as_str(),
                ).concat("...");
                self.add_notification(msg.as_str(), NotifLevel::Info, now);
                true
            },
            Err(e) => {
                let msg = String::from_str("Connection failed: ").concat(e.to_string().as_str());
                self.add_notification(msg.as_str(), NotifLevel::Error, now);
                false
            },
        }
    }

    /// Takes the reply to a disconnect; answers whether the list should be refreshed.
    pub fn finish_disconnect(&mut self, result: Result<(), NmError>, now: u64) -> (refresh: bool)
        ensures
            refresh == result is Ok,
            final(self)@ == (match result {
                Ok(()) => notified(old(self)@, "Disconnected"@, NotifLevel::Success, now),
                Err(e) => notified(
                    old(self)@,
                    "Disconnect failed: "@ + error_message(e),
                    NotifLevel::Error,
                    now,
                ),
            }),
    {
        match result {
            Ok(()) => {
                self.add_notification("Disconnected", NotifLevel::Success, now);
                true
            },
            Err(e) => {
                let msg = String::from_str("Disconnect failed: ").concat(e.to_string().as_str());
                self.add_notification(msg.as_str(), NotifLevel::Error, now);
                false
            },
        }
    }

    /// Forgets the selected network: a saved one gives the profile to delete,
    /// an unsaved one is reported.
    pub fn forget_selected(&mut self, now: u64) -> (r: Option<ForgetRequest>)
        ensures
            match selected_row(old(self)@) {
                None => r is None && final(self)@ == old(self)@,
                Some(n) => match n.saved_connection_path {
                    Some(p) => r matches Some(f) && f.connection_path@ == p && f.ssid@ == n.ssid
                        && final(self)@ == old(self)@,
                    None => r is None && final(self)@ == notified(
                        old(self)@,
                        "Network is not saved"@,
                        NotifLevel::Warning,
                        now,
                    ),
                },
            },
    {
        let (ssid, saved) = match self.selected_network() {
            Some(n) => (
                n.ssid.clone(),
                match &n.saved_connection_path {
                    Some(p) => Some(p.clone()),
                    None => None,
                },
            ),
            None => {
                return None;
            },
        };
        match saved {
            Some(p) => Some(ForgetRequest { connection_path: p, ssid }),
            None => {
                self.add_notification("Network is not saved", NotifLevel::Warning, now);
                None
            },
        }
    }

    /// Takes the reply to deleting the profile of `ssid`; answers whether the
    /// list should be refreshed.
    pub fn finish_forget(&mut self, ssid: &str, result: Result<(), NmError>, now: u64) -> (refresh:
        bool)
        ensures
            refresh == result is Ok,
            final(self)@ == (match result {
                Ok(()) => notified(old(self)@, "Forgot "@ + ssid@, NotifLevel::Success, now),
                Err(e) => notified(
                    old(self)@,
                    "Forget failed: "@ + error_message(e),
                    NotifLevel::Error,
                    now,
                ),
            }),
    {
        match result {
            Ok(()) => {
                let msg = String::from_str("Forgot ").concat(ssid);
                self.add_notification(msg.as_str(), NotifLevel::Success, now);
                true
            },
            Err(e) => {
                let msg = String::from_str("Forget failed: ").concat(e.to_string().as_str());
                self.add_notification(msg.as_str(), NotifLevel::Error, now);
                false
            },
        }
    }

    /// Starts the scanning animation; the caller then asks for a scan.
    pub fn start_scan(&mut self)
        ensures
            final(self)@ == (AppView { is_scanning: true, scan_tick: 0, ..old(self)@ }),
    {
        self.is_scanning = true;
        self.scan_tick = 0;
    }

    /// Takes the reply to a scan request; a failure stops the animation.
    pub fn finish_scan(&mut self, result: Result<(), NmError>, now: u64)
        ensures
            final(self)@ == (match result {
                Ok(()) => notified(old(self)@, "Scanning..."@, NotifLevel::Info, now),
                Err(e) => AppView {
                    is_scanning: false,
                    ..notified(old(self)@, "Scan failed: "@ + error_message(e), NotifLevel::Error, now)
                },
            }),
    {
        match result {
            Ok(()) => self.add_notification("Scanning...", NotifLevel::Info, now),
            Err(e) => {
                let msg = String::from_str("Scan failed: ").concat(e.to_string().as_str());
                self.add_notification(msg.as_str(), NotifLevel::Error, now);
                self.is_scanning = false;
            },
        }
    }

    /// Takes the reply to switching WiFi: the new state, or the failure;
    /// answers whether the list should be refreshed.
    pub fn finish_toggle_wifi(&mut self, result: Result<bool, NmError>, now: u64) -> (refresh: bool)
        ensures
            refresh == result is Ok,
            final(self)@ == (match result {
                Ok(true) => notified(old(self)@, "WiFi enabled"@, NotifLevel::Success, now),
                Ok(false) => notified(old(self)@, "WiFi disabled"@, NotifLevel::Success, now),
                Err(e) => notified(
                    old(self)@,
                    "WiFi toggle failed: "@ + error_message(e),
                    NotifLevel::Error,
                    now,
                ),
            }),
    {
        match result {
            Ok(enabled) => {
                let msg = if enabled {
                    "WiFi enabled"
                } else {
                    "WiFi disabled"
                };
                self.add_notification(msg, NotifLevel::Success, now);
                true
            },
            Err(e) => {
                let msg = String::from_str("WiFi toggle failed: ").concat(e.to_string().as_str());
                self.add_notification(msg.as_str(), NotifLevel::Error, now);
                false
            },
        }
    }
}

/// A key as the event loop reports it.
#[derive(Clone, Copy, Debug, PartialEq, Eq, Structural)]
pub enum Key {
    Char(char),
    Up,
    Down,
    Left,
    Right,
    Home,
    End,
    Enter,
    Tab,
    Esc,
    Backspace,
    Delete,
    /// Any other key; none of the views acts on it.
    Other,
}

/// A key press: the key, and whether Control, Alt and Shift were held.
#[derive(Clone, Copy, Debug, PartialEq, Eq, Structural)]
pub struct KeyInput {
    pub code: Key,
    pub ctrl: bool,
    pub alt: bool,
    pub shift: bool,
}

/// What a key asks the caller to do.
#[derive(Clone, Debug)]
pub enum Command {
    Nothing,
    Connect,
    Disconnect,
    Forget,
    Scan,
    ToggleWifi,
    Refresh,
    /// Join the network of the password dialog with this password.
    ConnectWithPassword(String),
}

/// A command as text.
pub enum CommandView {
    Nothing,
    Connect,
    Disconnect,
    Forget,
    Scan,
    ToggleWifi,
    Refresh,
    ConnectWithPassword(Seq<char>),
}

impl View for Command {
    type V = CommandView;

    open spec fn view(&self) -> CommandView {
        match self {
            Command::Nothing => CommandView::Nothing,
            Command::Connect => CommandView::Connect,
            Command::Disconnect => CommandView::Disconnect,
            Command::Forget => CommandView::Forget,
            Command::Scan => CommandView::Scan,
            Command::ToggleWifi => CommandView::ToggleWifi,
            Command::Refresh => CommandView::Refresh,
            Command::ConnectWithPassword(p) => CommandView::ConnectWithPassword(p@),
        }
    }
}

/// The error shown when the password is left empty.
pub open spec fn empty_password_message() -> Seq<char> {
    "Password cannot be empty"@
}

/// A key while the password dialog is open: Enter submits a non-empty
/// password, Esc closes and clears the dialog, Tab shows or hides the
/// password, Ctrl+u clears it, and every other key goes to the text field,
/// which edits its text and moves its cursor as `field_after_key` says.
pub open spec fn password_key(s: AppView, key: KeyInput) -> (AppView, CommandView) {
    match key.code {
        Key::Enter => if s.modal.input.len() == 0 {
            (
                AppView {
                    modal: ModalView { error_message: Some(empty_password_message()), ..s.modal },
                    ..s
                },
                CommandView::Nothing,
            )
        } else {
            (
                AppView { modal: ModalView { visible: false, ..s.modal }, ..s },
                CommandView::ConnectWithPassword(s.modal.input),
            )
        },
        Key::Esc => (
            AppView {
                modal: ModalView {
                    visible: false,
                    input: seq![],
                    cursor: 0,
                    error_message: None,
                    ..s.modal
                },
                ..s
            },
            CommandView::Nothing,
        ),
        Key::Tab => (
            AppView { modal: ModalView { show_password: !s.modal.show_password, ..s.modal }, ..s },
            CommandView::Nothing,
        ),
        Key::Char(c) if c == 'u' && key.ctrl => (
            AppView { modal: ModalView { input: seq![], cursor: 0, ..s.modal }, ..s },
            CommandView::Nothing,
        ),
        _ => (edited_field(s, key), CommandView::Nothing),
    }
}

/// The state after the text field of the password dialog handles `key`.
pub open spec fn edited_field(s: AppView, key: KeyInput) -> AppView {
    let (text, cursor) = field_after_key(s.modal.input, s.modal.cursor, key);
    AppView { modal: ModalView { input: text, cursor, ..s.modal }, ..s }
}

/// A key in the main view: q or Ctrl+c quits, j/k and the arrows move the
/// selection, g and G jump to the first and last row, Enter or Space
/// connects, d disconnects, f forgets, s scans, w switches WiFi, r refreshes
/// and Tab switches panels. While the password dialog is open, keys go to it.
pub open spec fn key_transition(s: AppView, key: KeyInput) -> (AppView, CommandView) {
    if s.modal.visible {
        password_key(s, key)
    } else {
        match key.code {
            Key::Char(c) => if c == 'q' || (c == 'c' && key.ctrl) {
                (AppView { running: false, ..s }, CommandView::Nothing)
            } else if c == 'j' {
                (selection_down(s), CommandView::Nothing)
            } else if c == 'k' {
                (selection_up(s), CommandView::Nothing)
            } else if c == 'g' {
                (selection_first(s), CommandView::Nothing)
            } else if c == 'G' {
                (selection_last(s), CommandView::Nothing)
            } else if c == ' ' {
                (s, CommandView::Connect)
            } else if c == 'd' {
                (s, CommandView::Disconnect)
            } else if c == 'f' {
                (s, CommandView::Forget)
            } else if c == 's' {
                (s, CommandView::Scan)
            } else if c == 'w' {
                (s, CommandView::ToggleWifi)
            } else if c == 'r' {
                (s, CommandView::Refresh)
            } else {
                (s, CommandView::Nothing)
            },
            Key::Down => (selection_down(s), CommandView::Nothing),
            Key::Up => (selection_up(s), CommandView::Nothing),
            Key::Enter => (s, CommandView::Connect),
            Key::Tab => (AppView { focused: other_panel(s.focused), ..s }, CommandView::Nothing),
            _ => (s, CommandView::Nothing),
        }
    }
}

impl App {
    /// Handles a key press, as `key_transition` says.
    pub fn handle_key_event(&mut self, key: KeyInput) -> (r: Command)
        ensures
            (final(self)@, r@) == key_transition(old(self)@, key),
            old(self).password_modal.visible ==> (key.code matches Key::Char(c) ==> !key.ctrl
                && !key.alt ==> (final(self)@.modal.input, final(self)@.modal.cursor) == typed_into(
                old(self)@.modal.input,
                old(self)@.modal.cursor,
                c,
            )),
            old(self).password_modal.visible && key.code == Key::Backspace && !key.ctrl && !key.alt
                && !key.shift ==> (final(self)@.modal.input, final(self)@.modal.cursor) == backspaced(
                old(self)@.modal.input,
                old(self)@.modal.cursor,
            ),
    {
        if self.password_modal.visible {
            return self.handle_password_input(key);
        }
        match key.code {
            Key::Char(c) => {
                if c == 'q' || (c == 'c' && key.ctrl) {
                    self.running = false;
                    Command::Nothing
                } else if c == 'j' {
                    self.select_next();
                    Command::Nothing
                } else if c == 'k' {
                    self.select_previous();
                    Command::Nothing
                } else if c == 'g' {
                    self.select_first();
                    Command::Nothing
                } else if c == 'G' {
                    self.select_last();
                    Command::Nothing
                } else if c == ' ' {
                    Command::Connect
                } else if c == 'd' {
                    Command::Disconnect
                } else if c == 'f' {
                    Command::Forget
                } else if c == 's' {
                    Command::Scan
                } else if c == 'w' {
                    Command::ToggleWifi
                } else if c == 'r' {
                    Command::Refresh
                } else {
                    Command::Nothing
                }
            },
            Key::Down => {
                self.select_next();
                Command::Nothing
            },
            Key::Up => {
                self.select_previous();
                Command::Nothing
            },
            Key::Enter => Command::Connect,
            Key::Tab => {
                self.toggle_focus();
                Command::Nothing
            },
            _ => Command::Nothing,
        }
    }

    fn handle_password_input(&mut self, key: KeyInput) -> (r: Command)
        ensures
            (final(self)@, r@) == password_key(old(self)@, key),
            key.code matches Key::Char(c) ==> !key.ctrl && !key.alt ==> (
            final(self)@.modal.input,
            final(self)@.modal.cursor,
            ) == typed_into(old(self)@.modal.input, old(self)@.modal.cursor, c),
            key.code == Key::Backspace && !key.ctrl && !key.alt && !key.shift ==> (
            final(self)@.modal.input,
            final(self)@.modal.cursor,
            ) == backspaced(old(self)@.modal.input, old(self)@.modal.cursor),
    {
        match key.code {
            Key::Enter => {
                let password = self.password_modal.input.clone();
                if password.as_str().is_empty() {
                    self.password_modal.error_message = Some(
                        String::from_str("Password cannot be empty"),
                    );
                    return Command::Nothing;
                }
                self.password_modal.visible = false;
                Command::ConnectWithPassword(password)
            },
            Key::Esc => {
                self.password_modal.visible = false;
                self.password_modal.input = String::new();
                self.password_modal.cursor = 0;
                self.password_modal.error_message = None;
                Command::Nothing
            },
            Key::Tab => {
                self.password_modal.show_password = !self.password_modal.show_password;
                Command::Nothing
            },
            Key::Char(c) if c == 'u' && key.ctrl => {
                self.password_modal.input = String::new();
                self.password_modal.cursor = 0;
                Command::Nothing
            },
            _ => {
                let (text, cursor) = edit_password_field(
                    self.password_modal.input.as_str(),
                    self.password_modal.cursor,
                    key,
                );
                self.password_modal.input = text;
                self.password_modal.cursor = cursor;
                Command::Nothing
            },
        }
    }
}

/// Switching panels twice comes back to the first panel.
pub proof fn lemma_toggle_focus_twice(s: AppView)
    ensures
        other_panel(other_panel(s.focused)) == s.focused,
{
}

/// Moving up undoes moving down from any row but the last, and moving down
/// undoes moving up from any row but the first.
pub proof fn lemma_selection_moves_undo(s: AppView, i: usize)
    requires
        s.selected == Some(i),
        i < s.networks.len() <= usize::MAX,
    ensures
        i + 1 < s.networks.len() ==> selection_up(selection_down(s)) == s,
        i > 0 ==> selection_down(selection_up(s)) == s,
{
    if i + 1 < s.networks.len() {
        let d = selection_down(s);
        assert(d.selected == Some((i + 1) as usize));
        assert(d.networks.len() == s.networks.len());
        assert(selection_up(d).selected == Some(i));
        assert(selection_up(d) =~= s);
    }
}

/// A selection that points at a row keeps pointing at a row after any move,
/// and replacing the list leaves a selection on a row of the new list, or
/// none when it is empty.
pub proof fn lemma_selection_stays_on_a_row(s: AppView, len: nat)
    ensures
        (s.selected matches Some(i) && i < s.networks.len()) ==> {
            &&& selection_down(s).selected matches Some(j) && j < s.networks.len()
            &&& selection_up(s).selected matches Some(j) && j < s.networks.len()
            &&& selection_first(s).selected matches Some(j) && j < s.networks.len()
            &&& selection_last(s).selected matches Some(j) && j < s.networks.len()
        },
        clamped_selection(s.selected, len) is None <==> len == 0,
        clamped_selection(s.selected, len) matches Some(j) ==> j < len,
{
}

/// After a tick the animation counter is below its limit while scanning,
/// only notifications that are still due remain, and every tick that asks
/// for a scan also asks for a refresh.
pub proof fn lemma_tick_bounds(s: AppView, now: u64)
    requires
        s.tick_count < usize::MAX,
        s.is_scanning ==> s.scan_tick < usize::MAX,
    ensures
        ticked(s, now).is_scanning ==> ticked(s, now).scan_tick < 20,
        forall|i: int|
            0 <= i < ticked(s, now).notifications.len() ==> alive(
                #[trigger] ticked(s, now).notifications[i],
                now,
            ),
        ticked(s, now).tick_count % 120 == 0 ==> ticked(s, now).tick_count % 40 == 0,
{
    let t = ticked(s, now);
    assert forall|i: int| 0 <= i < t.notifications.len() implies alive(
        #[trigger] t.notifications[i],
        now,
    ) by {
        s.notifications.lemma_filter_pred(alive_at(now), i);
    }
}

/// The state after ticks at the times `nows`, one after another.
pub open spec fn ticked_times(s: AppView, nows: Seq<u64>) -> AppView
    decreases nows.len(),
{
    if nows.len() == 0 {
        s
    } else {
        ticked(ticked_times(s, nows.drop_last()), nows.last())
    }
}

/// A scan animation started afresh, as `start_scan` starts it, runs through
/// the next 19 ticks with its counter giving the number of ticks so far, and
/// the 20th tick stops it and resets the counter. The tick counter goes up
/// by one at each tick.
pub proof fn lemma_scan_animation_lasts_twenty_ticks(s: AppView, nows: Seq<u64>)
    requires
        s.is_scanning,
        s.scan_tick == 0,
        nows.len() <= 20,
    ensures
        nows.len() < 20 ==> ticked_times(s, nows).is_scanning && ticked_times(s, nows).scan_tick
            == nows.len(),
        nows.len() == 20 ==> !ticked_times(s, nows).is_scanning && ticked_times(s, nows).scan_tick
            == 0,
        s.tick_count + nows.len() <= usize::MAX ==> ticked_times(s, nows).tick_count == s.tick_count
            + nows.len(),
    decreases nows.len(),
{
    if nows.len() > 0 {
        lemma_scan_animation_lasts_twenty_ticks(s, nows.drop_last());
    }
}

/// While the password dialog is open, no key quits, changes the network
/// list or moves the selection; Esc closes the dialog and clears its field
/// and error; Enter with an empty field keeps the dialog open, shows the
/// error and asks nothing; Enter with a password closes the dialog and asks
/// to join with exactly that password; Ctrl+u empties the field; every
/// other key is handed to the text field and asks nothing; and no key but
/// Enter on a password asks anything of NetworkManager.
pub proof fn lemma_password_dialog(s: AppView, key: KeyInput)
    requires
        s.modal.visible,
    ensures
        key_transition(s, key).0.running == s.running,
        key_transition(s, key).0.networks == s.networks,
        key_transition(s, key).0.selected == s.selected,
        key_transition(s, key).0.notifications == s.notifications,
        key.code == Key::Esc ==> {
            &&& !key_transition(s, key).0.modal.visible
            &&& key_transition(s, key).0.modal.input.len() == 0
            &&& key_transition(s, key).0.modal.error_message is None
        },
        key.code == Key::Enter && s.modal.input.len() == 0 ==> {
            &&& key_transition(s, key).0.modal.visible
            &&& key_transition(s, key).0.modal.error_message == Some(empty_password_message())
            &&& key_transition(s, key).1 is Nothing
        },
        key.code == Key::Enter && s.modal.input.len() > 0 ==> {
            &&& !key_transition(s, key).0.modal.visible
            &&& key_transition(s, key).1 == CommandView::ConnectWithPassword(s.modal.input)
        },
        key.code == Key::Char('u') && key.ctrl ==> {
            &&& key_transition(s, key).0.modal.visible
            &&& key_transition(s, key).0.modal.input.len() == 0
            &&& key_transition(s, key).0.modal.cursor == 0
        },
        key.code != Key::Enter && key.code != Key::Esc && key.code != Key::Tab && !(key.code
            == Key::Char('u') && key.ctrl) ==> {
            &&& key_transition(s, key).0.modal.visible
            &&& (key_transition(s, key).0.modal.input, key_transition(s, key).0.modal.cursor)
                == field_after_key(s.modal.input, s.modal.cursor, key)
            &&& key_transition(s, key).1 is Nothing
        },
        key_transition(s, key).1 is Nothing || (key.code == Key::Enter && s.modal.input.len() > 0),
{
}

/// In the main view, a key never changes the network list, the notifications
/// or the password dialog, and only q and Ctrl+c stop the application.
pub proof fn lemma_main_view_keys(s: AppView, key: KeyInput)
    requires
        !s.modal.visible,
    ensures
        key_transition(s, key).0.networks == s.networks,
        key_transition(s, key).0.notifications == s.notifications,
        key_transition(s, key).0.modal == s.modal,
        !key_transition(s, key).0.running <==> (!s.running || key.code == Key::Char('q') || (
        key.code == Key::Char('c') && key.ctrl)),
{
}


/// A refresh keeps the selection where it was: when the new list has `len`
/// rows, a selected row that still exists stays selected, one past the end
/// moves to the last row, no selection becomes the first row, and an empty
/// list has no selection. The list and the selection are all a successful
/// refresh changes.
pub proof fn lemma_refresh_keeps_selection(s: AppView, rows: Seq<NetworkView>, now: u64)
    ensures
        rows.len() > 0 ==> (s.selected matches Some(i) && i < rows.len()) ==> after_network_refresh(
            s,
            Ok(rows),
            now,
        ).selected == s.selected,
        rows.len() > 0 ==> (s.selected matches Some(i) && i >= rows.len()) ==> after_network_refresh(
            s,
            Ok(rows),
            now,
        ).selected == Some((rows.len() - 1) as usize),
        rows.len() > 0 && s.selected is None ==> after_network_refresh(s, Ok(rows), now).selected
            == Some(0usize),
        rows.len() == 0 ==> after_network_refresh(s, Ok(rows), now).selected is None,
        after_network_refresh(s, Ok(rows), now) == (AppView {
            networks: rows,
            selected: after_network_refresh(s, Ok(rows), now).selected,
            ..s
        }),
        forall|len: nat, i: usize|
            0 < len && i < len ==> #[trigger] clamped_selection(Some(i), len) == Some(i),
        forall|len: nat, i: usize|
            0 < len <= i ==> #[trigger] clamped_selection(Some(i), len) == Some((len - 1) as usize),
{
}

/// In the password dialog Tab shows a hidden password and hides a shown
/// one, asking nothing; a second Tab gives back the state before the first.
pub proof fn lemma_tab_toggles_password(s: AppView, key: KeyInput)
    requires
        s.modal.visible,
        key.code == Key::Tab,
    ensures
        key_transition(s, key).0.modal.show_password == !s.modal.show_password,
        key_transition(s, key).0 == (AppView {
            modal: ModalView { show_password: !s.modal.show_password, ..s.modal },
            ..s
        }),
        key_transition(s, key).1 is Nothing,
        key_transition(key_transition(s, key).0, key).0 == s,
        key_transition(key_transition(s, key).0, key).1 is Nothing,
{
    let t = key_transition(s, key).0;
    assert(t.modal.visible);
    assert(key_transition(t, key).0.modal =~= s.modal);
}

/// Connecting to a known network that carries its saved profile activates
/// that profile on the row's access point and changes nothing else,
/// whatever its security; an open network that is neither connected nor
/// known is joined without a password; a protected one opens the password
/// dialog for it.
pub proof fn lemma_connect_uses_saved_profile(s: AppView, now: u64)
    ensures
        selected_row(s) matches Some(n) ==> n.status == ConnectionStatus::Known ==> (
        n.saved_connection_path matches Some(p) ==> connect_plan(s, now) == (
            s,
            ConnectRequestView::ActivateSaved { connection_path: p, ap_path: n.ap_path },
        )),
        selected_row(s) matches Some(n) ==> (n.status != ConnectionStatus::Known && n.status
            != ConnectionStatus::Connected && n.security == SecurityType::Open) ==> connect_plan(
            s,
            now,
        ) == (
            s,
            ConnectRequestView::Join {
                ssid: n.ssid,
                password: seq![],
                security: SecurityType::Open,
                ap_path: n.ap_path,
            },
        ),
        selected_row(s) matches Some(n) ==> (n.status != ConnectionStatus::Known && n.status
            != ConnectionStatus::Connected && n.security != SecurityType::Open) ==> (connect_plan(
            s,
            now,
        ).1 is Nothing && connect_plan(s, now).0.modal.visible && connect_plan(s, now).0.modal.target_ssid
            == n.ssid && connect_plan(s, now).0.modal.target_ap_path == n.ap_path
            && connect_plan(s, now).0.modal.input.len() == 0),
{
}

} // verus!
