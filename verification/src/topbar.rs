//! The top bar and its control panel: the toggles and sliders mirrored from
//! the settings daemon, the battery reading, the clock, and the decisions
//! the bar takes about its panel window.

use vstd::prelude::*;
use crate::settings::{Number, SettingEntry, SettingKey, SettingValue, SettingsEvent};
use crate::text::{
    contains, contains_str, decimal, digit_char, eq_chars, parse_u8, parse_unsigned, strip_trailing, to_chars, trim,
    trim_end_char, trimmed,
};

verus! {

/// What the bar mirrors of the settings daemon.
#[derive(Clone, Copy)]
pub struct TopbarState {
    pub wifi: bool,
    pub bt: bool,
    pub volume: Number,
    pub muted: bool,
    pub brightness: Number,
    pub dnd: bool,
    /// Whether the daemon answered the last full query.
    pub connected: bool,
}

/// Volume before the daemon answers: 65.0.
pub const INITIAL_VOLUME_BITS: u64 = 0x4050400000000000;

/// Brightness before the daemon answers: 72.0.
pub const INITIAL_BRIGHTNESS_BITS: u64 = 0x4052000000000000;

/// Whether a Do Not Disturb value turns it on: a text other than `off`, or
/// `true`.
pub open spec fn dnd_on(val: SettingValue) -> bool {
    (val.text_of() is Some && val.text_of()->0 != "off"@) || val.bool_of() == Some(true)
}

/// The bar after the daemon reported `val` for `key`: Wi-Fi, Bluetooth and
/// mute take a boolean, volume and brightness a number, Do Not Disturb any
/// value (see [`dnd_on`]); a value of the wrong kind, and any other key,
/// change nothing.
pub open spec fn topbar_applied(s: TopbarState, key: SettingKey, val: SettingValue) -> TopbarState {
    match key {
        SettingKey::WifiEnabled => match val.bool_of() {
            Some(b) => TopbarState { wifi: b, ..s },
            None => s,
        },
        SettingKey::BluetoothEnabled => match val.bool_of() {
            Some(b) => TopbarState { bt: b, ..s },
            None => s,
        },
        SettingKey::AudioVolume => match val.number_of() {
            Some(n) => TopbarState { volume: n, ..s },
            None => s,
        },
        SettingKey::AudioMuted => match val.bool_of() {
            Some(b) => TopbarState { muted: b, ..s },
            None => s,
        },
        SettingKey::DisplayBrightness => match val.number_of() {
            Some(n) => TopbarState { brightness: n, ..s },
            None => s,
        },
        SettingKey::DoNotDisturb => TopbarState { dnd: dnd_on(val), ..s },
        _ => s,
    }
}

/// The bar after a batch of entries, applied in order.
pub open spec fn topbar_batch(s: TopbarState, es: Seq<SettingEntry>) -> TopbarState
    decreases es.len(),
{
    if es.len() == 0 {
        s
    } else {
        topbar_applied(topbar_batch(s, es.drop_last()), es.last().key, es.last().value)
    }
}

/// What the bar has to do after handling a daemon event.
pub enum TopbarAction {
    /// Nothing more.
    Nothing,
    /// Fetch every setting again and load the batch.
    Reload,
}

/// Decides [`dnd_on`].
pub fn dnd_from(val: &SettingValue) -> (r: bool)
    ensures
        r == dnd_on(*val),
{
    let by_text = match val.as_str() {
        Some(t) => {
            let c = to_chars(t);
            let off = to_chars("off");
            !eq_chars(c.as_slice(), off.as_slice())
        },
        None => false,
    };
    let by_bool = match val.as_bool() {
        Some(b) => b,
        None => false,
    };
    by_text || by_bool
}

impl TopbarState {
    /// The bar before the daemon answers: Wi-Fi and Bluetooth on, volume
    /// 65, brightness 72, not muted, Do Not Disturb off, not connected.
    pub fn new() -> (r: TopbarState)
        ensures
            r == (TopbarState {
                wifi: true,
                bt: true,
                volume: Number::Float(INITIAL_VOLUME_BITS),
                muted: false,
                brightness: Number::Float(INITIAL_BRIGHTNESS_BITS),
                dnd: false,
                connected: false,
            }),
    {
        TopbarState {
            wifi: true,
            bt: true,
            volume: Number::Float(INITIAL_VOLUME_BITS),
            muted: false,
            brightness: Number::Float(INITIAL_BRIGHTNESS_BITS),
            dnd: false,
            connected: false,
        }
    }

    /// Applies a value the daemon reported (see [`topbar_applied`]).
    pub fn apply_entry(&mut self, key: &SettingKey, val: &SettingValue)
        ensures
            *final(self) == topbar_applied(*old(self), *key, *val),
    {
        match key {
            SettingKey::WifiEnabled => {
                if let Some(b) = val.as_bool() {
                    self.wifi = b;
                }
            },
            SettingKey::BluetoothEnabled => {
                if let Some(b) = val.as_bool() {
                    self.bt = b;
                }
            },
            SettingKey::AudioVolume => {
                if let Some(n) = val.as_f64() {
                    self.volume = n;
                }
            },
            SettingKey::AudioMuted => {
                if let Some(b) = val.as_bool() {
                    self.muted = b;
                }
            },
            SettingKey::DisplayBrightness => {
                if let Some(n) = val.as_f64() {
                    self.brightness = n;
                }
            },
            SettingKey::DoNotDisturb => {
                self.dnd = dnd_from(val);
            },
            _ => {},
        }
    }

    /// Loads the answer to a full query: the entries applied in order and
    /// the bar marked connected, or, when the daemon did not answer, marked
    /// not connected.
    pub fn load_batch(&mut self, entries: Option<&[SettingEntry]>)
        ensures
            match entries {
                Some(es) => *final(self) == (TopbarState {
                    connected: true,
                    ..topbar_batch(*old(self), es@)
                }),
                None => *final(self) == (TopbarState { connected: false, ..*old(self) }),
            },
    {
        match entries {
            Some(es) => {
                let ghost start = *self;
                let mut i: usize = 0;
                while i < es.len()
                    invariant
                        i <= es@.len(),
                        *self == topbar_batch(start, es@.take(i as int)),
                    decreases es.len() - i,
                {
                    self.apply_entry(&es[i].key, &es[i].value);
                    assert(es@.take(i + 1).drop_last() =~= es@.take(i as int));
                    i = i + 1;
                }
                assert(es@.take(es.len() as int) =~= es@);
                self.connected = true;
            },
            None => {
                self.connected = false;
            },
        }
    }

    /// Handles an event from the daemon: a change is applied; after a
    /// reload the caller fetches every setting again; lock changes and
    /// alerts change nothing.
    pub fn handle_event(&mut self, event: &SettingsEvent) -> (r: TopbarAction)
        ensures
            match *event {
                SettingsEvent::Changed { key, value, .. } => r is Nothing && *final(self) == topbar_applied(
                    *old(self),
                    key,
                    value,
                ),
                SettingsEvent::Reloaded => r is Reload && *final(self) == *old(self),
                _ => r is Nothing && *final(self) == *old(self),
            },
    {
        match event {
            SettingsEvent::Changed { key, value, .. } => {
                self.apply_entry(key, value);
                TopbarAction::Nothing
            },
            SettingsEvent::Reloaded => TopbarAction::Reload,
            _ => TopbarAction::Nothing,
        }
    }
}

/// The battery charge in percent that a capacity text such as ` 87% ` gives:
/// the number before any trailing `%` signs, 0 when it is not one, and at
/// most 100.
pub open spec fn capacity_pct(capacity: Seq<char>) -> u8 {
    match parse_unsigned(strip_trailing(trimmed(capacity), '%'), 255) {
        Some(n) => if n > 100 {
            100
        } else {
            n as u8
        },
        None => 0,
    }
}

/// Reads a battery capacity text (see [`capacity_pct`]).
pub fn parse_capacity_pct(capacity: &str) -> (r: u8)
    ensures
        r == capacity_pct(capacity@),
        r <= 100,
{
    let c = to_chars(capacity);
    let t = trim_end_char(trim(c.as_slice()), '%');
    match parse_u8(t) {
        Some(n) => if n > 100 {
            100
        } else {
            n
        },
        None => 0,
    }
}

/// Whether the machine has a battery to show: both its capacity and its
/// status are known.
pub fn has_battery(capacity: &str, status: &str) -> (r: bool)
    ensures
        r == (capacity@ != "Unknown"@ && status@ != "Unknown"@),
{
    let c = to_chars(capacity);
    let s = to_chars(status);
    let u = to_chars("Unknown");
    !eq_chars(c.as_slice(), u.as_slice()) && !eq_chars(s.as_slice(), u.as_slice())
}

/// Whether the battery icon warns: the charge is 20% or less.
pub fn battery_low(pct: u8) -> (r: bool)
    ensures
        r == (pct <= 20),
{
    !(pct > 20)
}

/// Two decimal digits of `n`, with a leading zero below ten.
pub open spec fn two_digits(n: nat) -> Seq<char> {
    seq![digit_char(n / 10), digit_char(n % 10)]
}

/// The clock as the bar shows it: `HH:MM`.
pub open spec fn clock_face(hour: nat, minute: nat) -> Seq<char> {
    two_digits(hour) + seq![':'] + two_digits(minute)
}

fn digit(d: u32) -> (r: char)
    requires
        d < 10,
    ensures
        r == digit_char(d as nat),
{
    ((d as u8) + 48u8) as char
}

/// The clock text for an hour and a minute (see [`clock_face`]).
pub fn clock_text(hour: u32, minute: u32) -> (r: String)
    requires
        hour < 24,
        minute < 60,
    ensures
        r@ == clock_face(hour as nat, minute as nat),
{
    let v: Vec<char> = vec![digit(hour / 10), digit(hour % 10), ':', digit(minute / 10), digit(minute % 10)];
    assert(v@ =~= clock_face(hour as nat, minute as nat));
    crate::text::string_from_chars(v.as_slice())
}

/// The hour and minute of the day at `secs` seconds after the Unix epoch,
/// in a time zone `offset` seconds east of UTC.
pub open spec fn clock_at(secs: int, offset: int) -> (nat, nat) {
    let t = secs + offset;
    ((t % 86400) as nat / 3600, (t % 3600) as nat / 60)
}

/// The clock in a time zone `offset` seconds east of UTC shows what the
/// clock at UTC shows `offset` seconds later; and a zone one hour further
/// east shows the same minute and the next hour (after 23 comes 0).
pub proof fn law_clock_zones(secs: int, offset: int)
    ensures
        clock_at(secs, offset) == clock_at(secs + offset, 0),
        clock_at(secs, offset + 3600).0 == (clock_at(secs, offset).0 + 1) % 24,
        clock_at(secs, offset + 3600).1 == clock_at(secs, offset).1,
{
    let t = secs + offset;
    let d = t % 86400;
    let q = t / 86400;
    vstd::arithmetic::div_mod::lemma_fundamental_div_mod(t, 86400);
    assert(0 <= d < 86400);
    assert(t == q * 86400 + d);
    if d + 3600 < 86400 {
        vstd::arithmetic::div_mod::lemma_fundamental_div_mod_converse(t + 3600, 86400, q, d + 3600);
    } else {
        vstd::arithmetic::div_mod::lemma_fundamental_div_mod_converse(t + 3600, 86400, q + 1, d + 3600 - 86400);
    }
    let hq = t / 3600;
    let hr = t % 3600;
    vstd::arithmetic::div_mod::lemma_fundamental_div_mod(t, 3600);
    vstd::arithmetic::div_mod::lemma_fundamental_div_mod_converse(t + 3600, 3600, hq + 1, hr);
    let dh = d / 3600;
    let dr = d % 3600;
    vstd::arithmetic::div_mod::lemma_fundamental_div_mod(d, 3600);
    assert(0 <= dh < 24);
    if d + 3600 < 86400 {
        vstd::arithmetic::div_mod::lemma_fundamental_div_mod_converse(d + 3600, 3600, dh + 1, dr);
    } else {
        assert(dh == 23);
        vstd::arithmetic::div_mod::lemma_fundamental_div_mod_converse(d + 3600 - 86400, 3600, 0, dr);
    }
}

/// At UTC, `h` hours, `m` minutes and `sec` seconds into any day (before
/// or after the epoch) the clock shows `h` and `m`.
pub proof fn law_clock_reads_time_of_day(day: int, h: int, m: int, sec: int)
    requires
        0 <= h < 24,
        0 <= m < 60,
        0 <= sec < 60,
    ensures
        clock_at(86400 * day + 3600 * h + 60 * m + sec, 0) == (h as nat, m as nat),
{
    let t = 86400 * day + 3600 * h + 60 * m + sec;
    let r = 3600 * h + 60 * m + sec;
    vstd::arithmetic::div_mod::lemma_fundamental_div_mod_converse(t, 86400, day, r);
    vstd::arithmetic::div_mod::lemma_fundamental_div_mod_converse(r, 3600, h, 60 * m + sec);
    vstd::arithmetic::div_mod::lemma_fundamental_div_mod_converse(t, 3600, 24 * day + h, 60 * m + sec);
    vstd::arithmetic::div_mod::lemma_fundamental_div_mod_converse(60 * m + sec, 60, m, sec);
}

/// The clock text at `secs` seconds after the Unix epoch (before it when
/// negative) in a time zone `offset` seconds east of UTC (see [`clock_at`]
/// and [`clock_face`]).
pub fn clock_at_time(secs: i128, offset: i32) -> (r: String)
    requires
        -0x1_0000_0000_0000_0000_0000 <= secs <= 0x1_0000_0000_0000_0000_0000,
        -86400 < offset < 86400,
    ensures
        r@ == clock_face(clock_at(secs as int, offset as int).0, clock_at(secs as int, offset as int).1),
{
    let shift: i128 = 86400 * 0x1_0000_0000_0000_0000_0000;
    let ts: i128 = secs + offset as i128 + shift;
    let t: u128 = ts as u128;
    let ghost ti: int = secs + offset;
    assert(t == ti + shift);
    let day: u128 = t % 86400;
    let hour_part: u128 = t % 3600;
    proof {
        let k: int = 0x1_0000_0000_0000_0000_0000;
        assert(shift == 86400 * k);
        vstd::arithmetic::div_mod::lemma_mod_multiples_vanish(k, ti, 86400);
        assert((ti + shift) % 86400 == ti % 86400);
        vstd::arithmetic::div_mod::lemma_mod_multiples_vanish(24 * k, ti, 3600);
        assert(3600 * (24 * k) == shift) by (nonlinear_arith)
            requires
                shift == 86400 * k,
        ;
        assert((ti + shift) % 3600 == ti % 3600);
    }
    let h = (day / 3600) as u32;
    let m = (hour_part / 60) as u32;
    clock_text(h, m)
}

/// The system clock's reading.
#[verifier::external_type_specification]
#[verifier::external_body]
pub struct ExSystemTime(std::time::SystemTime);

/// The error of a clock reading taken before the time it is measured from.
#[verifier::external_type_specification]
#[verifier::external_body]
pub struct ExSystemTimeError(std::time::SystemTimeError);

/// The system clock's current reading.
///
/// Trusted: calls `std::time::SystemTime::now`; nothing is claimed of the
/// reading, which depends on the machine's clock.
#[verifier::external_body]
fn system_now() -> (r: std::time::SystemTime) {
    std::time::SystemTime::now()
}

/// The time from the Unix epoch to `t`, or, when `t` is before the epoch,
/// the error that holds how far before.
///
/// Trusted: calls `SystemTime::duration_since` with `UNIX_EPOCH`; nothing is
/// claimed of the result, which depends on the clock's reading.
#[verifier::external_body]
fn epoch_distance(t: &std::time::SystemTime) -> (r: Result<std::time::Duration, std::time::SystemTimeError>) {
    t.duration_since(std::time::UNIX_EPOCH)
}

/// How far before the epoch a reading was.
///
/// Trusted: calls `SystemTimeError::duration`; nothing is claimed of the
/// duration, which is opaque here.
#[verifier::external_body]
fn error_distance(e: &std::time::SystemTimeError) -> (r: std::time::Duration) {
    e.duration()
}

/// The whole seconds of a duration.
///
/// Trusted: calls `Duration::as_secs`, which never panics; the duration is
/// opaque here, so nothing is claimed of the number.
#[verifier::external_body]
fn whole_seconds(d: &std::time::Duration) -> (r: u64) {
    d.as_secs()
}

/// The nanoseconds of a duration beyond its whole seconds.
///
/// Trusted: calls `Duration::subsec_nanos`; the duration is opaque here, so
/// nothing is claimed of the number.
#[verifier::external_body]
fn fraction_nanos(d: &std::time::Duration) -> (r: u32) {
    d.subsec_nanos()
}

/// The current time as `HH:MM` in a time zone `offset` seconds east of
/// UTC, also when the system clock reads before 1970.
pub fn clock_now(offset: i32) -> (r: String)
    requires
        -86400 < offset < 86400,
    ensures
        exists|secs: int|
            r@ == clock_face(#[trigger] clock_at(secs, offset as int).0, clock_at(secs, offset as int).1),
{
    let now = system_now();
    let secs: i128 = match epoch_distance(&now) {
        Ok(d) => whole_seconds(&d) as i128,
        Err(e) => {
            let d = error_distance(&e);
            let whole = whole_seconds(&d) as i128;
            if fraction_nanos(&d) > 0 {
                0 - whole - 1
            } else {
                0 - whole
            }
        },
    };
    let s = clock_at_time(secs, offset);
    assert(s@ == clock_face(clock_at(secs as int, offset as int).0, clock_at(secs as int, offset as int).1));
    s
}

/// What a power button asks the system to do.
#[derive(Clone, Copy, PartialEq, Eq, Structural)]
pub enum PowerAction {
    LogOut,
    Reboot,
    PowerOff,
}

/// The power action a button's name asks for: `logout`, `reboot`, and
/// anything else powers off.
pub fn power_action(action: &str) -> (r: PowerAction)
    ensures
        r == if action@ == "logout"@ {
            PowerAction::LogOut
        } else if action@ == "reboot"@ {
            PowerAction::Reboot
        } else {
            PowerAction::PowerOff
        },
{
    let a = to_chars(action);
    let logout = to_chars("logout");
    let reboot = to_chars("reboot");
    if eq_chars(a.as_slice(), logout.as_slice()) {
        PowerAction::LogOut
    } else if eq_chars(a.as_slice(), reboot.as_slice()) {
        PowerAction::Reboot
    } else {
        PowerAction::PowerOff
    }
}

/// What a click on the bar does to the control panel.
#[derive(Clone, Copy, PartialEq, Eq, Structural)]
pub enum PanelToggle {
    /// Close the panel window the bar opened (and forget it).
    CloseKnown,
    /// Close the panel window by its class, since the bar knows no window.
    CloseByClass,
    /// Open a new panel window and move it into place.
    Launch,
}

/// The panel toggle: a panel window the bar knows is closed; otherwise one
/// that the window manager shows is closed by its class; otherwise a new
/// one opens.
pub fn panel_toggle(panel_shown: bool, window_known: bool) -> (r: PanelToggle)
    ensures
        r == if window_known {
            PanelToggle::CloseKnown
        } else if panel_shown {
            PanelToggle::CloseByClass
        } else {
            PanelToggle::Launch
        },
{
    if window_known {
        PanelToggle::CloseKnown
    } else if panel_shown {
        PanelToggle::CloseByClass
    } else {
        PanelToggle::Launch
    }
}

/// Whether the window manager's client list (`hyprctl clients -j`) shows
/// the panel.
pub fn clients_show_panel(clients: &str) -> (r: bool)
    ensures
        r == contains(clients@, "topbar-panel"@),
{
    let c = to_chars(clients);
    let p = to_chars("topbar-panel");
    contains_str(c.as_slice(), p.as_slice())
}

/// Whether the panel closes itself, given the active window that
/// `hyprctl activewindow -j` reports: not when there is none (blank, or an
/// empty class), not when the panel or the bar is active, else yes.
pub open spec fn panel_should_close(active: Seq<char>) -> bool {
    if trimmed(active).len() == 0 || contains(active, "\"class\": \"\""@) {
        false
    } else if contains(active, "\"class\": \"topbar-panel\""@) || contains(active, "\"class\": \"topbar\""@) {
        false
    } else {
        true
    }
}

/// Decides [`panel_should_close`].
pub fn panel_loses_focus(active: &str) -> (r: bool)
    ensures
        r == panel_should_close(active@),
{
    let c = to_chars(active);
    let empty = to_chars("\"class\": \"\"");
    let panel = to_chars("\"class\": \"topbar-panel\"");
    let bar = to_chars("\"class\": \"topbar\"");
    if trim(c.as_slice()).len() == 0 || contains_str(c.as_slice(), empty.as_slice()) {
        false
    } else if contains_str(c.as_slice(), panel.as_slice()) || contains_str(c.as_slice(), bar.as_slice()) {
        false
    } else {
        true
    }
}

/// A display as the bar needs it: whether it has focus, its x position and
/// its width in pixels.
pub struct DisplaySpan {
    pub focused: bool,
    pub x: i32,
    pub width: u32,
}

/// The width of the bar: that of the first display that has focus or
/// starts at x = 0, else 1920.
pub open spec fn bar_width(ds: Seq<DisplaySpan>) -> u32
    decreases ds.len(),
{
    if ds.len() == 0 {
        1920
    } else if ds[0].focused || ds[0].x == 0 {
        ds[0].width
    } else {
        bar_width(ds.drop_first())
    }
}

/// The width of the bar (see [`bar_width`]).
pub fn topbar_width(ds: &[DisplaySpan]) -> (r: u32)
    ensures
        r == bar_width(ds@),
{
    let mut i: usize = 0;
    assert(ds@.skip(0) =~= ds@);
    while i < ds.len()
        invariant
            i <= ds.len(),
            bar_width(ds@) == bar_width(ds@.skip(i as int)),
        decreases ds.len() - i,
    {
        assert(ds@.skip(i as int)[0] == ds@[i as int]);
        if ds[i].focused || ds[i].x == 0 {
            return ds[i].width;
        }
        assert(ds@.skip(i as int).drop_first() =~= ds@.skip(i + 1));
        i = i + 1;
    }
    1920
}

/// Where the panel goes: its 400-pixel width and a 12-pixel margin from the
/// right edge of a bar `width` wide, 44 pixels down.
pub fn panel_position(width: u32) -> (r: (i64, i64))
    ensures
        r.0 == width - 412,
        r.1 == 44,
{
    (width as i64 - 412, 44)
}

/// The title of the notifications card: the count after a dot when there
/// are any.
pub fn notifications_title(count: usize) -> (r: String)
    ensures
        r@ == if count > 0 {
            "Notifications · "@ + decimal(count as nat)
        } else {
            "Notifications"@
        },
{
    if count > 0 {
        let n = crate::text::u64_text(count as u64);
        let mut t = String::from_str("Notifications · ");
        t.append(n.as_str());
        t
    } else {
        String::from_str("Notifications")
    }
}

/// The value the Focus switch sends to the daemon.
pub fn focus_switch_value(on: bool) -> (r: SettingValue)
    ensures
        r.text_of() == Some(if on {
            "on"@
        } else {
            "off"@
        }),
{
    if on {
        SettingValue::Str(String::from_str("on"))
    } else {
        SettingValue::Str(String::from_str("off"))
    }
}

/// How urgent a notification is.
#[derive(Clone, Copy, PartialEq, Eq, Structural)]
pub enum NotificationLevel {
    Info,
    Warning,
    Error,
    Critical,
}

impl NotificationLevel {
    /// The level's name, as the panel shows it.
    pub fn label(&self) -> (r: &'static str)
        ensures
            r@ == match self {
                NotificationLevel::Info => "Info"@,
                NotificationLevel::Warning => "Warning"@,
                NotificationLevel::Error => "Error"@,
                NotificationLevel::Critical => "Critical"@,
            },
    {
        match self {
            NotificationLevel::Info => "Info",
            NotificationLevel::Warning => "Warning",
            NotificationLevel::Error => "Error",
            NotificationLevel::Critical => "Critical",
        }
    }
}

/// A notification that the notification service holds.
pub struct Notification {
    pub id: String,
    pub title: String,
    pub body: String,
    pub level: NotificationLevel,
    pub timestamp: u64,
    pub app_name: Option<String>,
}

/// A request to the notification service.
pub enum NotifRequest {
    Push { title: String, body: String, level: NotificationLevel, app_name: Option<String> },
    List,
    Dismiss { id: String },
    Clear,
    Subscribe,
}

/// How many notifications the panel lists: at most three.
pub fn notifications_shown(count: usize) -> (r: usize)
    ensures
        r == if count < 3 {
            count
        } else {
            3
        },
{
    if count < 3 {
        count
    } else {
        3
    }
}

/// Applying the same value twice leaves the bar as applying it once.
pub proof fn law_topbar_apply_idempotent(s: TopbarState, key: SettingKey, val: SettingValue)
    ensures
        topbar_applied(topbar_applied(s, key, val), key, val) == topbar_applied(s, key, val),
{
}

/// A value from the daemon never changes whether the bar counts as
/// connected.
pub proof fn law_topbar_apply_keeps_connection(s: TopbarState, key: SettingKey, val: SettingValue)
    ensures
        topbar_applied(s, key, val).connected == s.connected,
{
}

} // verus!
