//! The settings that the settings daemon owns, as the settings app holds
//! them: keys, values, lock states, and the store that daemon entries and
//! events are applied to.
//!
//! Values of type `f64` are carried as [`Number`]s: an integer, or a float by
//! its IEEE-754 bit pattern (`f64::to_bits`). The library copies them and
//! computes nothing on them.

use vstd::prelude::*;
use crate::text::{decimal_i64, eq_chars, has_prefix, i64_to_decimal, parse_u64_max, parse_unsigned, string_from_chars, strip_prefix, to_chars};

verus! {

/// A setting that the daemon knows.
pub enum SettingKey {
    WifiEnabled,
    WifiNetwork,
    BluetoothEnabled,
    AudioVolume,
    AudioMuted,
    AudioDefaultSink,
    DisplayBrightness,
    DisplayAutoBrightness,
    DisplayNightShift,
    DisplayColorTemp,
    DisplayResolution,
    TimeFormat24h,
    NtpEnabled,
    SystemAutoUpdates,
    Wallpaper,
    Scrollbars,
    IconSize,
    DoNotDisturb,
    PowerProfile,
    StorageEmptyTrashAuto,
    NotificationBanners,
    NotificationSounds,
    ScreenTimeEnabled,
    AccessibilityReduceMotion,
    AccessibilityIncreaseContrast,
    AccessibilityReduceTransparency,
    AccessibilityScreenReader,
    AccessibilityTextSize,
    CameraAccess,
    MicAccess,
    LocationAccess,
    FirewallEnabled,
    ThemeMode,
    AccentColor,
    WindowBorderSize,
    /// A setting known by name only, such as `desktop.layout`.
    Custom(String),
}

/// The code of [`SettingKey::Custom`].
pub const CUSTOM_KEY_CODE: u8 = 255;

impl SettingKey {
    /// A number for each kind of key; every named key has its own.
    pub open spec fn code(&self) -> u8 {
        match self {
            SettingKey::WifiEnabled => 0,
            SettingKey::WifiNetwork => 1,
            SettingKey::BluetoothEnabled => 2,
            SettingKey::AudioVolume => 3,
            SettingKey::AudioMuted => 4,
            SettingKey::AudioDefaultSink => 5,
            SettingKey::DisplayBrightness => 6,
            SettingKey::DisplayAutoBrightness => 7,
            SettingKey::DisplayNightShift => 8,
            SettingKey::DisplayColorTemp => 9,
            SettingKey::DisplayResolution => 10,
            SettingKey::TimeFormat24h => 11,
            SettingKey::NtpEnabled => 12,
            SettingKey::SystemAutoUpdates => 13,
            SettingKey::Wallpaper => 14,
            SettingKey::Scrollbars => 15,
            SettingKey::IconSize => 16,
            SettingKey::DoNotDisturb => 17,
            SettingKey::PowerProfile => 18,
            SettingKey::StorageEmptyTrashAuto => 19,
            SettingKey::NotificationBanners => 20,
            SettingKey::NotificationSounds => 21,
            SettingKey::ScreenTimeEnabled => 22,
            SettingKey::AccessibilityReduceMotion => 23,
            SettingKey::AccessibilityIncreaseContrast => 24,
            SettingKey::AccessibilityReduceTransparency => 25,
            SettingKey::AccessibilityScreenReader => 26,
            SettingKey::AccessibilityTextSize => 27,
            SettingKey::CameraAccess => 28,
            SettingKey::MicAccess => 29,
            SettingKey::LocationAccess => 30,
            SettingKey::FirewallEnabled => 31,
            SettingKey::ThemeMode => 32,
            SettingKey::AccentColor => 33,
            SettingKey::WindowBorderSize => 34,
            SettingKey::Custom(_) => CUSTOM_KEY_CODE,
        }
    }

    /// Executable form of [`SettingKey::code`].
    pub fn code_of(&self) -> (r: u8)
        ensures
            r == self.code(),
    {
        match self {
            SettingKey::WifiEnabled => 0,
            SettingKey::WifiNetwork => 1,
            SettingKey::BluetoothEnabled => 2,
            SettingKey::AudioVolume => 3,
            SettingKey::AudioMuted => 4,
            SettingKey::AudioDefaultSink => 5,
            SettingKey::DisplayBrightness => 6,
            SettingKey::DisplayAutoBrightness => 7,
            SettingKey::DisplayNightShift => 8,
            SettingKey::DisplayColorTemp => 9,
            SettingKey::DisplayResolution => 10,
            SettingKey::TimeFormat24h => 11,
            SettingKey::NtpEnabled => 12,
            SettingKey::SystemAutoUpdates => 13,
            SettingKey::Wallpaper => 14,
            SettingKey::Scrollbars => 15,
            SettingKey::IconSize => 16,
            SettingKey::DoNotDisturb => 17,
            SettingKey::PowerProfile => 18,
            SettingKey::StorageEmptyTrashAuto => 19,
            SettingKey::NotificationBanners => 20,
            SettingKey::NotificationSounds => 21,
            SettingKey::ScreenTimeEnabled => 22,
            SettingKey::AccessibilityReduceMotion => 23,
            SettingKey::AccessibilityIncreaseContrast => 24,
            SettingKey::AccessibilityReduceTransparency => 25,
            SettingKey::AccessibilityScreenReader => 26,
            SettingKey::AccessibilityTextSize => 27,
            SettingKey::CameraAccess => 28,
            SettingKey::MicAccess => 29,
            SettingKey::LocationAccess => 30,
            SettingKey::FirewallEnabled => 31,
            SettingKey::ThemeMode => 32,
            SettingKey::AccentColor => 33,
            SettingKey::WindowBorderSize => 34,
            SettingKey::Custom(_) => CUSTOM_KEY_CODE,
        }
    }

    /// A copy of the key.
    pub fn duplicate(&self) -> (r: SettingKey)
        ensures
            r@ == self@,
    {
        reveal(key_id);
        match self {
            SettingKey::Custom(n) => SettingKey::Custom(n.clone()),
            SettingKey::WifiEnabled => SettingKey::WifiEnabled,
            SettingKey::WifiNetwork => SettingKey::WifiNetwork,
            SettingKey::BluetoothEnabled => SettingKey::BluetoothEnabled,
            SettingKey::AudioVolume => SettingKey::AudioVolume,
            SettingKey::AudioMuted => SettingKey::AudioMuted,
            SettingKey::AudioDefaultSink => SettingKey::AudioDefaultSink,
            SettingKey::DisplayBrightness => SettingKey::DisplayBrightness,
            SettingKey::DisplayAutoBrightness => SettingKey::DisplayAutoBrightness,
            SettingKey::DisplayNightShift => SettingKey::DisplayNightShift,
            SettingKey::DisplayColorTemp => SettingKey::DisplayColorTemp,
            SettingKey::DisplayResolution => SettingKey::DisplayResolution,
            SettingKey::TimeFormat24h => SettingKey::TimeFormat24h,
            SettingKey::NtpEnabled => SettingKey::NtpEnabled,
            SettingKey::SystemAutoUpdates => SettingKey::SystemAutoUpdates,
            SettingKey::Wallpaper => SettingKey::Wallpaper,
            SettingKey::Scrollbars => SettingKey::Scrollbars,
            SettingKey::IconSize => SettingKey::IconSize,
            SettingKey::DoNotDisturb => SettingKey::DoNotDisturb,
            SettingKey::PowerProfile => SettingKey::PowerProfile,
            SettingKey::StorageEmptyTrashAuto => SettingKey::StorageEmptyTrashAuto,
            SettingKey::NotificationBanners => SettingKey::NotificationBanners,
            SettingKey::NotificationSounds => SettingKey::NotificationSounds,
            SettingKey::ScreenTimeEnabled => SettingKey::ScreenTimeEnabled,
            SettingKey::AccessibilityReduceMotion => SettingKey::AccessibilityReduceMotion,
            SettingKey::AccessibilityIncreaseContrast => SettingKey::AccessibilityIncreaseContrast,
            SettingKey::AccessibilityReduceTransparency => SettingKey::AccessibilityReduceTransparency,
            SettingKey::AccessibilityScreenReader => SettingKey::AccessibilityScreenReader,
            SettingKey::AccessibilityTextSize => SettingKey::AccessibilityTextSize,
            SettingKey::CameraAccess => SettingKey::CameraAccess,
            SettingKey::MicAccess => SettingKey::MicAccess,
            SettingKey::LocationAccess => SettingKey::LocationAccess,
            SettingKey::FirewallEnabled => SettingKey::FirewallEnabled,
            SettingKey::ThemeMode => SettingKey::ThemeMode,
            SettingKey::AccentColor => SettingKey::AccentColor,
            SettingKey::WindowBorderSize => SettingKey::WindowBorderSize,
        }
    }
}

/// Two keys name the same setting exactly when their views are equal: the
/// view is the key's code and, for a custom key, its name.
impl View for SettingKey {
    type V = (u8, Seq<char>);

    open spec fn view(&self) -> (u8, Seq<char>) {
        key_id(*self)
    }
}

/// The identity of a key: its code and, for a custom key, its name.
#[verifier::opaque]
pub open spec fn key_id(k: SettingKey) -> (u8, Seq<char>) {
    match k {
        SettingKey::Custom(n) => (CUSTOM_KEY_CODE, n@),
        _ => (k.code(), Seq::empty()),
    }
}

/// Whether two keys name the same setting.
pub fn same_key(a: &SettingKey, b: &SettingKey) -> (r: bool)
    ensures
        r == (a@ == b@),
{
    reveal(key_id);
    let ca = a.code_of();
    let cb = b.code_of();
    if ca != cb {
        return false;
    }
    match a {
        SettingKey::Custom(x) => match b {
            SettingKey::Custom(y) => x.eq(y),
            _ => false,
        },
        _ => {
            assert(!(b is Custom));
            true
        },
    }
}

/// A number that the settings app shows as an `f64`: an integer (shown as
/// that integer), or a float given by its IEEE-754 bit pattern.
#[derive(Clone, Copy, PartialEq, Eq, Structural)]
pub enum Number {
    Int(i64),
    Float(u64),
}

/// The value of a setting.
pub enum SettingValue {
    Bool(bool),
    Int(i64),
    /// A float, by its IEEE-754 bit pattern.
    Float(u64),
    Str(String),
}

impl SettingValue {
    /// The boolean held, if the value is one.
    pub open spec fn bool_of(&self) -> Option<bool> {
        match self {
            SettingValue::Bool(b) => Some(*b),
            _ => None,
        }
    }

    /// The integer held, if the value is one.
    pub open spec fn int_of(&self) -> Option<i64> {
        match self {
            SettingValue::Int(i) => Some(*i),
            _ => None,
        }
    }

    /// The number held, integer or float, if the value is one.
    pub open spec fn number_of(&self) -> Option<Number> {
        match self {
            SettingValue::Int(i) => Some(Number::Int(*i)),
            SettingValue::Float(f) => Some(Number::Float(*f)),
            _ => None,
        }
    }

    /// The text held, if the value is text.
    pub open spec fn text_of(&self) -> Option<Seq<char>> {
        match self {
            SettingValue::Str(s) => Some(s@),
            _ => None,
        }
    }

    /// The boolean held, if the value is one.
    pub fn as_bool(&self) -> (r: Option<bool>)
        ensures
            r == self.bool_of(),
    {
        match self {
            SettingValue::Bool(b) => Some(*b),
            _ => None,
        }
    }

    /// The integer held, if the value is one.
    pub fn as_i64(&self) -> (r: Option<i64>)
        ensures
            r == self.int_of(),
    {
        match self {
            SettingValue::Int(i) => Some(*i),
            _ => None,
        }
    }

    /// The number held, integer or float, if the value is one.
    pub fn as_f64(&self) -> (r: Option<Number>)
        ensures
            r == self.number_of(),
    {
        match self {
            SettingValue::Int(i) => Some(Number::Int(*i)),
            SettingValue::Float(f) => Some(Number::Float(*f)),
            _ => None,
        }
    }

    /// The text held, if the value is text.
    pub fn as_str(&self) -> (r: Option<&str>)
        ensures
            r is Some <==> self.text_of() is Some,
            r matches Some(s) ==> self.text_of() == Some(s@),
    {
        match self {
            SettingValue::Str(s) => Some(s.as_str()),
            _ => None,
        }
    }
}

/// Whether, and by whom, a setting is locked against changes.
pub enum LockState {
    Unlocked,
    /// Managed by the NixOS configuration.
    NixManaged,
    /// Locked by policy, with an optional reason to show.
    Locked { reason: Option<String> },
}

/// The view of a [`LockState`].
pub enum LockView {
    Unlocked,
    NixManaged,
    Locked(Option<Seq<char>>),
}

impl View for LockState {
    type V = LockView;

    open spec fn view(&self) -> LockView {
        match self {
            LockState::Unlocked => LockView::Unlocked,
            LockState::NixManaged => LockView::NixManaged,
            LockState::Locked { reason } => LockView::Locked(
                match reason {
                    Some(r) => Some(r@),
                    None => None,
                },
            ),
        }
    }
}

impl LockState {
    /// Whether the setting is read-only.
    pub fn is_locked(&self) -> (r: bool)
        ensures
            r == !(self@ is Unlocked),
    {
        match self {
            LockState::Unlocked => false,
            _ => true,
        }
    }

    /// Whether the setting is managed by NixOS.
    pub fn is_nix_locked(&self) -> (r: bool)
        ensures
            r == (self@ is NixManaged),
    {
        match self {
            LockState::NixManaged => true,
            _ => false,
        }
    }

    /// A copy of the lock state.
    pub fn duplicate(&self) -> (r: LockState)
        ensures
            r@ == self@,
    {
        match self {
            LockState::Unlocked => LockState::Unlocked,
            LockState::NixManaged => LockState::NixManaged,
            LockState::Locked { reason } => LockState::Locked {
                reason: match reason {
                    Some(r) => Some(r.clone()),
                    None => None,
                },
            },
        }
    }
}

/// One setting as the daemon reports it.
pub struct SettingEntry {
    pub key: SettingKey,
    pub value: SettingValue,
    pub lock_state: LockState,
}

} // verus!

verus! {

/// How the display is scaled.
#[derive(Clone, Copy, PartialEq, Eq, Structural)]
pub enum ResolutionChoice {
    Default,
    MoreSpace,
    LargerText,
}

/// The Focus (do not disturb) mode.
#[derive(Clone, Copy, PartialEq, Eq, Structural)]
pub enum FocusMode {
    Off,
    Work,
    Personal,
    Sleep,
}

impl FocusMode {
    /// The mode's name, as the daemon spells it.
    pub fn as_str(&self) -> (r: &'static str)
        ensures
            r@ == match self {
                FocusMode::Off => "off"@,
                FocusMode::Work => "work"@,
                FocusMode::Personal => "personal"@,
                FocusMode::Sleep => "sleep"@,
            },
    {
        match self {
            FocusMode::Off => "off",
            FocusMode::Work => "work",
            FocusMode::Personal => "personal",
            FocusMode::Sleep => "sleep",
        }
    }
}

/// The power profile.
#[derive(Clone, Copy, PartialEq, Eq, Structural)]
pub enum PowerMode {
    Balanced,
    Performance,
    Powersave,
}

impl PowerMode {
    /// The profile's name in the settings app.
    pub fn as_str(&self) -> (r: &'static str)
        ensures
            r@ == match self {
                PowerMode::Balanced => "balanced"@,
                PowerMode::Performance => "performance"@,
                PowerMode::Powersave => "powersave"@,
            },
    {
        match self {
            PowerMode::Balanced => "balanced",
            PowerMode::Performance => "performance",
            PowerMode::Powersave => "powersave",
        }
    }
}

/// The values of the settings that the daemon drives, as the settings app
/// shows them: on/off settings, numbers and indices.
#[derive(Clone, Copy)]
pub struct StoreValues {
    pub wifi_power: bool,
    pub ask_to_join: bool,
    pub bt_power: bool,
    pub volume: Number,
    pub is_mute: bool,
    pub brightness: Number,
    pub auto_brightness: bool,
    pub night_shift: bool,
    pub color_temp: Number,
    pub time_24h: bool,
    pub ntp_sync: bool,
    pub auto_updates: bool,
    pub wallpaper_idx: usize,
    pub scrollbar_pref: usize,
    pub icon_size_pref: usize,
    pub empty_trash_auto: bool,
    pub allow_notif: bool,
    pub silence_sleep: bool,
    pub screen_time_enabled: bool,
    pub downtime_enabled: bool,
    pub reduce_motion: bool,
    pub increase_contrast: bool,
    pub reduce_transparency: bool,
    pub screen_reader: bool,
    pub text_size: Number,
    pub camera_access: bool,
    pub mic_access: bool,
    pub location_access: bool,
    pub firewall_enabled: bool,
}

/// The settings that the daemon drives and the settings app shows as a
/// choice among a few named options.
#[derive(Clone, Copy)]
pub struct StoreChoices {
    pub res_choice: ResolutionChoice,
    pub focus_mode: FocusMode,
    pub battery_mode: PowerMode,
}

/// The settings that the daemon drives, as the settings app shows them,
/// together with the lock state of every setting the daemon has reported.
pub struct SettingsStore {
    values: StoreValues,
    choices: StoreChoices,
    wallpaper: String,
    lock_states: Vec<(SettingKey, LockState)>,
}

/// The view of a [`SettingsStore`]: its values, its wallpaper text, and its
/// lock states as a map from keys to lock states.
pub struct StoreView {
    pub values: StoreValues,
    pub choices: StoreChoices,
    pub wallpaper: Seq<char>,
    pub locks: Map<(u8, Seq<char>), LockView>,
}

/// The map that a list of (key, lock state) pairs stands for; a later pair
/// wins over an earlier one with the same key.
#[verifier::opaque]
pub open spec fn lock_map(s: Seq<(SettingKey, LockState)>) -> Map<(u8, Seq<char>), LockView>
    decreases s.len(),
{
    if s.len() == 0 {
        Map::empty()
    } else {
        lock_map(s.drop_last()).insert(s.last().0@, s.last().1@)
    }
}

/// No key occurs twice in the list.
pub open spec fn keys_distinct(s: Seq<(SettingKey, LockState)>) -> bool {
    forall|i: int, j: int| 0 <= i < j < s.len() ==> s[i].0@ != s[j].0@
}

proof fn lemma_lock_map_absent(s: Seq<(SettingKey, LockState)>, k: (u8, Seq<char>))
    requires
        forall|i: int| 0 <= i < s.len() ==> s[i].0@ != k,
    ensures
        !lock_map(s).contains_key(k),
    decreases s.len(),
{
    reveal(lock_map);
    if s.len() > 0 {
        lemma_lock_map_absent(s.drop_last(), k);
    }
}

proof fn lemma_lock_map_at(s: Seq<(SettingKey, LockState)>, j: int)
    requires
        keys_distinct(s),
        0 <= j < s.len(),
    ensures
        lock_map(s).contains_key(s[j].0@),
        lock_map(s)[s[j].0@] == s[j].1@,
    decreases s.len(),
{
    reveal(lock_map);
    if j < s.len() - 1 {
        assert(s.last().0@ != s[j].0@);
        assert(keys_distinct(s.drop_last()));
        lemma_lock_map_at(s.drop_last(), j);
    }
}

proof fn lemma_lock_map_update(s: Seq<(SettingKey, LockState)>, j: int, e: (SettingKey, LockState))
    requires
        keys_distinct(s),
        0 <= j < s.len(),
        s[j].0@ == e.0@,
    ensures
        lock_map(s.update(j, e)) == lock_map(s).insert(e.0@, e.1@),
        keys_distinct(s.update(j, e)),
    decreases s.len(),
{
    reveal(lock_map);
    let t = s.update(j, e);
    assert(t.drop_last() =~= if j == s.len() - 1 {
        s.drop_last()
    } else {
        s.drop_last().update(j, e)
    });
    if j == s.len() - 1 {
        assert(lock_map(t) =~= lock_map(s).insert(e.0@, e.1@));
    } else {
        assert(keys_distinct(s.drop_last()));
        lemma_lock_map_update(s.drop_last(), j, e);
        assert(s.last().0@ != e.0@);
        assert(lock_map(t) =~= lock_map(s).insert(e.0@, e.1@));
    }
    assert forall|a: int, b: int| 0 <= a < b < t.len() implies t[a].0@ != t[b].0@ by {
        if a == j {
            assert(s[b].0@ != s[j].0@);
        } else if b == j {
            assert(s[a].0@ != s[j].0@);
        }
    }
}

impl View for SettingsStore {
    type V = StoreView;

    closed spec fn view(&self) -> StoreView {
        StoreView { values: self.values, choices: self.choices, wallpaper: self.wallpaper@, locks: lock_map(self.lock_states@) }
    }
}

/// The store after the daemon reported lock state `l` for key `k`.
pub open spec fn with_lock(s: StoreView, k: (u8, Seq<char>), l: LockView) -> StoreView {
    StoreView { locks: s.locks.insert(k, l), ..s }
}

/// The lock state of `k` in a view: unlocked unless the daemon reported otherwise.
pub open spec fn lock_of(s: StoreView, k: (u8, Seq<char>)) -> LockView {
    if s.locks.contains_key(k) {
        s.locks[k]
    } else {
        LockView::Unlocked
    }
}

/// The label shown beside a locked setting, or `None` for an unlocked one.
pub open spec fn label_of(l: LockView) -> Option<Seq<char>> {
    match l {
        LockView::Unlocked => None,
        LockView::NixManaged => Some("Managed by NixOS"@),
        LockView::Locked(Some(r)) => Some(r),
        LockView::Locked(None) => Some("Locked by policy"@),
    }
}

/// The resolution choice a daemon value names.
pub open spec fn resolution_of(s: Seq<char>) -> ResolutionChoice {
    if s == "MoreSpace"@ || s == "more_space"@ {
        ResolutionChoice::MoreSpace
    } else if s == "LargerText"@ || s == "larger_text"@ {
        ResolutionChoice::LargerText
    } else {
        ResolutionChoice::Default
    }
}

/// The Focus mode a daemon value names; anything unknown is off.
pub open spec fn focus_of(s: Seq<char>) -> FocusMode {
    if s == "work"@ {
        FocusMode::Work
    } else if s == "personal"@ {
        FocusMode::Personal
    } else if s == "sleep"@ {
        FocusMode::Sleep
    } else {
        FocusMode::Off
    }
}

/// The power mode a daemon profile names; anything unknown is balanced.
pub open spec fn power_of(s: Seq<char>) -> PowerMode {
    if s == "performance"@ {
        PowerMode::Performance
    } else if s == "power-saver"@ || s == "powersave"@ {
        PowerMode::Powersave
    } else {
        PowerMode::Balanced
    }
}

/// The preset that a wallpaper text selects: `N` for `preset:N` with `N` a
/// `usize` in decimal.
pub open spec fn preset_of(t: Seq<char>) -> Option<usize> {
    if has_prefix(t, "preset:"@) && parse_unsigned(t.skip("preset:"@.len() as int), usize::MAX as nat) is Some {
        Some(parse_unsigned(t.skip("preset:"@.len() as int), usize::MAX as nat)->0 as usize)
    } else {
        None
    }
}

/// The selected preset after the daemon reported `val` for the wallpaper: an
/// integer selects that preset, a text `preset:N` selects preset `N`.
pub open spec fn wallpaper_index_after(idx: usize, val: SettingValue) -> usize {
    match val.int_of() {
        Some(i) => i as usize,
        None => match val.text_of() {
            Some(t) => match preset_of(t) {
                Some(n) => n,
                None => idx,
            },
            None => idx,
        },
    }
}

/// The wallpaper text after the daemon reported `val` for the wallpaper: an
/// integer `N` names it `preset:N`, a text becomes it.
pub open spec fn wallpaper_text_after(w: Seq<char>, val: SettingValue) -> Seq<char> {
    match val.int_of() {
        Some(i) => "preset:"@ + decimal_i64(i),
        None => match val.text_of() {
            Some(t) => t,
            None => w,
        },
    }
}

/// The store after the daemon reported `val` for the wallpaper.
pub open spec fn wallpaper_applied(s: StoreView, val: SettingValue) -> StoreView {
    StoreView {
        values: StoreValues { wallpaper_idx: wallpaper_index_after(s.values.wallpaper_idx, val), ..s.values },
        choices: s.choices,
        wallpaper: wallpaper_text_after(s.wallpaper, val),
        locks: s.locks,
    }
}

/// Whether `key` is an on/off setting that the store shows.
pub open spec fn is_toggle_key(key: SettingKey) -> bool {
    matches!(key, SettingKey::WifiEnabled | SettingKey::WifiNetwork | SettingKey::BluetoothEnabled | SettingKey::AudioMuted | SettingKey::DisplayAutoBrightness | SettingKey::DisplayNightShift | SettingKey::TimeFormat24h | SettingKey::NtpEnabled | SettingKey::SystemAutoUpdates | SettingKey::StorageEmptyTrashAuto | SettingKey::NotificationBanners | SettingKey::NotificationSounds | SettingKey::AccessibilityReduceMotion | SettingKey::AccessibilityIncreaseContrast | SettingKey::AccessibilityReduceTransparency | SettingKey::AccessibilityScreenReader | SettingKey::CameraAccess | SettingKey::MicAccess | SettingKey::LocationAccess | SettingKey::FirewallEnabled | SettingKey::ScreenTimeEnabled)
}

/// The values after the daemon reported `b` for the on/off setting `key`:
/// each on/off field takes `b` when `key` drives it (Screen Time drives two).
#[verifier::opaque]
pub open spec fn toggle_values(v: StoreValues, key: SettingKey, b: bool) -> StoreValues {
    StoreValues {
        wifi_power: if key is WifiEnabled { b } else { v.wifi_power },
        ask_to_join: if key is WifiNetwork { b } else { v.ask_to_join },
        bt_power: if key is BluetoothEnabled { b } else { v.bt_power },
        volume: v.volume,
        is_mute: if key is AudioMuted { b } else { v.is_mute },
        brightness: v.brightness,
        auto_brightness: if key is DisplayAutoBrightness { b } else { v.auto_brightness },
        night_shift: if key is DisplayNightShift { b } else { v.night_shift },
        color_temp: v.color_temp,
        time_24h: if key is TimeFormat24h { b } else { v.time_24h },
        ntp_sync: if key is NtpEnabled { b } else { v.ntp_sync },
        auto_updates: if key is SystemAutoUpdates { b } else { v.auto_updates },
        wallpaper_idx: v.wallpaper_idx,
        scrollbar_pref: v.scrollbar_pref,
        icon_size_pref: v.icon_size_pref,
        empty_trash_auto: if key is StorageEmptyTrashAuto { b } else { v.empty_trash_auto },
        allow_notif: if key is NotificationBanners { b } else { v.allow_notif },
        silence_sleep: if key is NotificationSounds { b } else { v.silence_sleep },
        screen_time_enabled: if key is ScreenTimeEnabled { b } else { v.screen_time_enabled },
        downtime_enabled: if key is ScreenTimeEnabled { b } else { v.downtime_enabled },
        reduce_motion: if key is AccessibilityReduceMotion { b } else { v.reduce_motion },
        increase_contrast: if key is AccessibilityIncreaseContrast { b } else { v.increase_contrast },
        reduce_transparency: if key is AccessibilityReduceTransparency { b } else { v.reduce_transparency },
        screen_reader: if key is AccessibilityScreenReader { b } else { v.screen_reader },
        text_size: v.text_size,
        camera_access: if key is CameraAccess { b } else { v.camera_access },
        mic_access: if key is MicAccess { b } else { v.mic_access },
        location_access: if key is LocationAccess { b } else { v.location_access },
        firewall_enabled: if key is FirewallEnabled { b } else { v.firewall_enabled },
    }
}

/// Whether `key` is a numeric setting that the store shows.
pub open spec fn is_number_key(key: SettingKey) -> bool {
    matches!(key, SettingKey::AudioVolume | SettingKey::DisplayBrightness | SettingKey::DisplayColorTemp
        | SettingKey::AccessibilityTextSize | SettingKey::Scrollbars | SettingKey::IconSize)
}

/// The values after the daemon reported `val` for the numeric setting `key`:
/// volume, scroll bar and icon size take integers, the others any number.
#[verifier::opaque]
pub open spec fn number_values(v: StoreValues, key: SettingKey, val: SettingValue) -> StoreValues {
    StoreValues {
        wifi_power: v.wifi_power,
        ask_to_join: v.ask_to_join,
        bt_power: v.bt_power,
        volume: if key is AudioVolume && val.int_of() is Some { Number::Int(val.int_of()->0) } else { v.volume },
        is_mute: v.is_mute,
        brightness: if key is DisplayBrightness && val.number_of() is Some { val.number_of()->0 } else { v.brightness },
        auto_brightness: v.auto_brightness,
        night_shift: v.night_shift,
        color_temp: if key is DisplayColorTemp && val.number_of() is Some { val.number_of()->0 } else { v.color_temp },
        time_24h: v.time_24h,
        ntp_sync: v.ntp_sync,
        auto_updates: v.auto_updates,
        wallpaper_idx: v.wallpaper_idx,
        scrollbar_pref: if key is Scrollbars && val.int_of() is Some { val.int_of()->0 as usize } else { v.scrollbar_pref },
        icon_size_pref: if key is IconSize && val.int_of() is Some { val.int_of()->0 as usize } else { v.icon_size_pref },
        empty_trash_auto: v.empty_trash_auto,
        allow_notif: v.allow_notif,
        silence_sleep: v.silence_sleep,
        screen_time_enabled: v.screen_time_enabled,
        downtime_enabled: v.downtime_enabled,
        reduce_motion: v.reduce_motion,
        increase_contrast: v.increase_contrast,
        reduce_transparency: v.reduce_transparency,
        screen_reader: v.screen_reader,
        text_size: if key is AccessibilityTextSize && val.number_of() is Some { val.number_of()->0 } else { v.text_size },
        camera_access: v.camera_access,
        mic_access: v.mic_access,
        location_access: v.location_access,
        firewall_enabled: v.firewall_enabled,
    }
}

/// Whether `key` is a setting that the store shows as a choice named by text.
pub open spec fn is_choice_key(key: SettingKey) -> bool {
    matches!(key, SettingKey::DisplayResolution | SettingKey::DoNotDisturb | SettingKey::PowerProfile)
}

/// The choices after the daemon reported the text `t` for the choice `key`.
pub open spec fn choice_values(c: StoreChoices, key: SettingKey, t: Seq<char>) -> StoreChoices {
    StoreChoices {
        res_choice: if key is DisplayResolution { resolution_of(t) } else { c.res_choice },
        focus_mode: if key is DoNotDisturb { focus_of(t) } else { c.focus_mode },
        battery_mode: if key is PowerProfile { power_of(t) } else { c.battery_mode },
    }
}

/// The store after the daemon reported `val` for `key`. A value of the wrong
/// kind for its key, and a key the store does not show, change nothing.
pub open spec fn applied(s: StoreView, key: SettingKey, val: SettingValue) -> StoreView {
    if is_toggle_key(key) {
        match val.bool_of() {
            Some(b) => StoreView { values: toggle_values(s.values, key, b), ..s },
            None => s,
        }
    } else if is_number_key(key) {
        StoreView { values: number_values(s.values, key, val), ..s }
    } else if is_choice_key(key) {
        match val.text_of() {
            Some(t) => StoreView { choices: choice_values(s.choices, key, t), ..s },
            None => s,
        }
    } else if key is Wallpaper {
        wallpaper_applied(s, val)
    } else {
        s
    }
}

} // verus!

verus! {

impl SettingsStore {
    /// The lock list holds each key at most once.
    #[verifier::type_invariant]
    spec fn inv(&self) -> bool {
        keys_distinct(self.lock_states@)
    }

    /// The store the settings app starts with, before the daemon has
    /// answered: Wi-Fi, Bluetooth, volume and mute as the system reports
    /// them, everything else at its default, and no lock states.
    pub fn new(wifi_power: bool, bt_power: bool, volume: Number, is_mute: bool) -> (r: SettingsStore)
        ensures
            r@ == initial_view(wifi_power, bt_power, volume, is_mute),
    {
        let values = StoreValues {
                wifi_power,
                ask_to_join: true,
                bt_power,
                volume,
                is_mute,
                brightness: Number::Float(DEFAULT_BRIGHTNESS_BITS),
                auto_brightness: true,
                night_shift: false,
                color_temp: Number::Float(DEFAULT_COLOR_TEMP_BITS),
                time_24h: true,
                ntp_sync: true,
                auto_updates: true,
                wallpaper_idx: 0,
                scrollbar_pref: 0,
                icon_size_pref: 1,
                empty_trash_auto: true,
                allow_notif: true,
                silence_sleep: true,
                screen_time_enabled: true,
                downtime_enabled: false,
                reduce_motion: false,
                increase_contrast: false,
                reduce_transparency: false,
                screen_reader: false,
                text_size: Number::Float(DEFAULT_TEXT_SIZE_BITS),
                camera_access: true,
                mic_access: true,
                location_access: true,
                firewall_enabled: true,
        };
        let choices = StoreChoices {
            res_choice: ResolutionChoice::Default,
            focus_mode: FocusMode::Off,
            battery_mode: PowerMode::Balanced,
        };
        let r = SettingsStore { values, choices, wallpaper: String::from_str("#1e1e2e"), lock_states: Vec::new() };
        reveal(lock_map);
        assert(r@.locks =~= Map::empty());
        r
    }

    /// The on/off and numeric settings.
    pub fn values(&self) -> (r: StoreValues)
        ensures
            r == self@.values,
    {
        self.values
    }

    /// The settings chosen among named options.
    pub fn choices(&self) -> (r: StoreChoices)
        ensures
            r == self@.choices,
    {
        self.choices
    }

    /// The wallpaper setting's text.
    pub fn wallpaper(&self) -> (r: &str)
        ensures
            r@ == self@.wallpaper,
    {
        self.wallpaper.as_str()
    }

    /// Index of `key` in the lock list, if the list holds it.
    fn find_lock(&self, key: &SettingKey) -> (r: Option<usize>)
        ensures
            r matches Some(j) ==> j < self.lock_states@.len() && self.lock_states@[j as int].0@ == key@,
            r is None ==> forall|i: int| 0 <= i < self.lock_states@.len() ==> self.lock_states@[i].0@ != key@,
    {
        let mut i: usize = 0;
        while i < self.lock_states.len()
            invariant
                i <= self.lock_states@.len(),
                forall|k: int| 0 <= k < i ==> self.lock_states@[k].0@ != key@,
            decreases self.lock_states.len() - i,
        {
            if same_key(&self.lock_states[i].0, key) {
                return Some(i);
            }
            i = i + 1;
        }
        None
    }

    /// The lock state reported for `key`; unlocked when none was.
    pub fn lock_state(&self, key: &SettingKey) -> (r: LockState)
        ensures
            r@ == lock_of(self@, key@),
    {
        proof {
            use_type_invariant(self);
        }
        match self.find_lock(key) {
            Some(j) => {
                proof {
                    lemma_lock_map_at(self.lock_states@, j as int);
                }
                self.lock_states[j].1.duplicate()
            },
            None => {
                proof {
                    lemma_lock_map_absent(self.lock_states@, key@);
                }
                LockState::Unlocked
            },
        }
    }

    /// Whether the setting is locked (read-only).
    pub fn is_locked(&self, key: &SettingKey) -> (r: bool)
        ensures
            r == !(lock_of(self@, key@) is Unlocked),
    {
        self.lock_state(key).is_locked()
    }

    /// Whether the setting is managed by NixOS.
    pub fn is_nix_locked(&self, key: &SettingKey) -> (r: bool)
        ensures
            r == (lock_of(self@, key@) is NixManaged),
    {
        self.lock_state(key).is_nix_locked()
    }

    /// The label to show beside a locked setting, e.g. "Managed by NixOS";
    /// `None` when the setting is not locked.
    pub fn lock_label(&self, key: &SettingKey) -> (r: Option<String>)
        ensures
            r is Some <==> label_of(lock_of(self@, key@)) is Some,
            r matches Some(t) ==> label_of(lock_of(self@, key@)) == Some(t@),
    {
        match self.lock_state(key) {
            LockState::Unlocked => None,
            LockState::NixManaged => Some(String::from_str("Managed by NixOS")),
            LockState::Locked { reason: Some(r) } => Some(r),
            LockState::Locked { reason: None } => Some(String::from_str("Locked by policy")),
        }
    }

    /// Records the lock state the daemon reported for `key`.
    pub fn set_lock(&mut self, key: SettingKey, lock: LockState)
        ensures
            final(self)@ == with_lock(old(self)@, key@, lock@),
    {
        proof {
            use_type_invariant(&*self);
        }
        let ghost k = key@;
        let ghost l = lock@;
        let ghost before = self@;
        let mut locks: Vec<(SettingKey, LockState)> = Vec::new();
        std::mem::swap(&mut locks, &mut self.lock_states);
        insert_lock(&mut locks, key, lock);
        self.lock_states = locks;
        let ghost after = self@;
        assert(after.locks == before.locks.insert(k, l));
        assert(after.wallpaper == before.wallpaper);
        assert(after == with_lock(before, k, l));
    }
}

/// Puts `(key, lock)` into a list of distinct keys, replacing the pair with the same key.
fn insert_lock(v: &mut Vec<(SettingKey, LockState)>, key: SettingKey, lock: LockState)
    requires
        keys_distinct(old(v)@),
    ensures
        keys_distinct(final(v)@),
        lock_map(final(v)@) == lock_map(old(v)@).insert(key@, lock@),
{
    let ghost k = key@;
    let ghost l = lock@;
    let mut i: usize = 0;
    while i < v.len()
        invariant
            v@ == old(v)@,
            keys_distinct(v@),
            k == key@,
            l == lock@,
            i <= v@.len(),
            forall|a: int| 0 <= a < i ==> v@[a].0@ != k,
        decreases v.len() - i,
    {
        if same_key(&v[i].0, &key) {
            proof {
                lemma_lock_map_update(v@, i as int, (key, lock));
            }
            v.set(i, (key, lock));
            return;
        }
        i = i + 1;
    }
    let ghost old_s = v@;
    v.push((key, lock));
    proof {
        reveal(lock_map);
        assert(v@.drop_last() =~= old_s);
        assert forall|a: int, b: int| 0 <= a < b < v@.len() implies v@[a].0@ != v@[b].0@ by {
            if b == old_s.len() {
                assert(old_s[a].0@ != k);
            } else {
                assert(old_s[a].0@ != old_s[b].0@);
            }
        }
    }
}

/// Brightness before the daemon answers: 72.0.
pub const DEFAULT_BRIGHTNESS_BITS: u64 = 0x4052000000000000;

/// Colour temperature before the daemon answers: 30.0.
pub const DEFAULT_COLOR_TEMP_BITS: u64 = 0x403E000000000000;

/// Text size before the daemon answers: 40.0.
pub const DEFAULT_TEXT_SIZE_BITS: u64 = 0x4044000000000000;

/// The view of the store the settings app starts with.
pub open spec fn initial_view(wifi_power: bool, bt_power: bool, volume: Number, is_mute: bool) -> StoreView {
    StoreView {
        values: StoreValues {
            wifi_power,
            ask_to_join: true,
            bt_power,
            volume,
            is_mute,
            brightness: Number::Float(DEFAULT_BRIGHTNESS_BITS),
            auto_brightness: true,
            night_shift: false,
            color_temp: Number::Float(DEFAULT_COLOR_TEMP_BITS),
            time_24h: true,
            ntp_sync: true,
            auto_updates: true,
            wallpaper_idx: 0,
            scrollbar_pref: 0,
            icon_size_pref: 1,
            empty_trash_auto: true,
            allow_notif: true,
            silence_sleep: true,
            screen_time_enabled: true,
            downtime_enabled: false,
            reduce_motion: false,
            increase_contrast: false,
            reduce_transparency: false,
            screen_reader: false,
            text_size: Number::Float(DEFAULT_TEXT_SIZE_BITS),
            camera_access: true,
            mic_access: true,
            location_access: true,
            firewall_enabled: true,
        },
        choices: StoreChoices {
            res_choice: ResolutionChoice::Default,
            focus_mode: FocusMode::Off,
            battery_mode: PowerMode::Balanced,
        },
        wallpaper: "#1e1e2e"@,
        locks: Map::empty(),
    }
}

} // verus!

verus! {

/// Executable form of [`resolution_of`].
pub fn resolution_named(t: &str) -> (r: ResolutionChoice)
    ensures
        r == resolution_of(t@),
{
    let v = to_chars(t);
    if eq_chars(v.as_slice(), to_chars("MoreSpace").as_slice()) || eq_chars(v.as_slice(), to_chars("more_space").as_slice()) {
        ResolutionChoice::MoreSpace
    } else if eq_chars(v.as_slice(), to_chars("LargerText").as_slice()) || eq_chars(v.as_slice(), to_chars("larger_text").as_slice()) {
        ResolutionChoice::LargerText
    } else {
        ResolutionChoice::Default
    }
}

/// Executable form of [`focus_of`].
pub fn focus_named(t: &str) -> (r: FocusMode)
    ensures
        r == focus_of(t@),
{
    let v = to_chars(t);
    if eq_chars(v.as_slice(), to_chars("work").as_slice()) {
        FocusMode::Work
    } else if eq_chars(v.as_slice(), to_chars("personal").as_slice()) {
        FocusMode::Personal
    } else if eq_chars(v.as_slice(), to_chars("sleep").as_slice()) {
        FocusMode::Sleep
    } else {
        FocusMode::Off
    }
}

/// Executable form of [`power_of`].
pub fn power_named(t: &str) -> (r: PowerMode)
    ensures
        r == power_of(t@),
{
    let v = to_chars(t);
    if eq_chars(v.as_slice(), to_chars("performance").as_slice()) {
        PowerMode::Performance
    } else if eq_chars(v.as_slice(), to_chars("power-saver").as_slice()) || eq_chars(v.as_slice(), to_chars("powersave").as_slice()) {
        PowerMode::Powersave
    } else {
        PowerMode::Balanced
    }
}

/// The wallpaper text for preset `i`: `preset:` followed by `i` in decimal.
pub fn preset_name(i: i64) -> (r: String)
    ensures
        r@ == "preset:"@ + decimal_i64(i),
{
    let mut w = to_chars("preset:");
    let d = i64_to_decimal(i);
    let mut k: usize = 0;
    let ghost start = w@;
    while k < d.len()
        invariant
            k <= d.len(),
            w@ == start + d@.take(k as int),
        decreases d.len() - k,
    {
        w.push(d[k]);
        assert(d@.take(k + 1) =~= d@.take(k as int).push(d@[k as int]));
        k = k + 1;
    }
    assert(d@.take(d.len() as int) =~= d@);
    string_from_chars(w.as_slice())
}

/// The preset selected after the daemon reported `val` for the wallpaper.
pub fn wallpaper_index(idx: usize, val: &SettingValue) -> (r: usize)
    ensures
        r == wallpaper_index_after(idx, *val),
{
    if let Some(i) = val.as_i64() {
        i as usize
    } else if let Some(t) = val.as_str() {
        let v = to_chars(t);
        let p = to_chars("preset:");
        match strip_prefix(v.as_slice(), p.as_slice()) {
            Some(rest) => match parse_u64_max(rest, usize::MAX as u64) {
                Some(n) => n as usize,
                None => idx,
            },
            None => idx,
        }
    } else {
        idx
    }
}

/// The wallpaper text that `val` sets, if it sets one: `preset:N` for an
/// integer `N`, the text itself for a text.
pub fn wallpaper_text(val: &SettingValue) -> (r: Option<String>)
    ensures
        r is Some <==> (val.int_of() is Some || val.text_of() is Some),
        r matches Some(t) ==> forall|w: Seq<char>| #[trigger] wallpaper_text_after(w, *val) == t@,
{
    if let Some(i) = val.as_i64() {
        Some(preset_name(i))
    } else if let Some(t) = val.as_str() {
        Some(String::from_str(t))
    } else {
        None
    }
}

/// `on` when `set` holds, `otherwise` when not.
fn pick(set: bool, on: bool, otherwise: bool) -> (r: bool)
    ensures
        r == if set { on } else { otherwise },
{
    if set {
        on
    } else {
        otherwise
    }
}

/// The values with the on/off setting `key` set to `b`.
fn toggled(v: StoreValues, key: &SettingKey, b: bool) -> (r: StoreValues)
    ensures
        r == toggle_values(v, *key, b),
{
    reveal(toggle_values);
    StoreValues {
        wifi_power: pick(matches!(key, SettingKey::WifiEnabled), b, v.wifi_power),
        ask_to_join: pick(matches!(key, SettingKey::WifiNetwork), b, v.ask_to_join),
        bt_power: pick(matches!(key, SettingKey::BluetoothEnabled), b, v.bt_power),
        volume: v.volume,
        is_mute: pick(matches!(key, SettingKey::AudioMuted), b, v.is_mute),
        brightness: v.brightness,
        auto_brightness: pick(matches!(key, SettingKey::DisplayAutoBrightness), b, v.auto_brightness),
        night_shift: pick(matches!(key, SettingKey::DisplayNightShift), b, v.night_shift),
        color_temp: v.color_temp,
        time_24h: pick(matches!(key, SettingKey::TimeFormat24h), b, v.time_24h),
        ntp_sync: pick(matches!(key, SettingKey::NtpEnabled), b, v.ntp_sync),
        auto_updates: pick(matches!(key, SettingKey::SystemAutoUpdates), b, v.auto_updates),
        wallpaper_idx: v.wallpaper_idx,
        scrollbar_pref: v.scrollbar_pref,
        icon_size_pref: v.icon_size_pref,
        empty_trash_auto: pick(matches!(key, SettingKey::StorageEmptyTrashAuto), b, v.empty_trash_auto),
        allow_notif: pick(matches!(key, SettingKey::NotificationBanners), b, v.allow_notif),
        silence_sleep: pick(matches!(key, SettingKey::NotificationSounds), b, v.silence_sleep),
        screen_time_enabled: pick(matches!(key, SettingKey::ScreenTimeEnabled), b, v.screen_time_enabled),
        downtime_enabled: pick(matches!(key, SettingKey::ScreenTimeEnabled), b, v.downtime_enabled),
        reduce_motion: pick(matches!(key, SettingKey::AccessibilityReduceMotion), b, v.reduce_motion),
        increase_contrast: pick(matches!(key, SettingKey::AccessibilityIncreaseContrast), b, v.increase_contrast),
        reduce_transparency: pick(matches!(key, SettingKey::AccessibilityReduceTransparency), b, v.reduce_transparency),
        screen_reader: pick(matches!(key, SettingKey::AccessibilityScreenReader), b, v.screen_reader),
        text_size: v.text_size,
        camera_access: pick(matches!(key, SettingKey::CameraAccess), b, v.camera_access),
        mic_access: pick(matches!(key, SettingKey::MicAccess), b, v.mic_access),
        location_access: pick(matches!(key, SettingKey::LocationAccess), b, v.location_access),
        firewall_enabled: pick(matches!(key, SettingKey::FirewallEnabled), b, v.firewall_enabled),
    }
}

impl SettingsStore {
    /// Applies a wallpaper value: a preset number, or a wallpaper text whose
    /// `preset:N` form also selects preset `N`.
    fn apply_wallpaper(&mut self, val: &SettingValue)
        ensures
            final(self).values == (StoreValues {
                wallpaper_idx: wallpaper_index_after(old(self).values.wallpaper_idx, *val),
                ..old(self).values
            }),
            final(self).choices == old(self).choices,
            final(self).wallpaper@ == wallpaper_text_after(old(self).wallpaper@, *val),
            final(self).lock_states == old(self).lock_states,
    {
        proof {
            use_type_invariant(&*self);
        }
        let idx = wallpaper_index(self.values.wallpaper_idx, val);
        self.values = StoreValues { wallpaper_idx: idx, ..self.values };
        if let Some(t) = wallpaper_text(val) {
            self.wallpaper = t;
        }
    }

    /// Sets the on/off setting `key` to `b`.
    fn apply_toggle(&mut self, key: &SettingKey, b: bool)
        requires
            is_toggle_key(*key),
        ensures
            final(self).values == toggle_values(old(self).values, *key, b),
            final(self).choices == old(self).choices,
            final(self).wallpaper == old(self).wallpaper,
            final(self).lock_states == old(self).lock_states,
    {
        proof {
            use_type_invariant(&*self);
        }
        self.values = toggled(self.values, key, b);
    }

    /// Applies a number the daemon reported for the numeric setting `key`.
    fn apply_number(&mut self, key: &SettingKey, val: &SettingValue)
        requires
            is_number_key(*key),
        ensures
            final(self).values == number_values(old(self).values, *key, *val),
            final(self).choices == old(self).choices,
            final(self).wallpaper == old(self).wallpaper,
            final(self).lock_states == old(self).lock_states,
    {
        proof {
            use_type_invariant(&*self);
        }
        reveal(number_values);
        let v = self.values;
        let vi = val.as_i64();
        let vn = val.as_f64();
        self.values = StoreValues {
            wifi_power: v.wifi_power,
            ask_to_join: v.ask_to_join,
            bt_power: v.bt_power,
            volume: match (matches!(key, SettingKey::AudioVolume), vi) { (true, Some(i)) => Number::Int(i), _ => v.volume },
            is_mute: v.is_mute,
            brightness: match (matches!(key, SettingKey::DisplayBrightness), vn) { (true, Some(n)) => n, _ => v.brightness },
            auto_brightness: v.auto_brightness,
            night_shift: v.night_shift,
            color_temp: match (matches!(key, SettingKey::DisplayColorTemp), vn) { (true, Some(n)) => n, _ => v.color_temp },
            time_24h: v.time_24h,
            ntp_sync: v.ntp_sync,
            auto_updates: v.auto_updates,
            wallpaper_idx: v.wallpaper_idx,
            scrollbar_pref: match (matches!(key, SettingKey::Scrollbars), vi) { (true, Some(i)) => i as usize, _ => v.scrollbar_pref },
            icon_size_pref: match (matches!(key, SettingKey::IconSize), vi) { (true, Some(i)) => i as usize, _ => v.icon_size_pref },
            empty_trash_auto: v.empty_trash_auto,
            allow_notif: v.allow_notif,
            silence_sleep: v.silence_sleep,
            screen_time_enabled: v.screen_time_enabled,
            downtime_enabled: v.downtime_enabled,
            reduce_motion: v.reduce_motion,
            increase_contrast: v.increase_contrast,
            reduce_transparency: v.reduce_transparency,
            screen_reader: v.screen_reader,
            text_size: match (matches!(key, SettingKey::AccessibilityTextSize), vn) { (true, Some(n)) => n, _ => v.text_size },
            camera_access: v.camera_access,
            mic_access: v.mic_access,
            location_access: v.location_access,
            firewall_enabled: v.firewall_enabled,
        };
    }

    /// Applies the text the daemon reported for the choice `key`.
    fn apply_choice(&mut self, key: &SettingKey, t: &str)
        requires
            is_choice_key(*key),
        ensures
            final(self).choices == choice_values(old(self).choices, *key, t@),
            final(self).values == old(self).values,
            final(self).wallpaper == old(self).wallpaper,
            final(self).lock_states == old(self).lock_states,
    {
        proof {
            use_type_invariant(&*self);
        }
        match key {
            SettingKey::DisplayResolution => {
                self.choices = StoreChoices { res_choice: resolution_named(t), ..self.choices };
            },
            SettingKey::DoNotDisturb => {
                self.choices = StoreChoices { focus_mode: focus_named(t), ..self.choices };
            },
            SettingKey::PowerProfile => {
                self.choices = StoreChoices { battery_mode: power_named(t), ..self.choices };
            },
            _ => {},
        }
    }

    /// Updates the store for a value the daemon reported, without asking the
    /// daemon anything (see [`applied`]).
    pub fn apply_to_local_state(&mut self, key: &SettingKey, val: &SettingValue)
        ensures
            final(self)@ == applied(old(self)@, *key, *val),
    {
        proof {
            use_type_invariant(&*self);
        }
        if is_toggle(key) {
            if let Some(b) = val.as_bool() {
                self.apply_toggle(key, b);
            }
        } else if is_number(key) {
            self.apply_number(key, val);
        } else if is_choice(key) {
            if let Some(t) = val.as_str() {
                self.apply_choice(key, t);
            }
        } else if let SettingKey::Wallpaper = key {
            self.apply_wallpaper(val);
        }
    }
}

} // verus!

verus! {

/// Executable form of [`is_toggle_key`].
pub fn is_toggle(key: &SettingKey) -> (r: bool)
    ensures
        r == is_toggle_key(*key),
{
    matches!(key, SettingKey::WifiEnabled | SettingKey::WifiNetwork | SettingKey::BluetoothEnabled | SettingKey::AudioMuted | SettingKey::DisplayAutoBrightness | SettingKey::DisplayNightShift | SettingKey::TimeFormat24h | SettingKey::NtpEnabled | SettingKey::SystemAutoUpdates | SettingKey::StorageEmptyTrashAuto | SettingKey::NotificationBanners | SettingKey::NotificationSounds | SettingKey::AccessibilityReduceMotion | SettingKey::AccessibilityIncreaseContrast | SettingKey::AccessibilityReduceTransparency | SettingKey::AccessibilityScreenReader | SettingKey::CameraAccess | SettingKey::MicAccess | SettingKey::LocationAccess | SettingKey::FirewallEnabled | SettingKey::ScreenTimeEnabled)
}

/// Executable form of [`is_number_key`].
pub fn is_number(key: &SettingKey) -> (r: bool)
    ensures
        r == is_number_key(*key),
{
    matches!(key, SettingKey::AudioVolume | SettingKey::DisplayBrightness | SettingKey::DisplayColorTemp
        | SettingKey::AccessibilityTextSize | SettingKey::Scrollbars | SettingKey::IconSize)
}

/// Executable form of [`is_choice_key`].
pub fn is_choice(key: &SettingKey) -> (r: bool)
    ensures
        r == is_choice_key(*key),
{
    matches!(key, SettingKey::DisplayResolution | SettingKey::DoNotDisturb | SettingKey::PowerProfile)
}

} // verus!

verus! {

/// The store after a batch of daemon entries: for each entry in order, its
/// lock state is recorded and its value applied.
pub open spec fn entries_applied(s: StoreView, es: Seq<SettingEntry>) -> StoreView
    decreases es.len(),
{
    if es.len() == 0 {
        s
    } else {
        let e = es.last();
        applied(with_lock(entries_applied(s, es.drop_last()), e.key@, e.lock_state@), e.key, e.value)
    }
}

/// What the app has to do after the store handled a daemon event.
pub enum StoreAction {
    /// Nothing more.
    Nothing,
    /// Fetch every setting again and apply the entries.
    Reload,
}

/// A message the settings daemon sends to subscribers.
pub enum SettingsEvent {
    /// A setting changed, by the request of `source`.
    Changed { key: SettingKey, value: SettingValue, source: String },
    /// A setting's lock state changed.
    LockChanged { key: SettingKey, lock_state: LockState },
    /// The daemon reloaded its configuration.
    Reloaded,
    /// A message for the user.
    Alert(String),
}

impl SettingsStore {
    /// Records the lock state and applies the value of every entry, in order.
    pub fn apply_entries(&mut self, entries: &[SettingEntry])
        ensures
            final(self)@ == entries_applied(old(self)@, entries@),
    {
        proof {
            use_type_invariant(&*self);
        }
        let mut i: usize = 0;
        assert(entries@.take(0) =~= Seq::<SettingEntry>::empty());
        while i < entries.len()
            invariant
                i <= entries@.len(),
                self@ == entries_applied(old(self)@, entries@.take(i as int)),
            decreases entries.len() - i,
        {
            let e = &entries[i];
            self.set_lock(e.key.duplicate(), e.lock_state.duplicate());
            self.apply_to_local_state(&e.key, &e.value);
            assert(entries@.take(i + 1).drop_last() =~= entries@.take(i as int));
            i = i + 1;
        }
        assert(entries@.take(entries.len() as int) =~= entries@);
    }

    /// Changes a setting on the user's request: refused (returning `false`,
    /// the store unchanged) when the setting is locked; otherwise applied to
    /// the store at once, returning `true`, and the caller then sends the
    /// change to the daemon.
    pub fn set(&mut self, key: &SettingKey, val: &SettingValue) -> (r: bool)
        ensures
            r == (lock_of(old(self)@, key@) is Unlocked),
            r ==> final(self)@ == applied(old(self)@, *key, *val),
            !r ==> final(self)@ == old(self)@,
    {
        proof {
            use_type_invariant(&*self);
        }
        if self.is_locked(key) {
            return false;
        }
        self.apply_to_local_state(key, val);
        true
    }

    /// Handles an event from the daemon: a change is applied, a lock change
    /// recorded; after a reload the caller fetches every setting again.
    pub fn handle_event(&mut self, event: SettingsEvent) -> (r: StoreAction)
        ensures
            match event {
                SettingsEvent::Changed { key, value, .. } => r is Nothing && final(self)@ == applied(
                    old(self)@,
                    key,
                    value,
                ),
                SettingsEvent::LockChanged { key, lock_state } => r is Nothing && final(self)@
                    == with_lock(old(self)@, key@, lock_state@),
                SettingsEvent::Reloaded => r is Reload && final(self)@ == old(self)@,
                SettingsEvent::Alert(_) => r is Nothing && final(self)@ == old(self)@,
            },
    {
        proof {
            use_type_invariant(&*self);
        }
        match event {
            SettingsEvent::Changed { key, value, .. } => {
                self.apply_to_local_state(&key, &value);
                StoreAction::Nothing
            },
            SettingsEvent::LockChanged { key, lock_state } => {
                self.set_lock(key, lock_state);
                StoreAction::Nothing
            },
            SettingsEvent::Reloaded => StoreAction::Reload,
            SettingsEvent::Alert(_) => StoreAction::Nothing,
        }
    }
}

/// The switch that an on/off key stands for, as the settings pages show
/// it: Wi-Fi power for `WifiEnabled`, camera access for `CameraAccess`, and
/// so on; `None` for a key that is no switch.
pub open spec fn switch_of(v: StoreValues, key: SettingKey) -> Option<bool> {
    match key {
        SettingKey::WifiEnabled => Some(v.wifi_power),
        SettingKey::WifiNetwork => Some(v.ask_to_join),
        SettingKey::BluetoothEnabled => Some(v.bt_power),
        SettingKey::AudioMuted => Some(v.is_mute),
        SettingKey::DisplayAutoBrightness => Some(v.auto_brightness),
        SettingKey::DisplayNightShift => Some(v.night_shift),
        SettingKey::TimeFormat24h => Some(v.time_24h),
        SettingKey::NtpEnabled => Some(v.ntp_sync),
        SettingKey::SystemAutoUpdates => Some(v.auto_updates),
        SettingKey::StorageEmptyTrashAuto => Some(v.empty_trash_auto),
        SettingKey::NotificationBanners => Some(v.allow_notif),
        SettingKey::NotificationSounds => Some(v.silence_sleep),
        SettingKey::ScreenTimeEnabled => Some(v.screen_time_enabled),
        SettingKey::AccessibilityReduceMotion => Some(v.reduce_motion),
        SettingKey::AccessibilityIncreaseContrast => Some(v.increase_contrast),
        SettingKey::AccessibilityReduceTransparency => Some(v.reduce_transparency),
        SettingKey::AccessibilityScreenReader => Some(v.screen_reader),
        SettingKey::CameraAccess => Some(v.camera_access),
        SettingKey::MicAccess => Some(v.mic_access),
        SettingKey::LocationAccess => Some(v.location_access),
        SettingKey::FirewallEnabled => Some(v.firewall_enabled),
        _ => None,
    }
}

/// A switch reads back what was applied to it: applying `b` to an on/off
/// key sets the switch of that key to `b`, leaves every other key's switch,
/// every number, choice, the wallpaper and the locks as they were, and
/// changes no field that no key names but Screen Time's downtime, which
/// follows Screen Time.
pub proof fn law_switch_reads_back(s: StoreView, key: SettingKey, b: bool)
    requires
        is_toggle_key(key),
    ensures
        switch_of(applied(s, key, SettingValue::Bool(b)).values, key) == Some(b),
        forall|k: SettingKey|
            k != key ==> #[trigger] switch_of(applied(s, key, SettingValue::Bool(b)).values, k) == switch_of(s.values, k),
        applied(s, key, SettingValue::Bool(b)).values.volume == s.values.volume,
        applied(s, key, SettingValue::Bool(b)).values.brightness == s.values.brightness,
        applied(s, key, SettingValue::Bool(b)).values.color_temp == s.values.color_temp,
        applied(s, key, SettingValue::Bool(b)).values.text_size == s.values.text_size,
        applied(s, key, SettingValue::Bool(b)).values.wallpaper_idx == s.values.wallpaper_idx,
        applied(s, key, SettingValue::Bool(b)).values.scrollbar_pref == s.values.scrollbar_pref,
        applied(s, key, SettingValue::Bool(b)).values.icon_size_pref == s.values.icon_size_pref,
        applied(s, key, SettingValue::Bool(b)).values.downtime_enabled == if key is ScreenTimeEnabled {
            b
        } else {
            s.values.downtime_enabled
        },
        applied(s, key, SettingValue::Bool(b)).choices == s.choices,
        applied(s, key, SettingValue::Bool(b)).wallpaper == s.wallpaper,
        applied(s, key, SettingValue::Bool(b)).locks == s.locks,
{
    let n = applied(s, key, SettingValue::Bool(b)).values;
    assert(n == toggle_values(s.values, key, b));
    lemma_read_back(s.values, key, b);
    lemma_toggle_rest(s.values, key, b);
    assert forall|k: SettingKey| k != key implies #[trigger] switch_of(n, k) == switch_of(s.values, k) by {
        lemma_frame(s.values, key, b, k);
    }
}

/// [`toggle_values`] leaves the numbers, the wallpaper and the preferences
/// alone, and sets downtime with Screen Time.
proof fn lemma_toggle_rest(v: StoreValues, key: SettingKey, b: bool)
    ensures
        toggle_values(v, key, b).volume == v.volume,
        toggle_values(v, key, b).brightness == v.brightness,
        toggle_values(v, key, b).color_temp == v.color_temp,
        toggle_values(v, key, b).text_size == v.text_size,
        toggle_values(v, key, b).wallpaper_idx == v.wallpaper_idx,
        toggle_values(v, key, b).scrollbar_pref == v.scrollbar_pref,
        toggle_values(v, key, b).icon_size_pref == v.icon_size_pref,
        toggle_values(v, key, b).downtime_enabled == if key is ScreenTimeEnabled {
            b
        } else {
            v.downtime_enabled
        },
{
    reveal(toggle_values);
}

/// How [`toggle_values`] reads through [`switch_of`] at one key `k`.
#[verifier::rlimit(50)]
/// Applying `b` to an on/off key sets that key's switch to `b`.
proof fn lemma_read_back(v: StoreValues, key: SettingKey, b: bool)
    requires
        is_toggle_key(key),
    ensures
        switch_of(toggle_values(v, key, b), key) == Some(b),
{
    match key {
        SettingKey::WifiEnabled => lemma_one_wifi_power(v, key, b),
        SettingKey::WifiNetwork => lemma_one_ask_to_join(v, key, b),
        SettingKey::BluetoothEnabled => lemma_one_bt_power(v, key, b),
        SettingKey::AudioMuted => lemma_one_is_mute(v, key, b),
        SettingKey::DisplayAutoBrightness => lemma_one_auto_brightness(v, key, b),
        SettingKey::DisplayNightShift => lemma_one_night_shift(v, key, b),
        SettingKey::TimeFormat24h => lemma_one_time_24h(v, key, b),
        SettingKey::NtpEnabled => lemma_one_ntp_sync(v, key, b),
        SettingKey::SystemAutoUpdates => lemma_one_auto_updates(v, key, b),
        SettingKey::StorageEmptyTrashAuto => lemma_one_empty_trash_auto(v, key, b),
        SettingKey::NotificationBanners => lemma_one_allow_notif(v, key, b),
        SettingKey::NotificationSounds => lemma_one_silence_sleep(v, key, b),
        SettingKey::ScreenTimeEnabled => lemma_one_screen_time_enabled(v, key, b),
        SettingKey::AccessibilityReduceMotion => lemma_one_reduce_motion(v, key, b),
        SettingKey::AccessibilityIncreaseContrast => lemma_one_increase_contrast(v, key, b),
        SettingKey::AccessibilityReduceTransparency => lemma_one_reduce_transparency(v, key, b),
        SettingKey::AccessibilityScreenReader => lemma_one_screen_reader(v, key, b),
        SettingKey::CameraAccess => lemma_one_camera_access(v, key, b),
        SettingKey::MicAccess => lemma_one_mic_access(v, key, b),
        SettingKey::LocationAccess => lemma_one_location_access(v, key, b),
        SettingKey::FirewallEnabled => lemma_one_firewall_enabled(v, key, b),
        _ => {},
    }
}

/// Applying `b` to one key leaves the switch of any other key `k` alone.
proof fn lemma_frame(v: StoreValues, key: SettingKey, b: bool, k: SettingKey)
    requires
        k != key,
    ensures
        switch_of(toggle_values(v, key, b), k) == switch_of(v, k),
{
    match k {
        SettingKey::WifiEnabled => lemma_one_wifi_power(v, key, b),
        SettingKey::WifiNetwork => lemma_one_ask_to_join(v, key, b),
        SettingKey::BluetoothEnabled => lemma_one_bt_power(v, key, b),
        SettingKey::AudioMuted => lemma_one_is_mute(v, key, b),
        SettingKey::DisplayAutoBrightness => lemma_one_auto_brightness(v, key, b),
        SettingKey::DisplayNightShift => lemma_one_night_shift(v, key, b),
        SettingKey::TimeFormat24h => lemma_one_time_24h(v, key, b),
        SettingKey::NtpEnabled => lemma_one_ntp_sync(v, key, b),
        SettingKey::SystemAutoUpdates => lemma_one_auto_updates(v, key, b),
        SettingKey::StorageEmptyTrashAuto => lemma_one_empty_trash_auto(v, key, b),
        SettingKey::NotificationBanners => lemma_one_allow_notif(v, key, b),
        SettingKey::NotificationSounds => lemma_one_silence_sleep(v, key, b),
        SettingKey::ScreenTimeEnabled => lemma_one_screen_time_enabled(v, key, b),
        SettingKey::AccessibilityReduceMotion => lemma_one_reduce_motion(v, key, b),
        SettingKey::AccessibilityIncreaseContrast => lemma_one_increase_contrast(v, key, b),
        SettingKey::AccessibilityReduceTransparency => lemma_one_reduce_transparency(v, key, b),
        SettingKey::AccessibilityScreenReader => lemma_one_screen_reader(v, key, b),
        SettingKey::CameraAccess => lemma_one_camera_access(v, key, b),
        SettingKey::MicAccess => lemma_one_mic_access(v, key, b),
        SettingKey::LocationAccess => lemma_one_location_access(v, key, b),
        SettingKey::FirewallEnabled => lemma_one_firewall_enabled(v, key, b),
        _ => {},
    }
}

proof fn lemma_one_wifi_power(v: StoreValues, key: SettingKey, b: bool)
    ensures
        toggle_values(v, key, b).wifi_power == if key is WifiEnabled {
            b
        } else {
            v.wifi_power
        },
{
    reveal(toggle_values);
}

proof fn lemma_one_ask_to_join(v: StoreValues, key: SettingKey, b: bool)
    ensures
        toggle_values(v, key, b).ask_to_join == if key is WifiNetwork {
            b
        } else {
            v.ask_to_join
        },
{
    reveal(toggle_values);
}

proof fn lemma_one_bt_power(v: StoreValues, key: SettingKey, b: bool)
    ensures
        toggle_values(v, key, b).bt_power == if key is BluetoothEnabled {
            b
        } else {
            v.bt_power
        },
{
    reveal(toggle_values);
}

proof fn lemma_one_is_mute(v: StoreValues, key: SettingKey, b: bool)
    ensures
        toggle_values(v, key, b).is_mute == if key is AudioMuted {
            b
        } else {
            v.is_mute
        },
{
    reveal(toggle_values);
}

proof fn lemma_one_auto_brightness(v: StoreValues, key: SettingKey, b: bool)
    ensures
        toggle_values(v, key, b).auto_brightness == if key is DisplayAutoBrightness {
            b
        } else {
            v.auto_brightness
        },
{
    reveal(toggle_values);
}

proof fn lemma_one_night_shift(v: StoreValues, key: SettingKey, b: bool)
    ensures
        toggle_values(v, key, b).night_shift == if key is DisplayNightShift {
            b
        } else {
            v.night_shift
        },
{
    reveal(toggle_values);
}

proof fn lemma_one_time_24h(v: StoreValues, key: SettingKey, b: bool)
    ensures
        toggle_values(v, key, b).time_24h == if key is TimeFormat24h {
            b
        } else {
            v.time_24h
        },
{
    reveal(toggle_values);
}

proof fn lemma_one_ntp_sync(v: StoreValues, key: SettingKey, b: bool)
    ensures
        toggle_values(v, key, b).ntp_sync == if key is NtpEnabled {
            b
        } else {
            v.ntp_sync
        },
{
    reveal(toggle_values);
}

proof fn lemma_one_auto_updates(v: StoreValues, key: SettingKey, b: bool)
    ensures
        toggle_values(v, key, b).auto_updates == if key is SystemAutoUpdates {
            b
        } else {
            v.auto_updates
        },
{
    reveal(toggle_values);
}

proof fn lemma_one_empty_trash_auto(v: StoreValues, key: SettingKey, b: bool)
    ensures
        toggle_values(v, key, b).empty_trash_auto == if key is StorageEmptyTrashAuto {
            b
        } else {
            v.empty_trash_auto
        },
{
    reveal(toggle_values);
}

proof fn lemma_one_allow_notif(v: StoreValues, key: SettingKey, b: bool)
    ensures
        toggle_values(v, key, b).allow_notif == if key is NotificationBanners {
            b
        } else {
            v.allow_notif
        },
{
    reveal(toggle_values);
}

proof fn lemma_one_silence_sleep(v: StoreValues, key: SettingKey, b: bool)
    ensures
        toggle_values(v, key, b).silence_sleep == if key is NotificationSounds {
            b
        } else {
            v.silence_sleep
        },
{
    reveal(toggle_values);
}

proof fn lemma_one_screen_time_enabled(v: StoreValues, key: SettingKey, b: bool)
    ensures
        toggle_values(v, key, b).screen_time_enabled == if key is ScreenTimeEnabled {
            b
        } else {
            v.screen_time_enabled
        },
{
    reveal(toggle_values);
}

proof fn lemma_one_reduce_motion(v: StoreValues, key: SettingKey, b: bool)
    ensures
        toggle_values(v, key, b).reduce_motion == if key is AccessibilityReduceMotion {
            b
        } else {
            v.reduce_motion
        },
{
    reveal(toggle_values);
}

proof fn lemma_one_increase_contrast(v: StoreValues, key: SettingKey, b: bool)
    ensures
        toggle_values(v, key, b).increase_contrast == if key is AccessibilityIncreaseContrast {
            b
        } else {
            v.increase_contrast
        },
{
    reveal(toggle_values);
}

proof fn lemma_one_reduce_transparency(v: StoreValues, key: SettingKey, b: bool)
    ensures
        toggle_values(v, key, b).reduce_transparency == if key is AccessibilityReduceTransparency {
            b
        } else {
            v.reduce_transparency
        },
{
    reveal(toggle_values);
}

proof fn lemma_one_screen_reader(v: StoreValues, key: SettingKey, b: bool)
    ensures
        toggle_values(v, key, b).screen_reader == if key is AccessibilityScreenReader {
            b
        } else {
            v.screen_reader
        },
{
    reveal(toggle_values);
}

proof fn lemma_one_camera_access(v: StoreValues, key: SettingKey, b: bool)
    ensures
        toggle_values(v, key, b).camera_access == if key is CameraAccess {
            b
        } else {
            v.camera_access
        },
{
    reveal(toggle_values);
}

proof fn lemma_one_mic_access(v: StoreValues, key: SettingKey, b: bool)
    ensures
        toggle_values(v, key, b).mic_access == if key is MicAccess {
            b
        } else {
            v.mic_access
        },
{
    reveal(toggle_values);
}

proof fn lemma_one_location_access(v: StoreValues, key: SettingKey, b: bool)
    ensures
        toggle_values(v, key, b).location_access == if key is LocationAccess {
            b
        } else {
            v.location_access
        },
{
    reveal(toggle_values);
}

proof fn lemma_one_firewall_enabled(v: StoreValues, key: SettingKey, b: bool)
    ensures
        toggle_values(v, key, b).firewall_enabled == if key is FirewallEnabled {
            b
        } else {
            v.firewall_enabled
        },
{
    reveal(toggle_values);
}

/// Applying a value leaves the lock states alone.
pub proof fn law_apply_keeps_locks(s: StoreView, key: SettingKey, val: SettingValue)
    ensures
        applied(s, key, val).locks === s.locks,
{

}

/// Applying the same value twice is the same as applying it once.
pub proof fn law_apply_idempotent(s: StoreView, key: SettingKey, val: SettingValue)
    ensures
        applied(applied(s, key, val), key, val) === applied(s, key, val),
{
    if is_toggle_key(key) {
        if let Some(b) = val.bool_of() {
            lemma_toggle_idempotent(s.values, key, b);
        }
    } else if is_number_key(key) {
        lemma_number_idempotent(s.values, key, val);
    } else if is_choice_key(key) {
        if let Some(t) = val.text_of() {
            lemma_choice_idempotent(s.choices, key, t);
        }
    } else if key is Wallpaper {
        lemma_wallpaper_idempotent(s, val);
    }
}

proof fn lemma_toggle_idempotent(v: StoreValues, key: SettingKey, b: bool)
    ensures
        toggle_values(toggle_values(v, key, b), key, b) == toggle_values(v, key, b),
{
    reveal(toggle_values);
}

proof fn lemma_number_idempotent(v: StoreValues, key: SettingKey, val: SettingValue)
    ensures
        number_values(number_values(v, key, val), key, val) == number_values(v, key, val),
{
    reveal(number_values);
}

proof fn lemma_choice_idempotent(c: StoreChoices, key: SettingKey, t: Seq<char>)
    ensures
        choice_values(choice_values(c, key, t), key, t) == choice_values(c, key, t),
{
}

proof fn lemma_wallpaper_idempotent(s: StoreView, val: SettingValue)
    ensures
        wallpaper_applied(wallpaper_applied(s, val), val) === wallpaper_applied(s, val),
{
    let once = wallpaper_applied(s, val);
    let twice = wallpaper_applied(once, val);
    assert(twice.values == once.values);
    assert(twice.wallpaper == once.wallpaper);
    assert(twice.locks == once.locks);
}

/// A lock state that was recorded is the one read back; the lock states of
/// other settings stay as they were.
pub proof fn law_lock_read_after_write(s: StoreView, k: (u8, Seq<char>), l: LockView, other: (u8, Seq<char>))
    ensures
        lock_of(with_lock(s, k, l), k) == l,
        other != k ==> lock_of(with_lock(s, k, l), other) == lock_of(s, other),
{
}

/// A setting has a lock label exactly when it is locked.
pub proof fn law_label_iff_locked(s: StoreView, k: (u8, Seq<char>))
    ensures
        label_of(lock_of(s, k)) is Some <==> !(lock_of(s, k) is Unlocked),
{
}

/// After a batch of entries, a setting's lock state is the one its last
/// entry in the batch reported.
pub proof fn law_batch_last_lock_wins(s: StoreView, es: Seq<SettingEntry>, j: int)
    requires
        0 <= j < es.len(),
        forall|i: int| j < i < es.len() ==> es[i].key@ != es[j].key@,
    ensures
        lock_of(entries_applied(s, es), es[j].key@) == es[j].lock_state@,
    decreases es.len(),
{
    let e = es.last();
    let prev = entries_applied(s, es.drop_last());
    law_apply_keeps_locks(with_lock(prev, e.key@, e.lock_state@), e.key, e.value);
    if j < es.len() - 1 {
        law_batch_last_lock_wins(s, es.drop_last(), j);
    }
}

} // verus!

verus! {

/// The battery charge the settings app starts from: the number in a
/// capacity text such as ` 87% ` (before any trailing `%` signs), or 78 when
/// it is not one.
pub fn initial_battery_pct(capacity: &str) -> (r: u8)
    ensures
        r == match crate::text::parse_unsigned(
            crate::text::strip_trailing(crate::text::trimmed(capacity@), '%'),
            255,
        ) {
            Some(n) => n as u8,
            None => 78,
        },
{
    let c = to_chars(capacity);
    let t = crate::text::trim_end_char(crate::text::trim(c.as_slice()), '%');
    match crate::text::parse_u8(t) {
        Some(n) => n,
        None => 78,
    }
}

} // verus!
