//! What the overview and detail pages say about a setting: the texts and
//! choices derived from the store and from what the system reports.

use vstd::prelude::*;
use crate::network::{first_with_ssid, wifi_views, WifiNetwork};
use crate::settings::{FocusMode, PowerMode};
use crate::text::{join3, opt_text, to_chars, trim, trimmed};

verus! {

/// What the overview says about a Focus mode.
pub fn focus_description(mode: FocusMode) -> (r: &'static str)
    ensures
        r@ == match mode {
            FocusMode::Work => "Notifications are silenced except from your team."@,
            FocusMode::Personal => "Only calls and messages from favourites come through."@,
            FocusMode::Sleep => "Everything is silenced until morning."@,
            FocusMode::Off => "Notifications are delivered as usual."@,
        },
{
    match mode {
        FocusMode::Work => "Notifications are silenced except from your team.",
        FocusMode::Personal => "Only calls and messages from favourites come through.",
        FocusMode::Sleep => "Everything is silenced until morning.",
        FocusMode::Off => "Notifications are delivered as usual.",
    }
}

/// The colour scheme the appearance controls choose.
#[derive(Clone, Copy, PartialEq, Eq, Structural)]
pub enum ThemeChoice {
    Light,
    Dark,
    Auto,
}

/// The name of a colour scheme as the daemon stores it.
pub fn theme_mode_name(mode: ThemeChoice) -> (r: &'static str)
    ensures
        r@ == match mode {
            ThemeChoice::Light => "light"@,
            ThemeChoice::Dark => "dark"@,
            ThemeChoice::Auto => "auto"@,
        },
{
    match mode {
        ThemeChoice::Light => "light",
        ThemeChoice::Dark => "dark",
        ThemeChoice::Auto => "auto",
    }
}

/// What choosing the colour scheme `mode` on the appearance page sends to
/// the daemon: its name, unless the scheme is locked, when the choice does
/// nothing.
pub fn theme_change(locked: bool, mode: ThemeChoice) -> (r: Option<&'static str>)
    ensures
        locked ==> r is None,
        !locked ==> (r matches Some(n) && n@ == match mode {
            ThemeChoice::Light => "light"@,
            ThemeChoice::Dark => "dark"@,
            ThemeChoice::Auto => "auto"@,
        }),
{
    if locked {
        None
    } else {
        Some(theme_mode_name(mode))
    }
}

/// The segments of the battery page's power mode control.
#[derive(Clone, Copy, PartialEq, Eq, Structural)]
pub enum BatterySegment {
    Low,
    Balanced,
    High,
}

/// The segment the battery page marks for a power mode: high for
/// performance, balanced otherwise (the store's `powersave` is not one of
/// the names the control knows as low).
pub fn battery_segment(mode: PowerMode) -> (r: BatterySegment)
    ensures
        r == match mode {
            PowerMode::Performance => BatterySegment::High,
            _ => BatterySegment::Balanced,
        },
{
    match mode {
        PowerMode::Performance => BatterySegment::High,
        _ => BatterySegment::Balanced,
    }
}

/// The power profile the battery page sends for a segment.
pub fn segment_profile(seg: BatterySegment) -> (r: &'static str)
    ensures
        r@ == match seg {
            BatterySegment::Low => "power-saver"@,
            BatterySegment::High => "performance"@,
            BatterySegment::Balanced => "balanced"@,
        },
{
    match seg {
        BatterySegment::Low => "power-saver",
        BatterySegment::High => "performance",
        BatterySegment::Balanced => "balanced",
    }
}

/// The window layout the desktop page's choice `idx` names.
pub fn layout_name(idx: usize) -> (r: &'static str)
    ensures
        r@ == if idx == 0 {
            "master"@
        } else if idx == 1 {
            "dwindle"@
        } else {
            "floating"@
        },
{
    if idx == 0 {
        "master"
    } else if idx == 1 {
        "dwindle"
    } else {
        "floating"
    }
}

/// The value of Hyprland's `animations:enabled` for the reduce-motion
/// switch: off when motion is reduced.
pub fn animations_value(reduce_motion: bool) -> (r: &'static str)
    ensures
        r@ == if reduce_motion {
            "0"@
        } else {
            "1"@
        },
{
    if reduce_motion {
        "0"
    } else {
        "1"
    }
}

/// The value of Hyprland's `decoration:blur:enabled` for the
/// reduce-transparency switch: off when transparency is reduced.
pub fn blur_value(reduce_transparency: bool) -> (r: &'static str)
    ensures
        r@ == if reduce_transparency {
            "false"@
        } else {
            "true"@
        },
{
    if reduce_transparency {
        "false"
    } else {
        "true"
    }
}

/// What the overview's wired card shows for a wired connection: its
/// profile name (the interface when the profile is blank), and the
/// interface with its address (the interface alone when the address is
/// blank).
pub fn wired_summary(profile: &str, interface: &str, ip: &str) -> (r: (String, String))
    ensures
        r.0@ == if trimmed(profile@).len() == 0 {
            interface@
        } else {
            profile@
        },
        r.1@ == if trimmed(ip@).len() == 0 {
            interface@
        } else {
            interface@ + " · "@ + ip@
        },
{
    let p = to_chars(profile);
    let a = to_chars(ip);
    let name = if trim(p.as_slice()).len() == 0 {
        String::from_str(interface)
    } else {
        String::from_str(profile)
    };
    let detail = if trim(a.as_slice()).len() == 0 {
        String::from_str(interface)
    } else {
        join3(interface, " · ", ip)
    };
    (name, detail)
}

/// What the Wi-Fi page's status row shows: the network in use (or `Not
/// connected`), a line under it, and the network's security (`—` when it
/// is not among the scanned ones).
pub fn wifi_status(
    wifi_on: bool,
    active: &Option<String>,
    interface: &str,
    ip: &str,
    available: &Vec<WifiNetwork>,
) -> (r: (String, String, String))
    ensures
        r.0@ == if wifi_on && active is Some {
            active->0@
        } else {
            "Not connected"@
        },
        r.1@ == if !wifi_on {
            "Wi-Fi is off"@
        } else if active is Some {
            interface@ + " · "@ + ip@
        } else {
            "Not associated"@
        },
        r.2@ == match opt_text(*active) {
            Some(a) => match first_with_ssid(wifi_views(available@), a) {
                Some(n) => n.security,
                None => "—"@,
            },
            None => "—"@,
        },
{
    let title = match active {
        Some(a) => if wifi_on {
            a.clone()
        } else {
            String::from_str("Not connected")
        },
        None => String::from_str("Not connected"),
    };
    let sub = if !wifi_on {
        String::from_str("Wi-Fi is off")
    } else if active.is_some() {
        join3(interface, " · ", ip)
    } else {
        String::from_str("Not associated")
    };
    let security = match active {
        Some(a) => {
            let c = to_chars(a.as_str());
            match crate::network::first_network_index(available, c.as_slice()) {
                Some(i) => available[i].security.clone(),
                None => String::from_str("—"),
            }
        },
        None => String::from_str("—"),
    };
    (title, sub, security)
}

} // verus!
