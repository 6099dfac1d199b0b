//! The short texts that the settings pages show for their state: status
//! lines, counted headings and labels.

use vstd::prelude::*;
use vstd::utf8::{decode_utf8, encode_utf8, is_char_boundary};
use crate::text::{decimal, u64_text};

verus! {

/// The Wi-Fi adapter line of the network page: the network in use when
/// Wi-Fi is on and joined, else whether Wi-Fi is on.
pub fn adapter_status(wifi_on: bool, active: &Option<String>) -> (r: String)
    ensures
        r@ == if !wifi_on {
            "Wi-Fi is disabled"@
        } else {
            match active {
                Some(s) => "Connected to "@ + s@,
                None => "Wi-Fi is on, not connected"@,
            }
        },
{
    if !wifi_on {
        String::from_str("Wi-Fi is disabled")
    } else {
        match active {
            Some(s) => {
                let mut r = String::from_str("Connected to ");
                r.append(s.as_str());
                r
            },
            None => String::from_str("Wi-Fi is on, not connected"),
        }
    }
}

/// The line under a scanned network: `Connected` for the one in use, else
/// its signal strength.
pub fn network_line(connected: bool, signal: u8) -> (r: String)
    ensures
        r@ == if connected {
            "Connected"@
        } else {
            "Signal: "@ + decimal(signal as nat) + "%"@
        },
{
    if connected {
        String::from_str("Connected")
    } else {
        let mut r = String::from_str("Signal: ");
        let n = u64_text(signal as u64);
        r.append(n.as_str());
        r.append("%");
        r
    }
}

/// The line under a saved network: whether it is in use, else its
/// security.
pub fn saved_profile_line(connected: bool, security: &str) -> (r: String)
    ensures
        r@ == if connected {
            "Connected • Saved Profile"@
        } else {
            "Saved Profile • "@ + security@
        },
{
    if connected {
        String::from_str("Connected • Saved Profile")
    } else {
        let mut r = String::from_str("Saved Profile • ");
        r.append(security);
        r
    }
}

/// The line under a network on the Wi-Fi page: its signal strength and
/// its security.
pub fn signal_security_line(signal: u8, security: &str) -> (r: String)
    ensures
        r@ == "Signal "@ + decimal(signal as nat) + "% · "@ + security@,
{
    let mut r = String::from_str("Signal ");
    let n = u64_text(signal as u64);
    r.append(n.as_str());
    r.append("% · ");
    r.append(security);
    r
}

/// A section heading with the number of its entries in brackets, such as
/// `AVAILABLE NETWORKS (3)`.
pub fn count_heading(title: &str, n: usize) -> (r: String)
    ensures
        r@ == title@ + " ("@ + decimal(n as nat) + ")"@,
{
    let mut r = String::from_str(title);
    r.append(" (");
    let t = u64_text(n as u64);
    r.append(t.as_str());
    r.append(")");
    r
}

/// The print queue's state on the printers page: idle, or how many jobs
/// wait.
pub fn queue_status(jobs: usize) -> (r: String)
    ensures
        r@ == if jobs == 0 {
            "Queue Idle (0)"@
        } else {
            decimal(jobs as nat) + " Pending"@
        },
{
    if jobs == 0 {
        String::from_str("Queue Idle (0)")
    } else {
        let mut r = u64_text(jobs as u64);
        r.append(" Pending");
        r
    }
}

/// The line under a paired Bluetooth device: whether it is connected, and
/// its address.
pub fn paired_line(connected: bool, mac: &str) -> (r: String)
    ensures
        r@ == if connected {
            "Connected • "@ + mac@
        } else {
            "Paired • "@ + mac@
        },
{
    let mut r = if connected {
        String::from_str("Connected • ")
    } else {
        String::from_str("Paired • ")
    };
    r.append(mac);
    r
}

/// The camera permission's description on the privacy page: how many
/// cameras there are, when there are any.
pub fn camera_line(cameras: usize) -> (r: String)
    ensures
        r@ == if cameras > 0 {
            "Allow applications to use connected video capture devices ("@ + decimal(cameras as nat)
                + " detected)."@
        } else {
            "Allow applications to capture video streams from webcam devices."@
        },
{
    if cameras > 0 {
        let mut r = String::from_str("Allow applications to use connected video capture devices (");
        let n = u64_text(cameras as u64);
        r.append(n.as_str());
        r.append(" detected).");
        r
    } else {
        String::from_str("Allow applications to capture video streams from webcam devices.")
    }
}

/// The count of installed locales on the language page, or that they are
/// still loading when there are none yet.
pub fn locales_line(total: usize) -> (r: String)
    ensures
        r@ == if total > 0 {
            decimal(total as nat) + " installed"@
        } else {
            "Loading locales..."@
        },
{
    if total > 0 {
        let mut r = u64_text(total as u64);
        r.append(" installed");
        r
    } else {
        String::from_str("Loading locales...")
    }
}

/// A wallpaper's file name as its tile shows it: the first 24 characters
/// and `…` when it is longer.
pub fn wallpaper_label(raw: &str) -> (r: String)
    ensures
        r@ == if raw@.len() > 24 {
            raw@.take(24) + "…"@
        } else {
            raw@
        },
{
    let cs = crate::text::to_chars(raw);
    if cs.len() > 24 {
        let mut r = crate::text::string_from_chars(&cs.as_slice()[0..24]);
        assert(cs@.subrange(0, 24) =~= raw@.take(24));
        r.append("…");
        r
    } else {
        String::from_str(raw)
    }
}

/// Whether the wallpaper tile for `path` is the current wallpaper `cur`,
/// given as the path or as a `file://` address.
pub fn wallpaper_selected(cur: &str, path: &str) -> (r: bool)
    ensures
        r == (cur@ == path@ || cur@ == "file://"@ + path@),
{
    let mut with_scheme = String::from_str("file://");
    with_scheme.append(path);
    crate::text::str_eq(cur, path) || crate::text::str_eq(cur, with_scheme.as_str())
}

/// The message of a failed display change as its chip shows it: the
/// first 48 bytes and `…` when it is longer.
pub open spec fn short_error(e: Seq<char>) -> Seq<char> {
    let b = encode_utf8(e);
    if b.len() > 48 {
        decode_utf8(b.subrange(0, 48)) + "…"@
    } else {
        e
    }
}

/// The error chip of the display page: `Error: ` and the shortened message
/// (see [`short_error`]). The message is cut at byte 48, which must fall
/// between two characters when the message is longer.
pub fn error_chip_text(e: &str) -> (r: String)
    requires
        encode_utf8(e@).len() > 48 ==> is_char_boundary(encode_utf8(e@), 48),
    ensures
        r@ == "Error: "@ + short_error(e@),
{
    broadcast use vstd::utf8::encode_utf8_decode_utf8;

    let mut r = String::from_str("Error: ");
    if e.as_bytes().len() > 48 {
        let (head, _) = e.split_at(48);
        assert(encode_utf8(head@) == encode_utf8(e@).subrange(0, 48));
        assert(head@ == decode_utf8(encode_utf8(e@).subrange(0, 48)));
        r.append(head);
        r.append("…");
    } else {
        r.append(e);
    }
    r
}

/// The battery's health on the battery page: the percentage when known,
/// else `91%`.
pub fn health_text(health: Option<u8>) -> (r: String)
    ensures
        r@ == match health {
            Some(h) => decimal(h as nat) + "%"@,
            None => "91%"@,
        },
{
    match health {
        Some(h) => {
            let mut r = u64_text(h as u64);
            r.append("%");
            r
        },
        None => String::from_str("91%"),
    }
}

/// The network page's connection badge: `Online` when Wi-Fi is on and a
/// network is in use, else `Offline`.
pub fn online_text(wifi_on: bool, active: &Option<String>) -> (r: &'static str)
    ensures
        r@ == if wifi_on && active is Some {
            "Online"@
        } else {
            "Offline"@
        },
{
    if wifi_on && active.is_some() {
        "Online"
    } else {
        "Offline"
    }
}

} // verus!
