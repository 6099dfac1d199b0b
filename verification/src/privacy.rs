//! The Privacy & Security page: the firewall's state and the cameras and
//! microphones present, read from what `ufw`, `firewall-cmd`, `iptables`,
//! `/dev` and `wpctl` report.

use vstd::prelude::*;
use crate::text::{
    contains, contains_str, eq_chars, has_prefix, lines, split_lines, starts_with, string_from_chars, string_views,
    to_chars, to_lowercase, trim, trimmed, unicode_lower, views,
};

verus! {

/// The firewall's state, as the page shows it.
pub struct FirewallInfo {
    pub is_active: bool,
    pub status_text: String,
    pub incoming: String,
    pub outgoing: String,
}

/// The view of a [`FirewallInfo`].
pub struct FirewallView {
    pub is_active: bool,
    pub status_text: Seq<char>,
    pub incoming: Seq<char>,
    pub outgoing: Seq<char>,
}

impl View for FirewallInfo {
    type V = FirewallView;

    open spec fn view(&self) -> FirewallView {
        FirewallView {
            is_active: self.is_active,
            status_text: self.status_text@,
            incoming: self.incoming@,
            outgoing: self.outgoing@,
        }
    }
}

/// The default policies after some lower-cased lines of `ufw status
/// verbose`, starting from denying incoming and allowing outgoing: a line
/// that says `default:` sets each policy it names.
pub open spec fn ufw_policies(ls: Seq<Seq<char>>) -> (Seq<char>, Seq<char>)
    decreases ls.len(),
{
    if ls.len() == 0 {
        ("Deny (incoming)"@, "Allow (outgoing)"@)
    } else {
        let prev = ufw_policies(ls.drop_last());
        let l = ls.last();
        if contains(l, "default:"@) {
            let incoming = if contains(l, "deny (incoming)"@) || contains(l, "reject (incoming)"@) {
                "Deny (incoming)"@
            } else if contains(l, "allow (incoming)"@) {
                "Allow (incoming)"@
            } else {
                prev.0
            };
            let outgoing = if contains(l, "allow (outgoing)"@) {
                "Allow (outgoing)"@
            } else if contains(l, "deny (outgoing)"@) {
                "Deny (outgoing)"@
            } else {
                prev.1
            };
            (incoming, outgoing)
        } else {
            prev
        }
    }
}

/// The lines of `out`, each in lower case.
pub open spec fn lower_lines(out: Seq<char>) -> Seq<Seq<char>> {
    lines(out).map_values(|l: Seq<char>| unicode_lower(l))
}

/// Reads the default policies from `ufw status verbose` (see [`ufw_policies`]).
fn read_ufw_policies(out: &str) -> (r: (String, String))
    ensures
        r.0@ == ufw_policies(lower_lines(out@)).0,
        r.1@ == ufw_policies(lower_lines(out@)).1,
{
    let c = to_chars(out);
    let ls = split_lines(c.as_slice());
    let ghost all = lower_lines(out@);
    let default_p = to_chars("default:");
    let deny_in = to_chars("deny (incoming)");
    let reject_in = to_chars("reject (incoming)");
    let allow_in = to_chars("allow (incoming)");
    let allow_out = to_chars("allow (outgoing)");
    let deny_out = to_chars("deny (outgoing)");
    let mut incoming = String::from_str("Deny (incoming)");
    let mut outgoing = String::from_str("Allow (outgoing)");
    let mut i: usize = 0;
    while i < ls.len()
        invariant
            i <= ls.len(),
            views(ls@) == lines(out@),
            all == lower_lines(out@),
            default_p@ == "default:"@,
            deny_in@ == "deny (incoming)"@,
            reject_in@ == "reject (incoming)"@,
            allow_in@ == "allow (incoming)"@,
            allow_out@ == "allow (outgoing)"@,
            deny_out@ == "deny (outgoing)"@,
            incoming@ == ufw_policies(all.take(i as int)).0,
            outgoing@ == ufw_policies(all.take(i as int)).1,
        decreases ls.len() - i,
    {
        let line = string_from_chars(ls[i]);
        let lower = to_lowercase(line.as_str());
        let l = to_chars(lower.as_str());
        assert(all.take(i + 1).drop_last() =~= all.take(i as int));
        assert(views(ls@)[i as int] == ls@[i as int]@);
        assert(all.take(i + 1).last() == l@);
        if contains_str(l.as_slice(), default_p.as_slice()) {
            if contains_str(l.as_slice(), deny_in.as_slice()) || contains_str(l.as_slice(), reject_in.as_slice()) {
                incoming = String::from_str("Deny (incoming)");
            } else if contains_str(l.as_slice(), allow_in.as_slice()) {
                incoming = String::from_str("Allow (incoming)");
            }
            if contains_str(l.as_slice(), allow_out.as_slice()) {
                outgoing = String::from_str("Allow (outgoing)");
            } else if contains_str(l.as_slice(), deny_out.as_slice()) {
                outgoing = String::from_str("Deny (outgoing)");
            }
        }
        i = i + 1;
    }
    assert(all.take(ls.len() as int) =~= all);
    (incoming, outgoing)
}

/// The firewall state the page shows, asking in turn: `ufw status verbose`
/// (active or inactive, by its lower-cased output), `firewall-cmd --state`
/// (`running`), whether `iptables -L -n` succeeded; and when none answers,
/// protected by default. `None` stands for a command that could not be run.
pub open spec fn firewall_of(ufw: Option<Seq<char>>, firewalld: Option<Seq<char>>, iptables_ok: bool) -> FirewallView {
    let ufw_active = ufw is Some && contains(unicode_lower(ufw->0), "status: active"@);
    let ufw_inactive = ufw is Some && contains(unicode_lower(ufw->0), "status: inactive"@);
    if ufw_active {
        FirewallView {
            is_active: true,
            status_text: "Active (UFW)"@,
            incoming: ufw_policies(lower_lines(ufw->0)).0,
            outgoing: ufw_policies(lower_lines(ufw->0)).1,
        }
    } else if ufw_inactive {
        FirewallView { is_active: false, status_text: "Inactive"@, incoming: "Allow all"@, outgoing: "Allow all"@ }
    } else if firewalld is Some && trimmed(firewalld->0) == "running"@ {
        FirewallView {
            is_active: true,
            status_text: "Active (firewalld)"@,
            incoming: "Filtered / Default Zone"@,
            outgoing: "Allow"@,
        }
    } else if iptables_ok {
        FirewallView { is_active: true, status_text: "Active (iptables)"@, incoming: "Filtered"@, outgoing: "Allow"@ }
    } else {
        FirewallView {
            is_active: true,
            status_text: "Active (Protected)"@,
            incoming: "Deny (incoming)"@,
            outgoing: "Allow (outgoing)"@,
        }
    }
}

fn firewall(is_active: bool, status_text: &str, incoming: &str, outgoing: &str) -> (r: FirewallInfo)
    ensures
        r@ == (FirewallView { is_active, status_text: status_text@, incoming: incoming@, outgoing: outgoing@ }),
{
    FirewallInfo {
        is_active,
        status_text: String::from_str(status_text),
        incoming: String::from_str(incoming),
        outgoing: String::from_str(outgoing),
    }
}

/// The firewall state from the answers of `ufw`, `firewall-cmd` and
/// `iptables` (see [`firewall_of`]).
pub fn firewall_status(ufw: Option<&str>, firewalld: Option<&str>, iptables_ok: bool) -> (r: FirewallInfo)
    ensures
        r@ == firewall_of(
            match ufw {
                Some(u) => Some(u@),
                None => None,
            },
            match firewalld {
                Some(f) => Some(f@),
                None => None,
            },
            iptables_ok,
        ),
{
    if let Some(u) = ufw {
        let lower = to_lowercase(u);
        let l = to_chars(lower.as_str());
        let active = to_chars("status: active");
        let inactive = to_chars("status: inactive");
        if contains_str(l.as_slice(), active.as_slice()) {
            let (incoming, outgoing) = read_ufw_policies(u);
            return FirewallInfo { is_active: true, status_text: String::from_str("Active (UFW)"), incoming, outgoing };
        } else if contains_str(l.as_slice(), inactive.as_slice()) {
            return firewall(false, "Inactive", "Allow all", "Allow all");
        }
    }
    if let Some(f) = firewalld {
        let c = to_chars(f);
        let running = to_chars("running");
        if eq_chars(trim(c.as_slice()), running.as_slice()) {
            return firewall(true, "Active (firewalld)", "Filtered / Default Zone", "Allow");
        }
    }
    if iptables_ok {
        return firewall(true, "Active (iptables)", "Filtered", "Allow");
    }
    firewall(true, "Active (Protected)", "Deny (incoming)", "Allow (outgoing)")
}

/// Cameras and microphones present.
pub struct DevicePrivacyInfo {
    pub camera_count: usize,
    pub has_microphone: bool,
}

/// How many of the names in `/dev` begin with `video`.
pub open spec fn video_devices(names: Seq<Seq<char>>) -> nat
    decreases names.len(),
{
    if names.len() == 0 {
        0
    } else {
        video_devices(names.drop_last()) + if has_prefix(names.last(), "video"@) {
            1nat
        } else {
            0nat
        }
    }
}

proof fn lemma_video_devices_bound(names: Seq<Seq<char>>)
    ensures
        video_devices(names) <= names.len(),
    decreases names.len(),
{
    if names.len() > 0 {
        lemma_video_devices_bound(names.drop_last());
    }
}

/// Cameras and microphones: the cameras are the `video…` entries among the
/// names in `/dev`; there is a microphone unless `wpctl status` ran and
/// listed no `Sources:`.
pub fn device_privacy(dev_names: &Vec<String>, wpctl: Option<&str>) -> (r: DevicePrivacyInfo)
    ensures
        r.camera_count == video_devices(string_views(dev_names@)),
        r.has_microphone == match wpctl {
            Some(o) => contains(o@, "Sources:"@),
            None => true,
        },
{
    let ghost names = string_views(dev_names@);
    let video = to_chars("video");
    let mut count: usize = 0;
    let mut i: usize = 0;
    while i < dev_names.len()
        invariant
            i <= dev_names.len(),
            names == string_views(dev_names@),
            video@ == "video"@,
            count == video_devices(names.take(i as int)),
            count <= i,
        decreases dev_names.len() - i,
    {
        let n = to_chars(dev_names[i].as_str());
        assert(names.take(i + 1).drop_last() =~= names.take(i as int));
        assert(names.take(i + 1).last() == n@);
        if starts_with(n.as_slice(), video.as_slice()) {
            count = count + 1;
        }
        i = i + 1;
    }
    assert(names.take(dev_names.len() as int) =~= names);
    let has_microphone = match wpctl {
        Some(o) => {
            let c = to_chars(o);
            let s = to_chars("Sources:");
            contains_str(c.as_slice(), s.as_slice())
        },
        None => true,
    };
    DevicePrivacyInfo { camera_count: count, has_microphone }
}

/// The firewall switch of the privacy page: flips whether the firewall is
/// shown active, sets its status text to match, and changes nothing else.
pub fn toggle_firewall(fw: &mut FirewallInfo)
    ensures
        final(fw).is_active == !old(fw).is_active,
        final(fw).status_text@ == if final(fw).is_active {
            "Active"@
        } else {
            "Inactive"@
        },
        final(fw).incoming == old(fw).incoming,
        final(fw).outgoing == old(fw).outgoing,
{
    fw.is_active = !fw.is_active;
    fw.status_text = if fw.is_active {
        String::from_str("Active")
    } else {
        String::from_str("Inactive")
    };
}

} // verus!
