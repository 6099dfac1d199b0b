//! The network page: what `nmcli` and `ip` report, read into Wi-Fi
//! networks, VPN connections and the primary route.

use vstd::prelude::*;
use crate::text::{
    contains, contains_str, eq_chars, holds_string, lines, parse_unsigned, parse_u64_max, split_char,
    split_lines, string_from_chars, string_views, to_chars, trim, trimmed, views, split_on, text_less,
    text_before, lemma_text_less_total, lemma_text_less_transitive, opt_text, str_eq, words, split_ws,
    has_prefix, is_digit, starts_with, eq_ignore_case, eq_ignore_ascii_case, lemma_split_on_nonempty, join3,
};

verus! {

/// A Wi-Fi network, as the page lists it.
pub struct WifiNetwork {
    pub ssid: String,
    pub signal: u8,
    pub security: String,
    pub connected: bool,
    pub is_known: bool,
}

/// The view of a [`WifiNetwork`].
pub struct WifiView {
    pub ssid: Seq<char>,
    pub signal: u8,
    pub security: Seq<char>,
    pub connected: bool,
    pub is_known: bool,
}

impl View for WifiNetwork {
    type V = WifiView;

    open spec fn view(&self) -> WifiView {
        WifiView {
            ssid: self.ssid@,
            signal: self.signal,
            security: self.security@,
            connected: self.connected,
            is_known: self.is_known,
        }
    }
}

/// The views of a list of networks.
pub open spec fn wifi_views(s: Seq<WifiNetwork>) -> Seq<WifiView> {
    s.map_values(|w: WifiNetwork| w@)
}

/// The Wi-Fi radio state that `nmcli radio wifi` printed: nothing when it
/// printed nothing, else whether it printed `enabled`.
pub open spec fn radio_state(out: Seq<char>) -> Option<bool> {
    if trimmed(out).len() == 0 {
        None
    } else {
        Some(trimmed(out) == "enabled"@)
    }
}

/// Reads the output of `nmcli radio wifi`.
pub fn wifi_radio_state(out: &str) -> (r: Option<bool>)
    ensures
        r == radio_state(out@),
{
    let c = to_chars(out);
    let t = trim(c.as_slice());
    if t.len() == 0 {
        None
    } else {
        let e = to_chars("enabled");
        Some(eq_chars(t, e.as_slice()))
    }
}

/// The saved Wi-Fi connection a line of `nmcli -t -f NAME,TYPE connection
/// show` names: its name, when its type is a wireless one and the name is
/// not blank.
pub open spec fn saved_name(line: Seq<char>) -> Option<Seq<char>> {
    let parts = split_on(line, ':');
    if parts.len() >= 2 && contains(parts[1], "802-11-wireless"@) && trimmed(parts[0]).len() > 0 {
        Some(trimmed(parts[0]))
    } else {
        None
    }
}

/// The saved Wi-Fi names in some lines, each once, in the order they first
/// appear.
pub open spec fn saved_names(ls: Seq<Seq<char>>) -> Seq<Seq<char>>
    decreases ls.len(),
{
    if ls.len() == 0 {
        seq![]
    } else {
        let prev = saved_names(ls.drop_last());
        match saved_name(ls.last()) {
            Some(n) => if prev.contains(n) {
                prev
            } else {
                prev.push(n)
            },
            None => prev,
        }
    }
}

/// No name occurs twice.
pub open spec fn distinct_names(s: Seq<Seq<char>>) -> bool {
    forall|i: int, j: int| 0 <= i < j < s.len() ==> s[i] != s[j]
}

proof fn lemma_saved_names_distinct(ls: Seq<Seq<char>>)
    ensures
        distinct_names(saved_names(ls)),
    decreases ls.len(),
{
    if ls.len() > 0 {
        lemma_saved_names_distinct(ls.drop_last());
        let prev = saved_names(ls.drop_last());
        if let Some(n) = saved_name(ls.last()) {
            if !prev.contains(n) {
                assert forall|i: int, j: int| 0 <= i < j < prev.push(n).len() implies prev.push(n)[i]
                    != prev.push(n)[j] by {
                    if j == prev.len() {
                        assert(prev[i] == prev.push(n)[i]);
                    }
                }
            }
        }
    }
}

/// Reads the saved Wi-Fi names from `nmcli -t -f NAME,TYPE connection show`.
pub fn saved_wifi_names(out: &str) -> (r: Vec<String>)
    ensures
        string_views(r@) == saved_names(lines(out@)),
        distinct_names(string_views(r@)),
{
    let c = to_chars(out);
    let ls = split_lines(c.as_slice());
    let ghost all = views(ls@);
    let wireless = to_chars("802-11-wireless");
    let mut r: Vec<String> = Vec::new();
    let mut i: usize = 0;
    while i < ls.len()
        invariant
            i <= ls.len(),
            all == views(ls@),
            all == lines(out@),
            wireless@ == "802-11-wireless"@,
            string_views(r@) == saved_names(all.take(i as int)),
        decreases ls.len() - i,
    {
        let line = ls[i];
        let parts = split_char(line, ':');
        assert(all.take(i + 1).drop_last() =~= all.take(i as int));
        assert(all.take(i + 1).last() == line@);
        if parts.len() >= 2 && contains_str(parts[1], wireless.as_slice()) {
            assert(views(parts@)[1] == parts@[1]@);
            assert(views(parts@)[0] == parts@[0]@);
            let name = trim(parts[0]);
            if name.len() > 0 {
                let s = string_from_chars(name);
                if !holds_string(&r, s.as_str()) {
                    let ghost before = string_views(r@);
                    r.push(s);
                    assert(string_views(r@) =~= before.push(name@));
                }
            }
        }
        i = i + 1;
    }
    assert(all.take(ls.len() as int) =~= all);
    proof {
        lemma_saved_names_distinct(all);
    }
    r
}

/// Whether a network with this SSID is in the list.
pub open spec fn ssid_listed(nets: Seq<WifiView>, ssid: Seq<char>) -> bool {
    exists|i: int| 0 <= i < nets.len() && nets[i].ssid == ssid
}

/// The signal strength in a scan line: the number, or 50 when it is not one.
pub open spec fn scan_signal(t: Seq<char>) -> u8 {
    match parse_unsigned(t, 255) {
        Some(n) => n as u8,
        None => 50,
    }
}

/// The security in a scan line: `Open` when blank.
pub open spec fn scan_security(t: Seq<char>) -> Seq<char> {
    if t.len() == 0 {
        "Open"@
    } else {
        t
    }
}

/// The networks that `nmcli -t -f SSID,SIGNAL,SECURITY,IN-USE dev wifi`
/// listed in some lines, each SSID once (its first line counts), and the SSID
/// of the last one in use. `saved` are the saved names.
pub open spec fn scanned(ls: Seq<Seq<char>>, saved: Seq<Seq<char>>) -> (Seq<WifiView>, Option<Seq<char>>)
    decreases ls.len(),
{
    if ls.len() == 0 {
        (seq![], None)
    } else {
        let prev = scanned(ls.drop_last(), saved);
        let parts = split_on(ls.last(), ':');
        let ssid = trimmed(parts[0]);
        if parts.len() >= 4 && ssid.len() > 0 && !ssid_listed(prev.0, ssid) {
            let connected = trimmed(parts[3]) == "*"@;
            let w = WifiView {
                ssid,
                signal: scan_signal(trimmed(parts[1])),
                security: scan_security(trimmed(parts[2])),
                connected,
                is_known: saved.contains(ssid),
            };
            (prev.0.push(w), if connected { Some(ssid) } else { prev.1 })
        } else {
            prev
        }
    }
}

/// Whether a network with the SSID `s` is in `nets`.
fn lists_ssid(nets: &Vec<WifiNetwork>, s: &[char]) -> (r: bool)
    ensures
        r == ssid_listed(wifi_views(nets@), s@),
{
    let mut i: usize = 0;
    while i < nets.len()
        invariant
            i <= nets.len(),
            forall|j: int| 0 <= j < i ==> nets@[j].ssid@ != s@,
        decreases nets.len() - i,
    {
        let c = to_chars(nets[i].ssid.as_str());
        if eq_chars(c.as_slice(), s) {
            assert(wifi_views(nets@)[i as int].ssid == s@);
            return true;
        }
        i = i + 1;
    }
    false
}

/// Reads the networks of a Wi-Fi scan (see [`scanned`]); `saved` are the
/// saved Wi-Fi names.
pub fn scan_wifi(out: &str, saved: &Vec<String>) -> (r: (Vec<WifiNetwork>, Option<String>))
    ensures
        wifi_views(r.0@) == scanned(lines(out@), string_views(saved@)).0,
        r.1 matches Some(a) ==> scanned(lines(out@), string_views(saved@)).1 == Some(a@),
        r.1 is None ==> scanned(lines(out@), string_views(saved@)).1 is None,
{
    let c = to_chars(out);
    let ls = split_lines(c.as_slice());
    let ghost all = views(ls@);
    let ghost sv = string_views(saved@);
    let star = to_chars("*");
    let mut nets: Vec<WifiNetwork> = Vec::new();
    let mut active: Option<String> = None;
    let mut i: usize = 0;
    while i < ls.len()
        invariant
            i <= ls.len(),
            all == views(ls@),
            all == lines(out@),
            sv == string_views(saved@),
            star@ == "*"@,
            wifi_views(nets@) == scanned(all.take(i as int), sv).0,
            active matches Some(a) ==> scanned(all.take(i as int), sv).1 == Some(a@),
            active is None ==> scanned(all.take(i as int), sv).1 is None,
        decreases ls.len() - i,
    {
        let line = ls[i];
        let parts = split_char(line, ':');
        assert(all.take(i + 1).drop_last() =~= all.take(i as int));
        assert(all.take(i + 1).last() == line@);
        if parts.len() >= 4 {
            assert(views(parts@)[0] == parts@[0]@);
            assert(views(parts@)[1] == parts@[1]@);
            assert(views(parts@)[2] == parts@[2]@);
            assert(views(parts@)[3] == parts@[3]@);
            let ssid = trim(parts[0]);
            if ssid.len() > 0 && !lists_ssid(&nets, ssid) {
                let sig = trim(parts[1]);
                let signal: u8 = match parse_u64_max(sig, 255) {
                    Some(n) => n as u8,
                    None => 50,
                };
                let sec = trim(parts[2]);
                let security = if sec.len() == 0 {
                    String::from_str("Open")
                } else {
                    string_from_chars(sec)
                };
                let connected = eq_chars(trim(parts[3]), star.as_slice());
                let name = string_from_chars(ssid);
                let is_known = holds_string(saved, name.as_str());
                if connected {
                    active = Some(string_from_chars(ssid));
                }
                let ghost before = wifi_views(nets@);
                nets.push(WifiNetwork { ssid: name, signal, security, connected, is_known });
                assert(wifi_views(nets@) =~= before.push(nets@.last()@));
            }
        }
        i = i + 1;
    }
    assert(all.take(ls.len() as int) =~= all);
    (nets, active)
}

/// The first network in `nets` with the SSID `s`.
pub open spec fn first_with_ssid(nets: Seq<WifiView>, s: Seq<char>) -> Option<WifiView>
    decreases nets.len(),
{
    if nets.len() == 0 {
        None
    } else if nets[0].ssid == s {
        Some(nets[0])
    } else {
        first_with_ssid(nets.drop_first(), s)
    }
}

/// How the saved network `s` is listed: signal and security as the first
/// scanned network with that SSID shows them (0 and `Saved` when none does),
/// connected when it is the active one.
pub open spec fn saved_entry(s: Seq<char>, avail: Seq<WifiView>, active: Option<Seq<char>>) -> WifiView {
    WifiView {
        ssid: s,
        signal: match first_with_ssid(avail, s) {
            Some(n) => n.signal,
            None => 0,
        },
        security: match first_with_ssid(avail, s) {
            Some(n) => n.security,
            None => "Saved"@,
        },
        connected: active == Some(s),
        is_known: true,
    }
}

/// Whether `a` is listed before `b`: a connected network first, then by SSID.
pub open spec fn listed_before(a: WifiView, b: WifiView) -> bool {
    (a.connected && !b.connected) || (a.connected == b.connected && text_less(a.ssid, b.ssid))
}

/// `r` lists the saved networks `saved`: one entry for each (see
/// [`saved_entry`]), ordered by [`listed_before`].
pub open spec fn lists_saved(
    r: Seq<WifiView>,
    saved: Seq<Seq<char>>,
    avail: Seq<WifiView>,
    active: Option<Seq<char>>,
) -> bool {
    &&& r.len() == saved.len()
    &&& forall|i: int| 0 <= i < r.len() ==> saved.contains(#[trigger] r[i].ssid)
    &&& forall|i: int| 0 <= i < r.len() ==> #[trigger] r[i] == saved_entry(r[i].ssid, avail, active)
    &&& forall|j: int| 0 <= j < saved.len() ==> ssid_listed(r, #[trigger] saved[j])
    &&& forall|i: int, j: int| 0 <= i < j < r.len() ==> listed_before(r[i], r[j])
}

proof fn lemma_listed_order(a: WifiView, b: WifiView, c: WifiView)
    ensures
        a.ssid != b.ssid ==> listed_before(a, b) || listed_before(b, a),
        listed_before(a, b) && listed_before(b, c) ==> listed_before(a, c),
{
    if a.ssid != b.ssid {
        lemma_text_less_total(a.ssid, b.ssid);
    }
    if listed_before(a, b) && listed_before(b, c) && a.connected == b.connected && b.connected == c.connected {
        lemma_text_less_transitive(a.ssid, b.ssid, c.ssid);
    }
}

/// Index of the first network in `nets` with the SSID `s`.
pub fn first_network_index(nets: &Vec<WifiNetwork>, s: &[char]) -> (r: Option<usize>)
    ensures
        r matches Some(i) ==> i < nets@.len() && first_with_ssid(wifi_views(nets@), s@) == Some(nets@[i as int]@),
        r is None ==> first_with_ssid(wifi_views(nets@), s@) is None,
{
    let ghost v = wifi_views(nets@);
    let mut i: usize = 0;
    assert(v.skip(0) =~= v);
    while i < nets.len()
        invariant
            i <= nets.len(),
            v == wifi_views(nets@),
            first_with_ssid(v, s@) == first_with_ssid(v.skip(i as int), s@),
        decreases nets.len() - i,
    {
        let c = to_chars(nets[i].ssid.as_str());
        assert(v.skip(i as int)[0] == nets@[i as int]@);
        if eq_chars(c.as_slice(), s) {
            return Some(i);
        }
        assert(v.skip(i as int).drop_first() =~= v.skip(i + 1));
        i = i + 1;
    }
    None
}

/// The entry for the saved network `name` (see [`saved_entry`]).
fn saved_network(name: &String, avail: &Vec<WifiNetwork>, active: &Option<String>) -> (r: WifiNetwork)
    ensures
        r@ == saved_entry(name@, wifi_views(avail@), opt_text(*active)),
{
    let c = to_chars(name.as_str());
    let (signal, security) = match first_network_index(avail, c.as_slice()) {
        Some(i) => (avail[i].signal, avail[i].security.clone()),
        None => (0, String::from_str("Saved")),
    };
    let connected = match active {
        Some(a) => str_eq(a.as_str(), name.as_str()),
        None => false,
    };
    WifiNetwork { ssid: name.clone(), signal, security, connected, is_known: true }
}

/// Decides [`listed_before`].
fn is_listed_before(a: &WifiNetwork, b: &WifiNetwork) -> (r: bool)
    ensures
        r == listed_before(a@, b@),
{
    if a.connected != b.connected {
        a.connected
    } else {
        let x = to_chars(a.ssid.as_str());
        let y = to_chars(b.ssid.as_str());
        text_before(x.as_slice(), y.as_slice())
    }
}

/// The saved networks as the page lists them (see [`lists_saved`]): `avail`
/// are the scanned networks, `active` the SSID in use.
pub fn saved_networks(saved: &Vec<String>, avail: &Vec<WifiNetwork>, active: &Option<String>) -> (r: Vec<WifiNetwork>)
    requires
        distinct_names(string_views(saved@)),
    ensures
        lists_saved(wifi_views(r@), string_views(saved@), wifi_views(avail@), opt_text(*active)),
{
    let ghost sv = string_views(saved@);
    let ghost av = wifi_views(avail@);
    let ghost ac = opt_text(*active);
    let mut r: Vec<WifiNetwork> = Vec::new();
    let mut k: usize = 0;
    while k < saved.len()
        invariant
            k <= saved.len(),
            sv == string_views(saved@),
            av == wifi_views(avail@),
            ac == opt_text(*active),
            distinct_names(sv),
            lists_saved(wifi_views(r@), sv.take(k as int), av, ac),
        decreases saved.len() - k,
    {
        let e = saved_network(&saved[k], avail, active);
        let ghost old_r = wifi_views(r@);
        let mut p: usize = 0;
        while p < r.len() && !is_listed_before(&e, &r[p])
            invariant
                p <= r.len(),
                old_r == wifi_views(r@),
                forall|q: int| 0 <= q < p ==> !listed_before(e@, old_r[q]),
            decreases r.len() - p,
        {
            p = p + 1;
        }
        let ghost ev = e@;
        r.insert(p, e);
        proof {
            let nr = wifi_views(r@);
            let t = sv.take(k as int);
            let t2 = sv.take(k + 1);
            assert(nr =~= old_r.insert(p as int, ev));
            assert(ev.ssid == sv[k as int]);
            assert forall|q: int| 0 <= q < old_r.len() implies old_r[q].ssid != ev.ssid by {
                assert(t.contains(old_r[q].ssid));
                let j = choose|j: int| 0 <= j < t.len() && t[j] == old_r[q].ssid;
                assert(sv[j] == old_r[q].ssid);
            }
            assert forall|q: int| 0 <= q < p implies listed_before(old_r[q], ev) by {
                lemma_listed_order(old_r[q], ev, ev);
            }
            assert forall|q: int| p <= q < old_r.len() implies listed_before(ev, old_r[q]) by {
                if q > p {
                    lemma_listed_order(ev, old_r[p as int], old_r[q]);
                }
            }
            assert forall|i: int| 0 <= i < nr.len() implies t2.contains(#[trigger] nr[i].ssid) by {
                if i < p {
                    assert(nr[i] == old_r[i]);
                    let j = choose|j: int| 0 <= j < t.len() && t[j] == old_r[i].ssid;
                    assert(t2[j] == t[j]);
                } else if i == p {
                    assert(t2[k as int] == ev.ssid);
                } else {
                    assert(nr[i] == old_r[i - 1]);
                    let j = choose|j: int| 0 <= j < t.len() && t[j] == old_r[i - 1].ssid;
                    assert(t2[j] == t[j]);
                }
            }
            assert forall|i: int| 0 <= i < nr.len() implies #[trigger] nr[i] == saved_entry(nr[i].ssid, av, ac) by {
                if i < p {
                    assert(nr[i] == old_r[i]);
                } else if i > p {
                    assert(nr[i] == old_r[i - 1]);
                }
            }
            assert forall|j: int| 0 <= j < t2.len() implies ssid_listed(nr, #[trigger] t2[j]) by {
                if j == k {
                    assert(nr[p as int].ssid == t2[j]);
                } else {
                    assert(t2[j] == t[j]);
                    assert(ssid_listed(old_r, t[j]));
                    let i = choose|i: int| 0 <= i < old_r.len() && old_r[i].ssid == t[j];
                    if i < p {
                        assert(nr[i].ssid == t2[j]);
                    } else {
                        assert(nr[i + 1].ssid == t2[j]);
                    }
                }
            }
            assert forall|i: int, j: int| 0 <= i < j < nr.len() implies listed_before(nr[i], nr[j]) by {
                if j < p {
                    assert(nr[i] == old_r[i] && nr[j] == old_r[j]);
                } else if j == p {
                    assert(nr[i] == old_r[i]);
                } else if i < p {
                    assert(nr[i] == old_r[i] && nr[j] == old_r[j - 1]);
                    lemma_listed_order(old_r[i], ev, old_r[j - 1]);
                } else if i == p {
                    assert(nr[j] == old_r[j - 1]);
                } else {
                    assert(nr[i] == old_r[i - 1] && nr[j] == old_r[j - 1]);
                }
            }
        }
        k = k + 1;
    }
    assert(sv.take(saved.len() as int) =~= sv);
    r
}

/// The kind of a VPN or tunnel interface.
#[derive(Clone, Copy, PartialEq, Eq, Structural)]
pub enum VpnKind {
    Tailscale,
    Tunnel,
    WireGuard,
}

/// The kind of VPN an interface name shows: `tailscale…`, `tun…` or `tap…`,
/// `wg…`; none for any other interface.
pub open spec fn vpn_kind_of(iface: Seq<char>) -> Option<VpnKind> {
    if has_prefix(iface, "tailscale"@) {
        Some(VpnKind::Tailscale)
    } else if has_prefix(iface, "tun"@) || has_prefix(iface, "tap"@) {
        Some(VpnKind::Tunnel)
    } else if has_prefix(iface, "wg"@) {
        Some(VpnKind::WireGuard)
    } else {
        None
    }
}

/// A VPN interface that `ip -br link show` listed.
pub struct VpnLink {
    pub interface: String,
    pub kind: VpnKind,
    pub up: bool,
}

/// The view of a [`VpnLink`].
pub struct VpnLinkView {
    pub interface: Seq<char>,
    pub kind: VpnKind,
    pub up: bool,
}

impl View for VpnLink {
    type V = VpnLinkView;

    open spec fn view(&self) -> VpnLinkView {
        VpnLinkView { interface: self.interface@, kind: self.kind, up: self.up }
    }
}

/// The VPN interface a line of `ip -br link show` lists, if any: its name,
/// kind, and whether its state is `UP` or `UNKNOWN` (in any case).
pub open spec fn vpn_link_of(line: Seq<char>) -> Option<VpnLinkView> {
    let w = words(line);
    if w.len() >= 2 && vpn_kind_of(trimmed(w[0])) is Some {
        let state = trimmed(w[1]);
        Some(
            VpnLinkView {
                interface: trimmed(w[0]),
                kind: vpn_kind_of(trimmed(w[0]))->0,
                up: eq_ignore_case(state, "UP"@) || eq_ignore_case(state, "UNKNOWN"@),
            },
        )
    } else {
        None
    }
}

/// The VPN interfaces listed in some lines, in order.
pub open spec fn vpn_links_in(ls: Seq<Seq<char>>) -> Seq<VpnLinkView>
    decreases ls.len(),
{
    if ls.len() == 0 {
        seq![]
    } else {
        match vpn_link_of(ls.last()) {
            Some(l) => vpn_links_in(ls.drop_last()).push(l),
            None => vpn_links_in(ls.drop_last()),
        }
    }
}

/// Reads the VPN interfaces from `ip -br link show`.
pub fn vpn_links(out: &str) -> (r: Vec<VpnLink>)
    ensures
        r@.map_values(|l: VpnLink| l@) == vpn_links_in(lines(out@)),
{
    let c = to_chars(out);
    let ls = split_lines(c.as_slice());
    let ghost all = views(ls@);
    let tailscale = to_chars("tailscale");
    let tun = to_chars("tun");
    let tap = to_chars("tap");
    let wg = to_chars("wg");
    let up = to_chars("UP");
    let unknown = to_chars("UNKNOWN");
    let mut r: Vec<VpnLink> = Vec::new();
    let mut i: usize = 0;
    while i < ls.len()
        invariant
            i <= ls.len(),
            all == views(ls@),
            all == lines(out@),
            tailscale@ == "tailscale"@,
            tun@ == "tun"@,
            tap@ == "tap"@,
            wg@ == "wg"@,
            up@ == "UP"@,
            unknown@ == "UNKNOWN"@,
            r@.map_values(|l: VpnLink| l@) == vpn_links_in(all.take(i as int)),
        decreases ls.len() - i,
    {
        let line = ls[i];
        let w = split_ws(line);
        assert(all.take(i + 1).drop_last() =~= all.take(i as int));
        assert(all.take(i + 1).last() == line@);
        if w.len() >= 2 {
            assert(views(w@)[0] == w@[0]@);
            assert(views(w@)[1] == w@[1]@);
            let iface = trim(w[0]);
            let kind = if starts_with(iface, tailscale.as_slice()) {
                Some(VpnKind::Tailscale)
            } else if starts_with(iface, tun.as_slice()) || starts_with(iface, tap.as_slice()) {
                Some(VpnKind::Tunnel)
            } else if starts_with(iface, wg.as_slice()) {
                Some(VpnKind::WireGuard)
            } else {
                None
            };
            if let Some(k) = kind {
                let state = trim(w[1]);
                let is_up = eq_ignore_ascii_case(state, up.as_slice()) || eq_ignore_ascii_case(
                    state,
                    unknown.as_slice(),
                );
                let ghost before = r@.map_values(|l: VpnLink| l@);
                r.push(VpnLink { interface: string_from_chars(iface), kind: k, up: is_up });
                assert(r@.map_values(|l: VpnLink| l@) =~= before.push(r@.last()@));
            }
        }
        i = i + 1;
    }
    assert(all.take(ls.len() as int) =~= all);
    r
}

/// Whether `a` is written as an IPv4 address: digits and dots, with at
/// least one dot.
pub open spec fn is_ipv4(a: Seq<char>) -> bool {
    &&& a.contains('.')
    &&& forall|k: int| 0 <= k < a.len() ==> (#[trigger] a[k] == '.' || is_digit(a[k]))
}

/// The first of the fields `ws` from the `j`th on whose address (up to its
/// first `/`) is IPv4, as that address.
pub open spec fn first_ipv4(ws: Seq<Seq<char>>, j: int) -> Option<Seq<char>>
    decreases ws.len() - j,
{
    if j < 0 || j >= ws.len() {
        None
    } else if is_ipv4(split_on(ws[j], '/')[0]) {
        Some(split_on(ws[j], '/')[0])
    } else {
        first_ipv4(ws, j + 1)
    }
}

/// The IPv4 address `ip -br addr show dev IFACE` printed: among the fields
/// from the third on of each line, in order, the first IPv4 one, up to its
/// first `/`.
pub open spec fn first_address(ls: Seq<Seq<char>>) -> Option<Seq<char>>
    decreases ls.len(),
{
    if ls.len() == 0 {
        None
    } else {
        match first_ipv4(words(ls[0]), 2) {
            Some(a) => Some(a),
            None => first_address(ls.drop_first()),
        }
    }
}

/// Whether `a` is written as an IPv4 address (see [`is_ipv4`]).
fn ipv4_text(a: &[char]) -> (r: bool)
    ensures
        r == is_ipv4(a@),
{
    let mut dot = false;
    let mut i: usize = 0;
    while i < a.len()
        invariant
            i <= a.len(),
            dot == a@.take(i as int).contains('.'),
            forall|k: int| 0 <= k < i ==> (#[trigger] a@[k] == '.' || is_digit(a@[k])),
        decreases a.len() - i,
    {
        let c = a[i];
        if !(c == '.' || ('0' <= c && c <= '9')) {
            assert(!(a@[i as int] == '.' || is_digit(a@[i as int])));
            return false;
        }
        proof {
            let pre = a@.take(i as int);
            let now = a@.take(i + 1);
            assert(now =~= pre.push(c));
            if c == '.' {
                assert(now[i as int] == '.');
            }
            if pre.contains('.') {
                let j = choose|j: int| 0 <= j < pre.len() && pre[j] == '.';
                assert(now[j] == '.');
            }
            if now.contains('.') && c != '.' {
                let j = choose|j: int| 0 <= j < now.len() && now[j] == '.';
                assert(pre[j] == '.');
            }
        }
        if c == '.' {
            dot = true;
        }
        i = i + 1;
    }
    assert(a@.take(a.len() as int) =~= a@);
    dot
}

/// Reads the IPv4 address of an interface from `ip -br addr show dev
/// IFACE` (see [`first_address`]).
pub fn interface_address(out: &str) -> (r: Option<String>)
    ensures
        opt_text(r) == first_address(lines(out@)),
{
    let c = to_chars(out);
    let ls = split_lines(c.as_slice());
    let ghost all = views(ls@);
    let mut i: usize = 0;
    assert(all.skip(0) =~= all);
    while i < ls.len()
        invariant
            i <= ls.len(),
            all == views(ls@),
            all == lines(out@),
            first_address(all) == first_address(all.skip(i as int)),
        decreases ls.len() - i,
    {
        let w = split_ws(ls[i]);
        assert(all.skip(i as int)[0] == ls@[i as int]@);
        let ghost ws = views(w@);
        let mut j: usize = 2;
        while j < w.len()
            invariant
                2 <= j,
                i < ls.len(),
                ws == views(w@),
                all == views(ls@),
                ws == words(all.skip(i as int)[0]),
                all == lines(out@),
                first_address(all) == first_address(all.skip(i as int)),
                first_ipv4(ws, 2) == first_ipv4(ws, j as int),
            decreases w.len() - j,
        {
            assert(ws[j as int] == w@[j as int]@);
            let pieces = split_char(w[j], '/');
            proof {
                lemma_split_on_nonempty(w@[j as int]@, '/');
            }
            assert(views(pieces@)[0] == pieces@[0]@);
            if ipv4_text(pieces[0]) {
                assert(first_ipv4(ws, j as int) == Some(pieces@[0]@));
                assert(all.skip(i as int).len() > 0);
                assert(first_address(all.skip(i as int)) == Some(pieces@[0]@));
                return Some(string_from_chars(pieces[0]));
            }
            j = j + 1;
        }
        assert(all.skip(i as int).drop_first() =~= all.skip(i + 1));
        i = i + 1;
    }
    None
}

/// The interface and source address that `ip route get 1.1.1.1` names among
/// its first `n` fields `w`: the field after the last `dev`, and after the
/// last `src`.
pub open spec fn route_fields(w: Seq<Seq<char>>, n: int) -> (Option<Seq<char>>, Option<Seq<char>>)
    decreases n,
{
    if n <= 0 {
        (None, None)
    } else {
        let prev = route_fields(w, n - 1);
        let i = n - 1;
        let dev = if w[i] == "dev"@ && i + 1 < w.len() {
            Some(w[i + 1])
        } else {
            prev.0
        };
        let src = if w[i] == "src"@ && i + 1 < w.len() {
            Some(w[i + 1])
        } else {
            prev.1
        };
        (dev, src)
    }
}

/// Reads the primary interface and address from `ip route get 1.1.1.1`.
pub fn primary_route(out: &str) -> (r: (Option<String>, Option<String>))
    ensures
        opt_text(r.0) == route_fields(words(out@), words(out@).len() as int).0,
        opt_text(r.1) == route_fields(words(out@), words(out@).len() as int).1,
{
    let c = to_chars(out);
    let w = split_ws(c.as_slice());
    let ghost all = views(w@);
    let dev_word = to_chars("dev");
    let src_word = to_chars("src");
    let mut dev: Option<String> = None;
    let mut src: Option<String> = None;
    let mut i: usize = 0;
    while i < w.len()
        invariant
            i <= w.len(),
            all == views(w@),
            all == words(out@),
            dev_word@ == "dev"@,
            src_word@ == "src"@,
            opt_text(dev) == route_fields(all, i as int).0,
            opt_text(src) == route_fields(all, i as int).1,
        decreases w.len() - i,
    {
        assert(all[i as int] == w@[i as int]@);
        if i + 1 < w.len() {
            assert(all[i + 1] == w@[i + 1]@);
        }
        if eq_chars(w[i], dev_word.as_slice()) && i + 1 < w.len() {
            dev = Some(string_from_chars(w[i + 1]));
        }
        if eq_chars(w[i], src_word.as_slice()) && i + 1 < w.len() {
            src = Some(string_from_chars(w[i + 1]));
        }
        i = i + 1;
    }
    (dev, src)
}

/// A VPN connection, as the page lists it.
pub struct VpnConnection {
    pub name: String,
    pub interface: String,
    pub vpn_type: String,
    pub connected: bool,
    pub ip_address: Option<String>,
}

/// The view of a [`VpnConnection`].
pub struct VpnView {
    pub name: Seq<char>,
    pub interface: Seq<char>,
    pub vpn_type: Seq<char>,
    pub connected: bool,
    pub ip_address: Option<Seq<char>>,
}

impl View for VpnConnection {
    type V = VpnView;

    open spec fn view(&self) -> VpnView {
        VpnView {
            name: self.name@,
            interface: self.interface@,
            vpn_type: self.vpn_type@,
            connected: self.connected,
            ip_address: opt_text(self.ip_address),
        }
    }
}

/// The connection the page shows for a VPN interface whose address is `ip`.
pub open spec fn vpn_view_of(l: VpnLinkView, ip: Option<Seq<char>>) -> VpnView {
    VpnView {
        name: match l.kind {
            VpnKind::Tailscale => "Tailscale Mesh"@,
            VpnKind::Tunnel => "Tunnel ("@ + l.interface + ")"@,
            VpnKind::WireGuard => "WireGuard ("@ + l.interface + ")"@,
        },
        interface: l.interface,
        vpn_type: match l.kind {
            VpnKind::Tailscale => "Tailscale"@,
            VpnKind::Tunnel => "VPN Tunnel"@,
            VpnKind::WireGuard => "WireGuard"@,
        },
        connected: l.up,
        ip_address: ip,
    }
}

/// The connection for a VPN interface with the address `ip`.
pub fn vpn_connection(l: &VpnLink, ip: Option<String>) -> (r: VpnConnection)
    ensures
        r@ == vpn_view_of(l@, opt_text(ip)),
{
    let (name, vpn_type) = match l.kind {
        VpnKind::Tailscale => (String::from_str("Tailscale Mesh"), String::from_str("Tailscale")),
        VpnKind::Tunnel => (join3("Tunnel (", l.interface.as_str(), ")"), String::from_str("VPN Tunnel")),
        VpnKind::WireGuard => (join3("WireGuard (", l.interface.as_str(), ")"), String::from_str("WireGuard")),
    };
    VpnConnection { name, interface: l.interface.clone(), vpn_type, connected: l.up, ip_address: ip }
}

/// Network status and configuration, as the network page shows them.
pub struct NetworkInfo {
    pub wifi_enabled: bool,
    pub active_ssid: Option<String>,
    pub available_networks: Vec<WifiNetwork>,
    pub known_networks: Vec<WifiNetwork>,
    pub vpns: Vec<VpnConnection>,
    pub primary_ip: String,
    pub primary_interface: String,
}

/// The view of a [`NetworkInfo`].
pub struct NetworkView {
    pub wifi_enabled: bool,
    pub active_ssid: Option<Seq<char>>,
    pub available_networks: Seq<WifiView>,
    pub known_networks: Seq<WifiView>,
    pub vpns: Seq<VpnView>,
    pub primary_ip: Seq<char>,
    pub primary_interface: Seq<char>,
}

impl View for NetworkInfo {
    type V = NetworkView;

    open spec fn view(&self) -> NetworkView {
        NetworkView {
            wifi_enabled: self.wifi_enabled,
            active_ssid: opt_text(self.active_ssid),
            available_networks: wifi_views(self.available_networks@),
            known_networks: wifi_views(self.known_networks@),
            vpns: self.vpns@.map_values(|v: VpnConnection| v@),
            primary_ip: self.primary_ip@,
            primary_interface: self.primary_interface@,
        }
    }
}

/// A network of the sample data.
pub open spec fn sample_wifi(ssid: Seq<char>, signal: u8, security: Seq<char>, connected: bool, is_known: bool) -> WifiView {
    WifiView { ssid, signal, security, connected, is_known }
}

/// The sample data that the page shows when the system reports nothing.
pub open spec fn default_network() -> NetworkView {
    NetworkView {
        wifi_enabled: true,
        active_ssid: Some("Dark Depths"@),
        available_networks: seq![
            sample_wifi("Dark Depths"@, 78, "WPA2/WPA3"@, true, true),
            sample_wifi("OPTUS_FF7C2CL"@, 54, "WPA2"@, false, false),
            sample_wifi("dd_iot"@, 90, "WPA2"@, false, true),
            sample_wifi("VX420-34F8"@, 32, "WPA2"@, false, false),
        ],
        known_networks: seq![
            sample_wifi("Dark Depths"@, 78, "WPA2/WPA3"@, true, true),
            sample_wifi("Flora's iPhone"@, 0, "WPA2"@, false, true),
            sample_wifi("eduroam"@, 0, "WPA2-Enterprise"@, false, true),
            sample_wifi("Home_5G_Backup"@, 0, "WPA3"@, false, true),
        ],
        vpns: seq![
            VpnView {
                name: "Tailscale Mesh"@,
                interface: "tailscale0"@,
                vpn_type: "Mesh VPN"@,
                connected: true,
                ip_address: Some("100.64.0.5"@),
            },
            VpnView {
                name: "Work WireGuard"@,
                interface: "wg0"@,
                vpn_type: "WireGuard"@,
                connected: false,
                ip_address: None,
            },
        ],
        primary_ip: "192.168.1.105"@,
        primary_interface: "wlp166s0"@,
    }
}

fn wifi(ssid: &str, signal: u8, security: &str, connected: bool, is_known: bool) -> (r: WifiNetwork)
    ensures
        r@ == sample_wifi(ssid@, signal, security@, connected, is_known),
{
    WifiNetwork { ssid: String::from_str(ssid), signal, security: String::from_str(security), connected, is_known }
}

impl NetworkInfo {
    /// The sample data that the page shows when the system reports nothing.
    pub fn default() -> (r: NetworkInfo)
        ensures
            r@ == default_network(),
    {
        let mut available = Vec::new();
        available.push(wifi("Dark Depths", 78, "WPA2/WPA3", true, true));
        available.push(wifi("OPTUS_FF7C2CL", 54, "WPA2", false, false));
        available.push(wifi("dd_iot", 90, "WPA2", false, true));
        available.push(wifi("VX420-34F8", 32, "WPA2", false, false));
        let mut known = Vec::new();
        known.push(wifi("Dark Depths", 78, "WPA2/WPA3", true, true));
        known.push(wifi("Flora's iPhone", 0, "WPA2", false, true));
        known.push(wifi("eduroam", 0, "WPA2-Enterprise", false, true));
        known.push(wifi("Home_5G_Backup", 0, "WPA3", false, true));
        let mut vpns = Vec::new();
        vpns.push(
            VpnConnection {
                name: String::from_str("Tailscale Mesh"),
                interface: String::from_str("tailscale0"),
                vpn_type: String::from_str("Mesh VPN"),
                connected: true,
                ip_address: Some(String::from_str("100.64.0.5")),
            },
        );
        vpns.push(
            VpnConnection {
                name: String::from_str("Work WireGuard"),
                interface: String::from_str("wg0"),
                vpn_type: String::from_str("WireGuard"),
                connected: false,
                ip_address: None,
            },
        );
        let r = NetworkInfo {
            wifi_enabled: true,
            active_ssid: Some(String::from_str("Dark Depths")),
            available_networks: available,
            known_networks: known,
            vpns,
            primary_ip: String::from_str("192.168.1.105"),
            primary_interface: String::from_str("wlp166s0"),
        };
        assert(r@.available_networks =~= default_network().available_networks);
        assert(r@.known_networks =~= default_network().known_networks);
        assert(r@.vpns =~= default_network().vpns);
        r
    }
}

/// Whether the system reported anything for the page: a radio state, a saved
/// network, a scanned network or a VPN.
pub open spec fn reported(radio: Option<bool>, saved: Seq<Seq<char>>, scanned: Seq<WifiView>, vpns: Seq<VpnView>) -> bool {
    radio is Some || saved.len() > 0 || scanned.len() > 0 || vpns.len() > 0
}

/// Puts together what the system reported (see [`reported`]) over the
/// sample data: the radio state, the scanned networks and the network in
/// use (when the scan found any), the saved networks (see
/// [`lists_saved`], over the networks the page then shows), the VPNs (when
/// there are any) and the primary route. When the system reported nothing,
/// the result is the sample data.
pub fn network_info(
    radio: Option<bool>,
    saved: &Vec<String>,
    scan: (Vec<WifiNetwork>, Option<String>),
    vpns: Vec<VpnConnection>,
    route: (Option<String>, Option<String>),
) -> (r: NetworkInfo)
    requires
        distinct_names(string_views(saved@)),
    ensures
        ({
            let d = default_network();
            let rv = r@;
            let sc = wifi_views(scan.0@);
            let vv = vpns@.map_values(|v: VpnConnection| v@);
            if !reported(radio, string_views(saved@), sc, vv) {
                rv == d
            } else {
                &&& rv.wifi_enabled == match radio {
                    Some(b) => b,
                    None => d.wifi_enabled,
                }
                &&& rv.available_networks == if sc.len() > 0 {
                    sc
                } else {
                    d.available_networks
                }
                &&& rv.active_ssid == if sc.len() > 0 {
                    opt_text(scan.1)
                } else {
                    d.active_ssid
                }
                &&& saved@.len() > 0 ==> lists_saved(
                    rv.known_networks,
                    string_views(saved@),
                    rv.available_networks,
                    rv.active_ssid,
                )
                &&& saved@.len() == 0 ==> rv.known_networks == d.known_networks
                &&& rv.vpns == if vv.len() > 0 {
                    vv
                } else {
                    d.vpns
                }
                &&& rv.primary_interface == match opt_text(route.0) {
                    Some(t) => t,
                    None => d.primary_interface,
                }
                &&& rv.primary_ip == match opt_text(route.1) {
                    Some(t) => t,
                    None => d.primary_ip,
                }
            }
        }),
{
    let mut info = NetworkInfo::default();
    let any = radio.is_some() || saved.len() > 0 || scan.0.len() > 0 || vpns.len() > 0;
    if !any {
        return info;
    }
    if let Some(b) = radio {
        info.wifi_enabled = b;
    }
    let (scanned, active) = scan;
    if scanned.len() > 0 {
        info.available_networks = scanned;
        info.active_ssid = active;
    }
    if saved.len() > 0 {
        info.known_networks = saved_networks(saved, &info.available_networks, &info.active_ssid);
    }
    if vpns.len() > 0 {
        info.vpns = vpns;
    }
    let (dev, src) = route;
    if let Some(d) = dev {
        info.primary_interface = d;
    }
    if let Some(s) = src {
        info.primary_ip = s;
    }
    info
}

/// The Wi-Fi switch of the network page: turns Wi-Fi on when it was off
/// and off when it was on, changes nothing else, and gives the new state
/// (which the page hands to `nmcli radio wifi`).
pub fn toggle_wifi(info: &mut NetworkInfo) -> (next: bool)
    ensures
        next == !old(info).wifi_enabled,
        final(info)@ == (NetworkView { wifi_enabled: next, ..old(info)@ }),
{
    let next = !info.wifi_enabled;
    info.wifi_enabled = next;
    next
}

/// The command that switches a VPN on or off: `tailscale up` or `down` for
/// a Tailscale interface, else `nmcli connection up` or `down` with the
/// connection's name; `down` when it is connected.
pub open spec fn vpn_argv(vpn: VpnView) -> Seq<Seq<char>> {
    let arg = if vpn.connected {
        "down"@
    } else {
        "up"@
    };
    if has_prefix(vpn.interface, "tailscale"@) {
        seq!["tailscale"@, arg]
    } else {
        seq!["nmcli"@, "connection"@, arg, vpn.name]
    }
}

/// The command (program and arguments) that switches `vpn` (see
/// [`vpn_argv`]).
pub fn vpn_command(vpn: &VpnConnection) -> (r: Vec<String>)
    ensures
        string_views(r@) == vpn_argv(vpn@),
{
    let arg = if vpn.connected {
        String::from_str("down")
    } else {
        String::from_str("up")
    };
    let iface = to_chars(vpn.interface.as_str());
    let ts = to_chars("tailscale");
    let mut r: Vec<String> = Vec::new();
    if starts_with(iface.as_slice(), ts.as_slice()) {
        r.push(String::from_str("tailscale"));
        r.push(arg);
    } else {
        r.push(String::from_str("nmcli"));
        r.push(String::from_str("connection"));
        r.push(arg);
        r.push(vpn.name.clone());
    }
    assert(string_views(r@) =~= vpn_argv(vpn@));
    r
}

} // verus!
