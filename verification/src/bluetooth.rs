//! The Bluetooth page: whether the adapter is powered and which devices are
//! paired and connected, read from what `bluetoothctl` reports.

use vstd::prelude::*;
use crate::text::{
    contains, contains_str, eq_chars, eq_ignore_ascii_case, eq_ignore_case, has_prefix, holds_string, index_of,
    index_of_char, lines, split_lines, split_ws, starts_with, strip_prefix, string_from_chars, string_views, to_chars,
    to_uppercase, trim, trimmed, unicode_upper, views, words, is_hex_digit, all_hex_digits, join3,
};

verus! {

/// A paired Bluetooth device.
pub struct BluetoothDevice {
    pub mac: String,
    pub name: String,
    pub connected: bool,
}

/// The view of a [`BluetoothDevice`].
pub struct DeviceView {
    pub mac: Seq<char>,
    pub name: Seq<char>,
    pub connected: bool,
}

impl View for BluetoothDevice {
    type V = DeviceView;

    open spec fn view(&self) -> DeviceView {
        DeviceView { mac: self.mac@, name: self.name@, connected: self.connected }
    }
}

/// Whether `bluetoothctl show` says the adapter is powered: its first
/// (trimmed) line that begins with `Powered:` says `yes`.
pub open spec fn powered_in(ls: Seq<Seq<char>>) -> bool
    decreases ls.len(),
{
    if ls.len() == 0 {
        false
    } else if has_prefix(trimmed(ls[0]), "Powered:"@) {
        contains(trimmed(ls[0]), "yes"@)
    } else {
        powered_in(ls.drop_first())
    }
}

/// Reads whether the adapter is powered from `bluetoothctl show`.
pub fn adapter_powered(out: &str) -> (r: bool)
    ensures
        r == powered_in(lines(out@)),
{
    let c = to_chars(out);
    let ls = split_lines(c.as_slice());
    let ghost all = views(ls@);
    let powered = to_chars("Powered:");
    let yes = to_chars("yes");
    let mut i: usize = 0;
    assert(all.skip(0) =~= all);
    while i < ls.len()
        invariant
            i <= ls.len(),
            all == views(ls@),
            all == lines(out@),
            powered@ == "Powered:"@,
            yes@ == "yes"@,
            powered_in(all) == powered_in(all.skip(i as int)),
        decreases ls.len() - i,
    {
        let l = trim(ls[i]);
        assert(all.skip(i as int)[0] == ls@[i as int]@);
        if starts_with(l, powered.as_slice()) {
            return contains_str(l, yes.as_slice());
        }
        assert(all.skip(i as int).drop_first() =~= all.skip(i + 1));
        i = i + 1;
    }
    false
}

/// The addresses, in upper case, that `bluetoothctl devices Connected` lists
/// in some lines: the second field of each line whose first is `Device`.
pub open spec fn connected_in(ls: Seq<Seq<char>>) -> Seq<Seq<char>>
    decreases ls.len(),
{
    if ls.len() == 0 {
        seq![]
    } else {
        let w = words(trimmed(ls.last()));
        if w.len() >= 2 && w[0] == "Device"@ {
            connected_in(ls.drop_last()).push(unicode_upper(w[1]))
        } else {
            connected_in(ls.drop_last())
        }
    }
}

/// Reads the connected addresses from `bluetoothctl devices Connected`.
pub fn connected_addresses(out: &str) -> (r: Vec<String>)
    ensures
        string_views(r@) == connected_in(lines(out@)),
{
    let c = to_chars(out);
    let ls = split_lines(c.as_slice());
    let ghost all = views(ls@);
    let device = to_chars("Device");
    let mut r: Vec<String> = Vec::new();
    let mut i: usize = 0;
    while i < ls.len()
        invariant
            i <= ls.len(),
            all == views(ls@),
            all == lines(out@),
            device@ == "Device"@,
            string_views(r@) == connected_in(all.take(i as int)),
        decreases ls.len() - i,
    {
        let w = split_ws(trim(ls[i]));
        assert(all.take(i + 1).drop_last() =~= all.take(i as int));
        assert(all.take(i + 1).last() == ls@[i as int]@);
        if w.len() >= 2 {
            assert(views(w@)[0] == w@[0]@);
            assert(views(w@)[1] == w@[1]@);
            if eq_chars(w[0], device.as_slice()) {
                let mac = string_from_chars(w[1]);
                let up = to_uppercase(mac.as_str());
                let ghost before = string_views(r@);
                r.push(up);
                assert(string_views(r@) =~= before.push(unicode_upper(w@[1]@)));
            }
        }
        i = i + 1;
    }
    assert(all.take(ls.len() as int) =~= all);
    r
}

/// The address and name a trimmed line of `bluetoothctl devices` gives: the
/// line begins with `Device `; of the rest, the address is up to the next
/// space and the name after it (the address again when the name is blank).
pub open spec fn device_entry(t: Seq<char>) -> Option<(Seq<char>, Seq<char>)> {
    if has_prefix(t, "Device "@) {
        let rest = t.skip("Device "@.len() as int);
        let k = index_of(rest, ' ');
        let mac = trimmed(rest.take(k as int));
        let name = if k < rest.len() && trimmed(rest.skip(k + 1 as int)).len() > 0 {
            trimmed(rest.skip(k + 1 as int))
        } else {
            mac
        };
        Some((mac, name))
    } else {
        None
    }
}

/// Whether a device with this address (in any case) is in the list.
pub open spec fn address_listed(ds: Seq<DeviceView>, mac: Seq<char>) -> bool {
    exists|i: int| 0 <= i < ds.len() && eq_ignore_case(ds[i].mac, mac)
}

/// The devices that some lines of `bluetoothctl devices` list, each address
/// once (its first line counts); connected when its upper-cased address is
/// among `connected`.
pub open spec fn devices_in(ls: Seq<Seq<char>>, connected: Seq<Seq<char>>) -> Seq<DeviceView>
    decreases ls.len(),
{
    if ls.len() == 0 {
        seq![]
    } else {
        let prev = devices_in(ls.drop_last(), connected);
        match device_entry(trimmed(ls.last())) {
            Some((mac, name)) => if address_listed(prev, mac) {
                prev
            } else {
                prev.push(DeviceView { mac, name, connected: connected.contains(unicode_upper(mac)) })
            },
            None => prev,
        }
    }
}

fn lists_address(ds: &Vec<BluetoothDevice>, mac: &[char]) -> (r: bool)
    ensures
        r == address_listed(ds@.map_values(|d: BluetoothDevice| d@), mac@),
{
    let ghost v = ds@.map_values(|d: BluetoothDevice| d@);
    let mut i: usize = 0;
    while i < ds.len()
        invariant
            i <= ds.len(),
            v == ds@.map_values(|d: BluetoothDevice| d@),
            forall|j: int| 0 <= j < i ==> !eq_ignore_case(v[j].mac, mac@),
        decreases ds.len() - i,
    {
        let m = to_chars(ds[i].mac.as_str());
        assert(v[i as int].mac == m@);
        if eq_ignore_ascii_case(m.as_slice(), mac) {
            return true;
        }
        i = i + 1;
    }
    false
}

/// Reads the paired devices from `bluetoothctl devices` (see
/// [`devices_in`]); `connected` are the connected addresses.
pub fn paired_devices(out: &str, connected: &Vec<String>) -> (r: Vec<BluetoothDevice>)
    ensures
        r@.map_values(|d: BluetoothDevice| d@) == devices_in(lines(out@), string_views(connected@)),
{
    let c = to_chars(out);
    let ls = split_lines(c.as_slice());
    let ghost all = views(ls@);
    let ghost cv = string_views(connected@);
    let device = to_chars("Device ");
    let mut r: Vec<BluetoothDevice> = Vec::new();
    let mut i: usize = 0;
    while i < ls.len()
        invariant
            i <= ls.len(),
            all == views(ls@),
            all == lines(out@),
            cv == string_views(connected@),
            device@ == "Device "@,
            r@.map_values(|d: BluetoothDevice| d@) == devices_in(all.take(i as int), cv),
        decreases ls.len() - i,
    {
        let t = trim(ls[i]);
        assert(all.take(i + 1).drop_last() =~= all.take(i as int));
        assert(all.take(i + 1).last() == ls@[i as int]@);
        if let Some(rest) = strip_prefix(t, device.as_slice()) {
            let k = index_of_char(rest, ' ');
            let mac_part = vstd::slice::slice_subrange(rest, 0, k);
            assert(mac_part@ =~= rest@.take(k as int));
            let mac = trim(mac_part);
            let name: &[char] = if k < rest.len() {
                let tail = vstd::slice::slice_subrange(rest, k + 1, rest.len());
                assert(tail@ =~= rest@.skip(k + 1 as int));
                let tn = trim(tail);
                if tn.len() > 0 {
                    tn
                } else {
                    mac
                }
            } else {
                mac
            };
            if !lists_address(&r, mac) {
                let mac_s = string_from_chars(mac);
                let up = to_uppercase(mac_s.as_str());
                let is_connected = holds_string(connected, up.as_str());
                let ghost before = r@.map_values(|d: BluetoothDevice| d@);
                r.push(BluetoothDevice { mac: mac_s, name: string_from_chars(name), connected: is_connected });
                assert(r@.map_values(|d: BluetoothDevice| d@) =~= before.push(r@.last()@));
            }
        }
        i = i + 1;
    }
    assert(all.take(ls.len() as int) =~= all);
    r
}

/// `s` without its `:` and `-` characters.
pub open spec fn without_separators(s: Seq<char>) -> Seq<char>
    decreases s.len(),
{
    if s.len() == 0 {
        seq![]
    } else {
        without_separators(s.drop_last()) + if s.last() == ':' || s.last() == '-' {
            seq![]
        } else {
            seq![s.last()]
        }
    }
}

/// Whether a device's advertised name is no name: blank, or an address
/// (twelve hexadecimal digits once `:` and `-` are left out).
pub open spec fn name_is_address(raw: Seq<char>) -> bool {
    raw.len() == 0 || (without_separators(raw).len() == 12 && forall|i: int|
        0 <= i < without_separators(raw).len() ==> is_hex_digit(#[trigger] without_separators(raw)[i]))
}

/// A device that a line of `bluetoothctl devices` names, for the nearby
/// list: the address (the second space-separated piece) and the trimmed
/// name (the rest); present when the line has all three pieces.
pub open spec fn nearby_entry(line: Seq<char>) -> Option<(Seq<char>, Seq<char>)> {
    let i = index_of(line, ' ');
    let rest = line.skip(i + 1 as int);
    let k = index_of(rest, ' ');
    if i < line.len() && k < rest.len() {
        Some((rest.take(k as int), trimmed(rest.skip(k + 1 as int))))
    } else {
        None
    }
}

/// A device line for the nearby list.
pub struct NearbyLine {
    pub mac: String,
    /// The advertised name, trimmed.
    pub raw_name: String,
    /// Whether the name has to be looked up (see [`name_is_address`]).
    pub needs_lookup: bool,
}

/// Reads a line of `bluetoothctl devices` for the nearby list (see
/// [`nearby_entry`] and [`name_is_address`]).
pub fn nearby_line(line: &str) -> (r: Option<NearbyLine>)
    ensures
        r is Some <==> nearby_entry(line@) is Some,
        r matches Some(n) ==> nearby_entry(line@) == Some((n.mac@, n.raw_name@)) && n.needs_lookup == name_is_address(
            n.raw_name@,
        ),
{
    let c = to_chars(line);
    let i = index_of_char(c.as_slice(), ' ');
    if i >= c.len() {
        return None;
    }
    let rest = vstd::slice::slice_subrange(c.as_slice(), i + 1, c.len());
    assert(rest@ =~= c@.skip(i + 1 as int));
    let k = index_of_char(rest, ' ');
    if k >= rest.len() {
        return None;
    }
    let mac = vstd::slice::slice_subrange(rest, 0, k);
    assert(mac@ =~= rest@.take(k as int));
    let tail = vstd::slice::slice_subrange(rest, k + 1, rest.len());
    assert(tail@ =~= rest@.skip(k + 1 as int));
    let raw = trim(tail);
    let mut clean: Vec<char> = Vec::new();
    let mut j: usize = 0;
    while j < raw.len()
        invariant
            j <= raw.len(),
            clean@ == without_separators(raw@.take(j as int)),
        decreases raw.len() - j,
    {
        assert(raw@.take(j + 1).drop_last() =~= raw@.take(j as int));
        if raw[j] != ':' && raw[j] != '-' {
            clean.push(raw[j]);
        }
        proof {
            if raw@[j as int] == ':' || raw@[j as int] == '-' {
                assert(clean@ =~= without_separators(raw@.take(j as int)) + seq![]);
            }
        }
        j = j + 1;
    }
    assert(raw@.take(raw.len() as int) =~= raw@);
    let needs = raw.len() == 0 || (clean.len() == 12 && all_hex_digits(clean.as_slice()));
    Some(NearbyLine { mac: string_from_chars(mac), raw_name: string_from_chars(raw), needs_lookup: needs })
}

/// The name that `bluetoothctl info MAC` gives: the last `Alias:` value,
/// else the last `Name:` value (each trimmed, on trimmed lines).
pub open spec fn info_name(ls: Seq<Seq<char>>) -> (Option<Seq<char>>, Option<Seq<char>>)
    decreases ls.len(),
{
    if ls.len() == 0 {
        (None, None)
    } else {
        let prev = info_name(ls.drop_last());
        let t = trimmed(ls.last());
        let alias = if has_prefix(t, "Alias:"@) {
            Some(trimmed(t.skip("Alias:"@.len() as int)))
        } else {
            prev.0
        };
        let name = if has_prefix(t, "Name:"@) {
            Some(trimmed(t.skip("Name:"@.len() as int)))
        } else {
            prev.1
        };
        (alias, name)
    }
}

/// Reads a device's name from `bluetoothctl info MAC` (see [`info_name`]):
/// its alias, else its name.
pub fn device_info_name(out: &str) -> (r: Option<String>)
    ensures
        crate::text::opt_text(r) == match info_name(lines(out@)).0 {
            Some(a) => Some(a),
            None => info_name(lines(out@)).1,
        },
{
    let c = to_chars(out);
    let ls = split_lines(c.as_slice());
    let ghost all = views(ls@);
    let alias_p = to_chars("Alias:");
    let name_p = to_chars("Name:");
    let mut alias: Option<String> = None;
    let mut name: Option<String> = None;
    let mut i: usize = 0;
    while i < ls.len()
        invariant
            i <= ls.len(),
            all == views(ls@),
            all == lines(out@),
            alias_p@ == "Alias:"@,
            name_p@ == "Name:"@,
            crate::text::opt_text(alias) == info_name(all.take(i as int)).0,
            crate::text::opt_text(name) == info_name(all.take(i as int)).1,
        decreases ls.len() - i,
    {
        let t = trim(ls[i]);
        assert(all.take(i + 1).drop_last() =~= all.take(i as int));
        assert(all.take(i + 1).last() == ls@[i as int]@);
        if let Some(rest) = strip_prefix(t, alias_p.as_slice()) {
            alias = Some(string_from_chars(trim(rest)));
        }
        if let Some(rest) = strip_prefix(t, name_p.as_slice()) {
            name = Some(string_from_chars(trim(rest)));
        }
        i = i + 1;
    }
    assert(all.take(ls.len() as int) =~= all);
    match alias {
        Some(a) => Some(a),
        None => name,
    }
}

/// The name shown for a device that has none: `Device (` and the first
/// eight characters of its address, `)`.
pub open spec fn placeholder_of(mac: Seq<char>) -> Seq<char> {
    "Device ("@ + mac.take(if mac.len() < 8 {
        mac.len() as int
    } else {
        8
    }) + ")"@
}

/// Builds [`placeholder_of`] for an address.
pub fn placeholder_name(mac: &str) -> (r: String)
    ensures
        r@ == placeholder_of(mac@),
{
    let c = to_chars(mac);
    let n: usize = if c.len() < 8 { c.len() } else { 8 };
    let head = string_from_chars(vstd::slice::slice_subrange(c.as_slice(), 0, n));
    assert(head@ =~= mac@.take(n as int));
    join3("Device (", head.as_str(), ")")
}

/// The name the nearby list shows for a device line: its advertised name,
/// unless that is no name (see [`name_is_address`]); then the alias or name
/// that `bluetoothctl info` gave in `info` (when it could be run), else
/// [`placeholder_of`] its address.
pub open spec fn shown_nearby_name(mac: Seq<char>, raw: Seq<char>, needs_lookup: bool, info: Option<Seq<char>>) -> Seq<char> {
    if !needs_lookup {
        raw
    } else {
        match info {
            Some(o) => match info_name(lines(o)).0 {
                Some(a) => a,
                None => match info_name(lines(o)).1 {
                    Some(n) => n,
                    None => placeholder_of(mac),
                },
            },
            None => placeholder_of(mac),
        }
    }
}

/// The name shown for a nearby device line (see [`shown_nearby_name`]).
pub fn nearby_name(entry: &NearbyLine, info: Option<&str>) -> (r: String)
    ensures
        r@ == shown_nearby_name(entry.mac@, entry.raw_name@, entry.needs_lookup, match info {
            Some(o) => Some(o@),
            None => None,
        }),
{
    if !entry.needs_lookup {
        return entry.raw_name.clone();
    }
    let looked = match info {
        Some(o) => device_info_name(o),
        None => None,
    };
    match looked {
        Some(n) => n,
        None => placeholder_name(entry.mac.as_str()),
    }
}

/// The devices among `scanned` whose address none of `paired` has (the
/// addresses compared as they are written), in order.
pub open spec fn unpaired(scanned: Seq<DeviceView>, paired: Seq<DeviceView>) -> Seq<DeviceView>
    decreases scanned.len(),
{
    if scanned.len() == 0 {
        seq![]
    } else if exists|j: int| 0 <= j < paired.len() && #[trigger] paired[j].mac == scanned.last().mac {
        unpaired(scanned.drop_last(), paired)
    } else {
        unpaired(scanned.drop_last(), paired).push(scanned.last())
    }
}

/// Whether one of `paired` has the address `mac`.
fn has_address(paired: &Vec<BluetoothDevice>, mac: &String) -> (r: bool)
    ensures
        r == exists|j: int| 0 <= j < paired@.len() && #[trigger] paired@[j]@.mac == mac@,
{
    let mut i: usize = 0;
    while i < paired.len()
        invariant
            i <= paired.len(),
            forall|j: int| 0 <= j < i ==> (#[trigger] paired@[j])@.mac != mac@,
        decreases paired.len() - i,
    {
        if crate::text::str_eq(paired[i].mac.as_str(), mac.as_str()) {
            assert(paired@[i as int]@.mac == mac@);
            return true;
        }
        i = i + 1;
    }
    false
}

/// The nearby list of the Bluetooth page: the scanned devices that are not
/// paired (see [`unpaired`]).
pub fn nearby_devices(scanned: &Vec<BluetoothDevice>, paired: &Vec<BluetoothDevice>) -> (r: Vec<BluetoothDevice>)
    ensures
        r@.map_values(|d: BluetoothDevice| d@) == unpaired(
            scanned@.map_values(|d: BluetoothDevice| d@),
            paired@.map_values(|d: BluetoothDevice| d@),
        ),
{
    let ghost all = scanned@.map_values(|d: BluetoothDevice| d@);
    let ghost ps = paired@.map_values(|d: BluetoothDevice| d@);
    let mut r: Vec<BluetoothDevice> = Vec::new();
    let mut i: usize = 0;
    while i < scanned.len()
        invariant
            i <= scanned.len(),
            all == scanned@.map_values(|d: BluetoothDevice| d@),
            ps == paired@.map_values(|d: BluetoothDevice| d@),
            r@.map_values(|d: BluetoothDevice| d@) == unpaired(all.take(i as int), ps),
        decreases scanned.len() - i,
    {
        let d = &scanned[i];
        assert(all.take(i + 1).drop_last() =~= all.take(i as int));
        assert(all.take(i + 1).last() == d@);
        let found = has_address(paired, &d.mac);
        proof {
            if found {
                let j = choose|j: int| 0 <= j < paired@.len() && #[trigger] paired@[j]@.mac == d.mac@;
                assert(ps[j].mac == all.take(i + 1).last().mac);
            } else {
                assert forall|j: int| 0 <= j < ps.len() implies #[trigger] ps[j].mac != all.take(i + 1).last().mac by {
                    assert(ps[j] == paired@[j]@);
                }
            }
        }
        if !found {
            let ghost before = r@.map_values(|x: BluetoothDevice| x@);
            r.push(BluetoothDevice { mac: d.mac.clone(), name: d.name.clone(), connected: d.connected });
            assert(r@.map_values(|x: BluetoothDevice| x@) =~= before.push(d@));
        }
        i = i + 1;
    }
    assert(all.take(scanned.len() as int) =~= all);
    r
}

} // verus!
