//! The sound page: the output and input device menus.

use vstd::prelude::*;

verus! {

/// An audio output or input, by id and name.
pub struct AudioDevice {
    pub id: String,
    pub name: String,
}

/// The view of an [`AudioDevice`]: its id and name.
pub open spec fn device_view(d: AudioDevice) -> (Seq<char>, Seq<char>) {
    (d.id@, d.name@)
}

/// The views of a list of devices.
pub open spec fn device_views(s: Seq<AudioDevice>) -> Seq<(Seq<char>, Seq<char>)> {
    s.map_values(|d: AudioDevice| device_view(d))
}

/// A device menu: what it shows as chosen, and the devices it offers
/// (each offered by its name, chosen by its id).
pub struct DeviceMenu {
    pub selected: String,
    pub options: Vec<AudioDevice>,
}

/// What a device menu shows as chosen: the current device's name, else the
/// first device's name, else `fallback`.
pub open spec fn selected_device(current: Seq<char>, devices: Seq<(Seq<char>, Seq<char>)>, fallback: Seq<char>) -> Seq<char> {
    if current.len() > 0 {
        current
    } else if devices.len() > 0 {
        devices[0].1
    } else {
        fallback
    }
}

/// The menu for the current device `current` among `devices`: it offers
/// the devices (the current one alone, as both id and name, when there are
/// none) and shows [`selected_device`].
pub fn device_menu(current: &str, devices: &Vec<AudioDevice>, fallback: &str) -> (r: DeviceMenu)
    ensures
        r.selected@ == selected_device(current@, device_views(devices@), fallback@),
        device_views(r.options@) == if devices.len() == 0 {
            seq![(current@, current@)]
        } else {
            device_views(devices@)
        },
{
    let ghost all = device_views(devices@);
    let mut options: Vec<AudioDevice> = Vec::new();
    let mut i: usize = 0;
    while i < devices.len()
        invariant
            i <= devices.len(),
            all == device_views(devices@),
            device_views(options@) == all.take(i as int),
        decreases devices.len() - i,
    {
        let d = &devices[i];
        let ghost before = device_views(options@);
        options.push(AudioDevice { id: d.id.clone(), name: d.name.clone() });
        assert(device_views(options@) =~= before.push(device_view(*d)));
        assert(all.take(i + 1) =~= all.take(i as int).push(device_view(*d)));
        i = i + 1;
    }
    assert(all.take(devices.len() as int) =~= all);
    if devices.len() == 0 {
        let ghost before = device_views(options@);
        options.push(AudioDevice { id: String::from_str(current), name: String::from_str(current) });
        assert(device_views(options@) =~= before.push((current@, current@)));
    }
    let selected = if current.unicode_len() > 0 {
        String::from_str(current)
    } else if devices.len() > 0 {
        devices[0].name.clone()
    } else {
        String::from_str(fallback)
    };
    DeviceMenu { selected, options }
}

/// The line under the output heading: the current output, or `Studio
/// Speakers` when none is set.
pub fn output_line(sink: &str) -> (r: String)
    ensures
        r@ == if sink@.len() == 0 {
            "Studio Speakers"@
        } else {
            sink@
        },
{
    if sink.unicode_len() == 0 {
        String::from_str("Studio Speakers")
    } else {
        String::from_str(sink)
    }
}

} // verus!
