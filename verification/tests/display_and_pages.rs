use finick::display::{
    display_heading, label_resolution, mode_for, offered_resolutions, selected_display, snap_position, swap_places,
    DisplayPlace,
};
use finick::hyprland::{legacy_rule_values, monitor_reserve_keyword, monitor_reserve_script, move_panel_dispatch, panel_rules_script};
use finick::settings::{FocusMode, PowerMode};
use finick::summaries::{
    animations_value, battery_segment, blur_value, focus_description, layout_name, segment_profile, theme_mode_name,
    wifi_status, wired_summary, BatterySegment, ThemeChoice,
};
use finick::network::WifiNetwork;

fn place(name: &str, x: i32, y: i32, w: i32, h: i32) -> DisplayPlace {
    DisplayPlace { name: name.to_string(), x, y, width: w, height: h }
}

#[test]
fn selection_falls_back_to_first() {
    let names = vec!["DP-1".to_string(), "HDMI-A-1".to_string()];
    assert_eq!(selected_display(Some("HDMI-A-1"), &names).as_deref(), Some("HDMI-A-1"));
    assert_eq!(selected_display(Some("gone"), &names).as_deref(), Some("DP-1"));
    assert_eq!(selected_display(None, &names).as_deref(), Some("DP-1"));
    assert_eq!(selected_display(Some("x"), &Vec::new()), None);
    assert_eq!(swap_places(&names, "HDMI-A-1", "DP-1"), Some((1, 0)));
    assert_eq!(swap_places(&names, "HDMI-A-1", "nope"), None);
}

#[test]
fn dragged_display_snaps() {
    let ds = vec![place("A", 0, 0, 1920, 1080), place("B", 1920, 0, 1280, 1024)];
    assert_eq!(snap_position(&ds, "B", 1900, 30, 1280, 1024), (1920, 0));
    assert_eq!(snap_position(&ds, "B", -1200, 10, 1280, 1024), (-1280, 0));
    assert_eq!(snap_position(&ds, "B", 10, 1000, 1280, 1024), (0, 1080));
    let one = vec![place("A", 0, 0, 1920, 1080)];
    assert_eq!(snap_position(&one, "A", 5000, -9000, 1920, 1080), (0, 0));
    assert_eq!(snap_position(&one, "A", 5, 7, 1920, 1080), (0, 0));
    assert_eq!(snap_position(&Vec::new(), "A", 5, 7, 1920, 1080), (0, 0));
    let far = vec![place("A", 2900, 0, 500, 500), place("B", 0, 0, 100, 100)];
    assert_eq!(snap_position(&far, "B", 3400, 0, 100, 100), (3000, 0));
}

#[test]
fn resolutions_offered() {
    let modes: Vec<String> = ["2560x1440@144.00Hz", "2560x1440@60.00Hz", " 1920x1080@60Hz", "@x", "1280x720@60", "800x600@60", "640x480@60", "320x200@60"]
        .iter()
        .map(|s| s.to_string())
        .collect();
    assert_eq!(offered_resolutions(&modes), vec!["2560x1440", "1920x1080", "1280x720", "800x600", "640x480"]);
    assert_eq!(offered_resolutions(&Vec::new()), vec!["1920x1080", "1600x900", "1280x1024", "1280x720"]);
    assert_eq!(label_resolution("2560x1440"), "2560 × 1440");
    assert_eq!(mode_for(&modes, "2560x1440"), "2560x1440@144.00Hz");
    assert_eq!(mode_for(&modes, "1024x768"), "1024x768");
    assert_eq!(display_heading("Dell U2720Q", "DP-1"), "Dell U2720Q (DP-1)");
    assert_eq!(display_heading("", "DP-1"), "DP-1");
}

#[test]
fn page_texts() {
    assert_eq!(focus_description(FocusMode::Sleep), "Everything is silenced until morning.");
    assert_eq!(focus_description(FocusMode::Off), "Notifications are delivered as usual.");
    assert_eq!(theme_mode_name(ThemeChoice::Auto), "auto");
    assert!(matches!(battery_segment(PowerMode::Performance), BatterySegment::High));
    assert!(matches!(battery_segment(PowerMode::Powersave), BatterySegment::Balanced));
    assert_eq!(segment_profile(BatterySegment::Low), "power-saver");
    assert_eq!(layout_name(0), "master");
    assert_eq!(layout_name(1), "dwindle");
    assert_eq!(layout_name(9), "floating");
    assert_eq!(animations_value(true), "0");
    assert_eq!(blur_value(false), "true");
    assert_eq!(wired_summary("", "enp3s0", " "), ("enp3s0".to_string(), "enp3s0".to_string()));
    assert_eq!(wired_summary("Office", "enp3s0", "10.0.0.4"), ("Office".to_string(), "enp3s0 · 10.0.0.4".to_string()));
}

#[test]
fn wifi_status_row() {
    let avail = vec![WifiNetwork { ssid: "Home".to_string(), signal: 80, security: "WPA3".to_string(), connected: true, is_known: true }];
    let (t, s, sec) = wifi_status(true, &Some("Home".to_string()), "wlan0", "10.0.0.2", &avail);
    assert_eq!(t, "Home");
    assert_eq!(s, "wlan0 · 10.0.0.2");
    assert_eq!(sec, "WPA3");
    let (t, s, sec) = wifi_status(false, &Some("Home".to_string()), "wlan0", "10.0.0.2", &avail);
    assert_eq!(t, "Not connected");
    assert_eq!(s, "Wi-Fi is off");
    assert_eq!(sec, "WPA3");
    let (t, s, sec) = wifi_status(true, &None, "wlan0", "", &avail);
    assert_eq!(t, "Not connected");
    assert_eq!(s, "Not associated");
    assert_eq!(sec, "—");
}

#[test]
fn hyprland_rules() {
    let script = panel_rules_script(1508, 44);
    assert!(script.contains("move = { 1508, 44 },"));
    assert!(script.starts_with("\n        hl.window_rule({\n            name = \"finick-topbar\","));
    assert!(script.ends_with("reserved = { top = 36 },\n        })\n    "));
    let rules = legacy_rule_values(-12, 44);
    assert_eq!(rules.len(), 13);
    assert_eq!(rules[7], "move -12 44, class:^(topbar-panel)$");
    assert_eq!(rules[0], "float, class:^(topbar)$");
    assert_eq!(monitor_reserve_keyword("DP-1"), "DP-1,addreserved,36,0,0,0");
    assert_eq!(monitor_reserve_keyword(""), ",addreserved,36,0,0,0");
    assert_eq!(monitor_reserve_script("DP-1"), "hl.monitor({ output = \"DP-1\", reserved = { top = 36 } })");
    assert_eq!(move_panel_dispatch(1508, 44), "movewindowpixel 1508 44,class:^(topbar-panel)$");
}
