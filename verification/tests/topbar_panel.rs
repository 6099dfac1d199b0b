use finick::settings::{LockState, Number, SettingEntry, SettingKey, SettingValue, SettingsEvent};
use finick::topbar::{
    battery_low, clients_show_panel, clock_at_time, clock_now, clock_text, dnd_from, focus_switch_value, has_battery,
    notifications_shown, notifications_title, panel_loses_focus, panel_position, panel_toggle, parse_capacity_pct,
    power_action, topbar_width, DisplaySpan, NotificationLevel, PanelToggle, PowerAction, TopbarAction, TopbarState,
};

#[test]
fn capacity_readings() {
    assert_eq!(parse_capacity_pct(" 87% "), 87);
    assert_eq!(parse_capacity_pct("100%"), 100);
    assert_eq!(parse_capacity_pct("150"), 100);
    assert_eq!(parse_capacity_pct("300"), 0);
    assert_eq!(parse_capacity_pct("Unknown"), 0);
    assert_eq!(parse_capacity_pct("+42%%"), 42);
}

#[test]
fn dnd_values() {
    assert!(dnd_from(&SettingValue::Str("work".to_string())));
    assert!(!dnd_from(&SettingValue::Str("off".to_string())));
    assert!(dnd_from(&SettingValue::Bool(true)));
    assert!(!dnd_from(&SettingValue::Bool(false)));
    assert!(!dnd_from(&SettingValue::Int(1)));
}

#[test]
fn entries_update_the_bar() {
    let mut s = TopbarState::new();
    assert!(s.wifi && s.bt && !s.muted && !s.dnd && !s.connected);
    assert!(matches!(s.volume, Number::Float(b) if f64::from_bits(b) == 65.0));
    assert!(matches!(s.brightness, Number::Float(b) if f64::from_bits(b) == 72.0));
    s.apply_entry(&SettingKey::AudioVolume, &SettingValue::Int(30));
    assert!(matches!(s.volume, Number::Int(30)));
    s.apply_entry(&SettingKey::WifiEnabled, &SettingValue::Str("no".to_string()));
    assert!(s.wifi);
    s.apply_entry(&SettingKey::DoNotDisturb, &SettingValue::Str("sleep".to_string()));
    assert!(s.dnd);
    s.apply_entry(&SettingKey::PowerProfile, &SettingValue::Str("performance".to_string()));
    let entries = vec![
        SettingEntry { key: SettingKey::BluetoothEnabled, value: SettingValue::Bool(false), lock_state: LockState::Unlocked },
        SettingEntry { key: SettingKey::AudioMuted, value: SettingValue::Bool(true), lock_state: LockState::Unlocked },
    ];
    s.load_batch(Some(&entries));
    assert!(!s.bt);
    assert!(s.muted);
    assert!(s.connected);
    s.load_batch(None);
    assert!(!s.connected);
    assert!(s.muted);
}

#[test]
fn events_on_the_bar() {
    let mut s = TopbarState::new();
    let a = s.handle_event(&SettingsEvent::Changed {
        key: SettingKey::DisplayBrightness,
        value: SettingValue::Float(10.0f64.to_bits()),
        source: "panel".to_string(),
    });
    assert!(matches!(a, TopbarAction::Nothing));
    assert!(matches!(s.brightness, Number::Float(b) if f64::from_bits(b) == 10.0));
    assert!(matches!(s.handle_event(&SettingsEvent::Reloaded), TopbarAction::Reload));
    assert!(matches!(
        s.handle_event(&SettingsEvent::LockChanged { key: SettingKey::WifiEnabled, lock_state: LockState::NixManaged }),
        TopbarAction::Nothing
    ));
}

#[test]
fn battery_and_clock() {
    assert!(has_battery("87%", "Discharging"));
    assert!(!has_battery("Unknown", "Charging"));
    assert!(!has_battery("50%", "Unknown"));
    assert!(battery_low(20));
    assert!(!battery_low(21));
    assert_eq!(clock_text(7, 5), "07:05");
    assert_eq!(clock_text(23, 59), "23:59");
    assert_eq!(clock_at_time(0, 0), "00:00");
    assert_eq!(clock_at_time(3600 * 13 + 60 * 7 + 59, 0), "13:07");
    assert_eq!(clock_at_time(3600 * 23 + 60 * 30, 3600), "00:30");
    assert_eq!(clock_at_time(60 * 15, -3600), "23:15");
    assert_eq!(clock_at_time(86400 * 2 + 60 * 45, 19800), "06:15");
    assert_eq!(clock_at_time(-60, 0), "23:59");
    assert_eq!(clock_at_time(-86400 * 3 - 1, 7200), "01:59");
    let now = clock_now(0);
    let b = now.as_bytes();
    assert_eq!(now.len(), 5);
    assert_eq!(b[2], b':');
    assert!(b[0].is_ascii_digit() && b[1].is_ascii_digit() && b[3].is_ascii_digit() && b[4].is_ascii_digit());
}

#[test]
fn power_and_panel_decisions() {
    assert!(matches!(power_action("logout"), PowerAction::LogOut));
    assert!(matches!(power_action("reboot"), PowerAction::Reboot));
    assert!(matches!(power_action("shutdown"), PowerAction::PowerOff));
    assert!(matches!(panel_toggle(true, true), PanelToggle::CloseKnown));
    assert!(matches!(panel_toggle(true, false), PanelToggle::CloseByClass));
    assert!(matches!(panel_toggle(false, true), PanelToggle::CloseKnown));
    assert!(matches!(panel_toggle(false, false), PanelToggle::Launch));
    assert!(clients_show_panel("[{\"class\": \"topbar-panel\"}]"));
    assert!(!clients_show_panel("[]"));
    assert!(!panel_loses_focus("   "));
    assert!(!panel_loses_focus("{\"class\": \"\"}"));
    assert!(!panel_loses_focus("{\"class\": \"topbar-panel\"}"));
    assert!(!panel_loses_focus("{\"class\": \"topbar\"}"));
    assert!(panel_loses_focus("{\"class\": \"firefox\"}"));
}

#[test]
fn geometry_and_labels() {
    let ds = vec![
        DisplaySpan { focused: false, x: 1920, width: 2560 },
        DisplaySpan { focused: true, x: 4480, width: 1280 },
    ];
    assert_eq!(topbar_width(&ds), 1280);
    assert_eq!(topbar_width(&[]), 1920);
    assert_eq!(topbar_width(&[DisplaySpan { focused: false, x: 0, width: 3840 }]), 3840);
    assert_eq!(panel_position(1920), (1508, 44));
    assert_eq!(panel_position(100), (-312, 44));
    assert_eq!(notifications_title(0), "Notifications");
    assert_eq!(notifications_title(12), "Notifications · 12");
    assert_eq!(notifications_shown(7), 3);
    assert_eq!(notifications_shown(2), 2);
    assert!(matches!(focus_switch_value(true), SettingValue::Str(ref s) if s == "on"));
    assert!(matches!(focus_switch_value(false), SettingValue::Str(ref s) if s == "off"));
    assert_eq!(NotificationLevel::Critical.label(), "Critical");
    assert_eq!(NotificationLevel::Info.label(), "Info");
}
