use finick::settings::{
    initial_battery_pct, same_key, FocusMode, LockState, Number, PowerMode, ResolutionChoice, SettingEntry, SettingKey,
    SettingValue, SettingsEvent, SettingsStore, StoreAction,
};

fn store() -> SettingsStore {
    SettingsStore::new(true, false, Number::Int(40), false)
}

#[test]
fn new_store_has_defaults() {
    let s = store();
    assert!(s.values().wifi_power);
    assert!(!s.values().bt_power);
    assert!(matches!(s.values().volume, Number::Int(40)));
    assert!(s.values().ask_to_join);
    assert!(s.values().time_24h);
    assert_eq!(s.values().icon_size_pref, 1);
    assert!(matches!(s.choices().res_choice, ResolutionChoice::Default));
    assert!(matches!(s.choices().focus_mode, FocusMode::Off));
    assert!(matches!(s.choices().battery_mode, PowerMode::Balanced));
    assert_eq!(s.wallpaper(), "#1e1e2e");
    assert!(matches!(s.values().brightness, Number::Float(b) if f64::from_bits(b) == 72.0));
    assert!(matches!(s.values().color_temp, Number::Float(b) if f64::from_bits(b) == 30.0));
    assert!(matches!(s.values().text_size, Number::Float(b) if f64::from_bits(b) == 40.0));
    assert!(!s.is_locked(&SettingKey::WifiEnabled));
    assert!(s.lock_label(&SettingKey::WifiEnabled).is_none());
}

#[test]
fn toggles_take_booleans_only() {
    let mut s = store();
    s.apply_to_local_state(&SettingKey::BluetoothEnabled, &SettingValue::Bool(true));
    assert!(s.values().bt_power);
    s.apply_to_local_state(&SettingKey::BluetoothEnabled, &SettingValue::Int(0));
    assert!(s.values().bt_power);
    s.apply_to_local_state(&SettingKey::ScreenTimeEnabled, &SettingValue::Bool(false));
    assert!(!s.values().screen_time_enabled);
    assert!(!s.values().downtime_enabled);
    s.apply_to_local_state(&SettingKey::ScreenTimeEnabled, &SettingValue::Bool(true));
    assert!(s.values().screen_time_enabled);
    assert!(s.values().downtime_enabled);
}

#[test]
fn numbers_take_their_kind() {
    let mut s = store();
    s.apply_to_local_state(&SettingKey::AudioVolume, &SettingValue::Int(80));
    assert!(matches!(s.values().volume, Number::Int(80)));
    s.apply_to_local_state(&SettingKey::AudioVolume, &SettingValue::Float(55.5f64.to_bits()));
    assert!(matches!(s.values().volume, Number::Int(80)));
    s.apply_to_local_state(&SettingKey::DisplayBrightness, &SettingValue::Float(33.0f64.to_bits()));
    assert!(matches!(s.values().brightness, Number::Float(b) if f64::from_bits(b) == 33.0));
    s.apply_to_local_state(&SettingKey::DisplayBrightness, &SettingValue::Int(12));
    assert!(matches!(s.values().brightness, Number::Int(12)));
    s.apply_to_local_state(&SettingKey::IconSize, &SettingValue::Int(2));
    assert_eq!(s.values().icon_size_pref, 2);
    s.apply_to_local_state(&SettingKey::Scrollbars, &SettingValue::Str("x".to_string()));
    assert_eq!(s.values().scrollbar_pref, 0);
}

#[test]
fn choices_read_names() {
    let mut s = store();
    s.apply_to_local_state(&SettingKey::DisplayResolution, &SettingValue::Str("more_space".to_string()));
    assert!(matches!(s.choices().res_choice, ResolutionChoice::MoreSpace));
    s.apply_to_local_state(&SettingKey::DisplayResolution, &SettingValue::Str("LargerText".to_string()));
    assert!(matches!(s.choices().res_choice, ResolutionChoice::LargerText));
    s.apply_to_local_state(&SettingKey::DisplayResolution, &SettingValue::Str("weird".to_string()));
    assert!(matches!(s.choices().res_choice, ResolutionChoice::Default));
    s.apply_to_local_state(&SettingKey::DoNotDisturb, &SettingValue::Str("sleep".to_string()));
    assert!(matches!(s.choices().focus_mode, FocusMode::Sleep));
    assert_eq!(s.choices().focus_mode.as_str(), "sleep");
    s.apply_to_local_state(&SettingKey::DoNotDisturb, &SettingValue::Str("on".to_string()));
    assert!(matches!(s.choices().focus_mode, FocusMode::Off));
    s.apply_to_local_state(&SettingKey::PowerProfile, &SettingValue::Str("power-saver".to_string()));
    assert!(matches!(s.choices().battery_mode, PowerMode::Powersave));
    assert_eq!(s.choices().battery_mode.as_str(), "powersave");
    s.apply_to_local_state(&SettingKey::PowerProfile, &SettingValue::Str("performance".to_string()));
    assert_eq!(s.choices().battery_mode.as_str(), "performance");
    s.apply_to_local_state(&SettingKey::PowerProfile, &SettingValue::Bool(true));
    assert_eq!(s.choices().battery_mode.as_str(), "performance");
}

#[test]
fn wallpaper_presets_and_texts() {
    let mut s = store();
    s.apply_to_local_state(&SettingKey::Wallpaper, &SettingValue::Int(3));
    assert_eq!(s.values().wallpaper_idx, 3);
    assert_eq!(s.wallpaper(), "preset:3");
    s.apply_to_local_state(&SettingKey::Wallpaper, &SettingValue::Str("preset:7".to_string()));
    assert_eq!(s.values().wallpaper_idx, 7);
    assert_eq!(s.wallpaper(), "preset:7");
    s.apply_to_local_state(&SettingKey::Wallpaper, &SettingValue::Str("file:///tmp/a.png".to_string()));
    assert_eq!(s.values().wallpaper_idx, 7);
    assert_eq!(s.wallpaper(), "file:///tmp/a.png");
    s.apply_to_local_state(&SettingKey::Wallpaper, &SettingValue::Int(-2));
    assert_eq!(s.wallpaper(), "preset:-2");
    assert_eq!(s.values().wallpaper_idx, (-2i64) as usize);
}

#[test]
fn unknown_keys_change_nothing() {
    let mut s = store();
    s.apply_to_local_state(&SettingKey::ThemeMode, &SettingValue::Str("dark".to_string()));
    s.apply_to_local_state(&SettingKey::Custom("desktop.layout".to_string()), &SettingValue::Int(2));
    assert!(s.values().wifi_power);
    assert_eq!(s.wallpaper(), "#1e1e2e");
}

#[test]
fn locks_refuse_changes() {
    let mut s = store();
    s.set_lock(SettingKey::WifiEnabled, LockState::NixManaged);
    assert!(s.is_locked(&SettingKey::WifiEnabled));
    assert!(s.is_nix_locked(&SettingKey::WifiEnabled));
    assert_eq!(s.lock_label(&SettingKey::WifiEnabled).as_deref(), Some("Managed by NixOS"));
    assert!(!s.set(&SettingKey::WifiEnabled, &SettingValue::Bool(false)));
    assert!(s.values().wifi_power);
    assert!(s.set(&SettingKey::BluetoothEnabled, &SettingValue::Bool(true)));
    assert!(s.values().bt_power);
    s.set_lock(SettingKey::WifiEnabled, LockState::Unlocked);
    assert!(!s.is_locked(&SettingKey::WifiEnabled));
    assert!(s.set(&SettingKey::WifiEnabled, &SettingValue::Bool(false)));
    assert!(!s.values().wifi_power);
}

#[test]
fn lock_labels_give_reasons() {
    let mut s = store();
    s.set_lock(SettingKey::AccentColor, LockState::Locked { reason: Some("Kiosk".to_string()) });
    s.set_lock(SettingKey::Custom("x".to_string()), LockState::Locked { reason: None });
    assert_eq!(s.lock_label(&SettingKey::AccentColor).as_deref(), Some("Kiosk"));
    assert_eq!(s.lock_label(&SettingKey::Custom("x".to_string())).as_deref(), Some("Locked by policy"));
    assert!(s.lock_label(&SettingKey::Custom("y".to_string())).is_none());
    assert!(!s.is_nix_locked(&SettingKey::AccentColor));
    assert!(matches!(s.lock_state(&SettingKey::AccentColor), LockState::Locked { .. }));
}

#[test]
fn batch_applies_in_order_and_last_lock_wins() {
    let mut s = store();
    let entries = vec![
        SettingEntry { key: SettingKey::AudioMuted, value: SettingValue::Bool(true), lock_state: LockState::NixManaged },
        SettingEntry { key: SettingKey::AudioMuted, value: SettingValue::Bool(false), lock_state: LockState::Unlocked },
        SettingEntry {
            key: SettingKey::DoNotDisturb,
            value: SettingValue::Str("work".to_string()),
            lock_state: LockState::Locked { reason: None },
        },
    ];
    s.apply_entries(&entries);
    assert!(!s.values().is_mute);
    assert!(!s.is_locked(&SettingKey::AudioMuted));
    assert!(s.is_locked(&SettingKey::DoNotDisturb));
    assert!(matches!(s.choices().focus_mode, FocusMode::Work));
}

#[test]
fn events_apply_or_ask_for_reload() {
    let mut s = store();
    let a = s.handle_event(SettingsEvent::Changed {
        key: SettingKey::NtpEnabled,
        value: SettingValue::Bool(false),
        source: "cli".to_string(),
    });
    assert!(matches!(a, StoreAction::Nothing));
    assert!(!s.values().ntp_sync);
    let a = s.handle_event(SettingsEvent::LockChanged { key: SettingKey::NtpEnabled, lock_state: LockState::NixManaged });
    assert!(matches!(a, StoreAction::Nothing));
    assert!(s.is_nix_locked(&SettingKey::NtpEnabled));
    assert!(matches!(s.handle_event(SettingsEvent::Reloaded), StoreAction::Reload));
    assert!(matches!(s.handle_event(SettingsEvent::Alert("hi".to_string())), StoreAction::Nothing));
}

#[test]
fn applying_twice_is_applying_once() {
    let mut once = store();
    let mut twice = store();
    let v = SettingValue::Str("preset:4".to_string());
    once.apply_to_local_state(&SettingKey::Wallpaper, &v);
    twice.apply_to_local_state(&SettingKey::Wallpaper, &v);
    twice.apply_to_local_state(&SettingKey::Wallpaper, &v);
    assert_eq!(once.wallpaper(), twice.wallpaper());
    assert_eq!(once.values().wallpaper_idx, twice.values().wallpaper_idx);
}

#[test]
fn keys_compare_by_name() {
    assert!(same_key(&SettingKey::Custom("a".to_string()), &SettingKey::Custom("a".to_string())));
    assert!(!same_key(&SettingKey::Custom("a".to_string()), &SettingKey::Custom("b".to_string())));
    assert!(!same_key(&SettingKey::WifiEnabled, &SettingKey::BluetoothEnabled));
    assert!(same_key(&SettingKey::WifiEnabled, &SettingKey::WifiEnabled.duplicate()));
}

#[test]
fn starting_battery_reading() {
    assert_eq!(initial_battery_pct(" 87% "), 87);
    assert_eq!(initial_battery_pct("Unknown"), 78);
    assert_eq!(initial_battery_pct("300"), 78);
    assert_eq!(initial_battery_pct("100%%"), 100);
}
