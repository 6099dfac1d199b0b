use finick::date_time::{ntp_switch, shown_time, sync_text, DateTimeInfo};
use finick::language::matching_locales;
use finick::network::{toggle_wifi, NetworkInfo};
use finick::page_text::online_text;
use finick::privacy::{toggle_firewall, FirewallInfo};
use finick::summaries::{theme_change, ThemeChoice};

fn info() -> DateTimeInfo {
    DateTimeInfo {
        date: "Friday, May 1, 2026".to_string(),
        time_12: "03:30:00 PM".to_string(),
        time_24: "15:30:00".to_string(),
        timezone: "Europe/Berlin".to_string(),
        universal_time: "13:30".to_string(),
        rtc_time: "13:30".to_string(),
        ntp_synced: true,
    }
}

#[test]
fn date_time_page_choices() {
    let i = info();
    assert_eq!(shown_time(&i, true), "15:30:00");
    assert_eq!(shown_time(&i, false), "03:30:00 PM");
    assert_eq!(sync_text(true), "Clock synchronized via Network Time Protocol (NTP)");
    assert_eq!(sync_text(false), "Clock running locally (Not NTP synchronized)");
    assert_eq!(ntp_switch(true), (false, "false"));
    assert_eq!(ntp_switch(false), (true, "true"));
}

#[test]
fn locale_search() {
    let installed: Vec<String> = vec!["en_US.UTF-8".into(), "de_DE.UTF-8".into(), "C.UTF-8".into()];
    let all = matching_locales(&installed, "   ");
    assert_eq!(all.len(), 3);
    assert_eq!(all[0], ("English (United States)".to_string(), "en_US.UTF-8".to_string()));
    let de = matching_locales(&installed, "  GERMAN ");
    assert_eq!(de.len(), 1);
    assert_eq!(de[0].1, "de_DE.UTF-8");
    let code = matching_locales(&installed, "en_us");
    assert_eq!(code.len(), 1);
    assert_eq!(code[0].1, "en_US.UTF-8");
    assert!(matching_locales(&installed, "klingon").is_empty());
}

#[test]
fn wifi_switch_and_badge() {
    let mut n = NetworkInfo::default();
    let was = n.wifi_enabled;
    let ssid = n.active_ssid.clone();
    let next = toggle_wifi(&mut n);
    assert_eq!(next, !was);
    assert_eq!(n.wifi_enabled, !was);
    assert_eq!(n.active_ssid, ssid);
    assert_eq!(online_text(true, &Some("Home".to_string())), "Online");
    assert_eq!(online_text(false, &Some("Home".to_string())), "Offline");
    assert_eq!(online_text(true, &None), "Offline");
}

#[test]
fn firewall_switch() {
    let mut fw = FirewallInfo {
        is_active: false,
        status_text: "Inactive".to_string(),
        incoming: "deny".to_string(),
        outgoing: "allow".to_string(),
    };
    toggle_firewall(&mut fw);
    assert!(fw.is_active);
    assert_eq!(fw.status_text, "Active");
    assert_eq!(fw.incoming, "deny");
    toggle_firewall(&mut fw);
    assert!(!fw.is_active);
    assert_eq!(fw.status_text, "Inactive");
}

#[test]
fn locked_theme_choice_does_nothing() {
    assert_eq!(theme_change(true, ThemeChoice::Dark), None);
    assert_eq!(theme_change(false, ThemeChoice::Dark), Some("dark"));
    assert_eq!(theme_change(false, ThemeChoice::Auto), Some("auto"));
}
