use finick::bluetooth::{
    adapter_powered, connected_addresses, device_info_name, nearby_line, paired_devices, placeholder_name,
};
use finick::date_time::{date_time_info, zone_offset_wanted, DateTimeSources};
use finick::privacy::{device_privacy, firewall_status};
use finick::storage::{category_sizes, root_sizes, storage_info, system_bytes};

#[test]
fn date_and_clock() {
    let td = "               Local time: Fri 2026-05-01 10:00:00 CEST\n           Universal time: Fri 2026-05-01 08:00:00 UTC\n                 RTC time: Fri 2026-05-01 08:00:01\n                Time zone: Europe/Berlin (CEST, +0200)\nSystem clock synchronized: no\n              NTP service: active\n";
    let src = DateTimeSources {
        date: Some("Friday, May 01, 2026\n"),
        time_24: Some(""),
        time_12: None,
        timedatectl: Some(td),
        zone_offset: Some("+00:00 (UTC)\n"),
    };
    let info = date_time_info(&src);
    assert_eq!(info.date, "Friday, May 01, 2026");
    assert_eq!(info.time_24, "12:00:00");
    assert_eq!(info.time_12, "12:00:00 PM");
    assert_eq!(info.timezone, "Europe/Berlin (CEST, +0200)");
    assert_eq!(info.universal_time, "Fri 2026-05-01 08:00:00 UTC");
    assert_eq!(info.rtc_time, "Fri 2026-05-01 08:00:01");
    assert!(info.ntp_synced);
}

#[test]
fn utc_zone_asks_for_offset() {
    assert!(zone_offset_wanted("UTC"));
    assert!(zone_offset_wanted(""));
    assert!(!zone_offset_wanted("Etc/UTC"));
    let src = DateTimeSources {
        date: None,
        time_24: None,
        time_12: None,
        timedatectl: Some("System clock synchronized: YES\nNTP service: inactive\n"),
        zone_offset: Some("+00:00 (UTC)\n"),
    };
    let info = date_time_info(&src);
    assert_eq!(info.timezone, "+00:00 (UTC)");
    assert!(info.ntp_synced);
    assert_eq!(info.date, "Unknown Date");
}

#[test]
fn firewall_states() {
    let ufw = "Status: active\nLogging: on (low)\nDefault: reject (incoming), deny (outgoing), disabled (routed)\n";
    let f = firewall_status(Some(ufw), Some("running"), true);
    assert!(f.is_active);
    assert_eq!(f.status_text, "Active (UFW)");
    assert_eq!(f.incoming, "Deny (incoming)");
    assert_eq!(f.outgoing, "Deny (outgoing)");
    let f = firewall_status(Some("Status: inactive\n"), None, true);
    assert!(!f.is_active);
    assert_eq!(f.incoming, "Allow all");
    let f = firewall_status(Some("ERROR: need root\n"), Some(" running\n"), false);
    assert_eq!(f.status_text, "Active (firewalld)");
    let f = firewall_status(None, Some("not running"), true);
    assert_eq!(f.status_text, "Active (iptables)");
    let f = firewall_status(None, None, false);
    assert_eq!(f.status_text, "Active (Protected)");
    let f = firewall_status(Some("STATUS: ACTIVE\nDEFAULT: ALLOW (INCOMING)\n"), None, false);
    assert_eq!(f.incoming, "Allow (incoming)");
    assert_eq!(f.outgoing, "Allow (outgoing)");
}

#[test]
fn cameras_and_microphones() {
    let names = vec!["video0".to_string(), "video1".to_string(), "sda".to_string(), "vid".to_string()];
    let p = device_privacy(&names, Some("Audio\n ├─ Sources:\n"));
    assert_eq!(p.camera_count, 2);
    assert!(p.has_microphone);
    let p = device_privacy(&Vec::new(), Some("Audio\n"));
    assert_eq!(p.camera_count, 0);
    assert!(!p.has_microphone);
    assert!(device_privacy(&Vec::new(), None).has_microphone);
}

#[test]
fn disks_from_df() {
    let out = "Filesystem Size Used Avail Use% Mounted on\n/dev/nvme0n1p2 476G 210G 242G 47% /\ntmpfs 16G 0 16G 0% /dev/shm\n/dev/nvme0n1p1 511M 60M 452M 12% /boot\nefivarfs 128K 50K 74K 41% /sys/firmware/efi/efivars\n";
    let s = storage_info(Some(out));
    assert_eq!(s.disks.len(), 2);
    assert_eq!(s.total, "476G");
    assert_eq!(s.used, "210G");
    assert_eq!(s.available, "242G");
    assert_eq!(s.use_percent, "47");
    assert_eq!(s.disks[1].mount_point, "/boot");
    let none = storage_info(None);
    assert_eq!(none.disks.len(), 1);
    assert_eq!(none.total, "512 GB");
    assert_eq!(none.use_percent, "25");
    let only_hidden = storage_info(Some("Filesystem\ntmpfs 1 1 1 1% /tmp\n"));
    assert_eq!(only_hidden.disks[0].filesystem, "/dev/root");
}

#[test]
fn byte_sizes() {
    assert_eq!(root_sizes("Filesystem 1B-blocks Used Available Use% Mounted\n/dev/sda 1000 600 400 60% /\n"), Some((1000, 600, 400)));
    assert_eq!(root_sizes("header\nshort line\n/dev/x abc 5 z 1% /\n"), Some((1, 5, 0)));
    assert_eq!(root_sizes(""), None);
    assert_eq!(category_sizes(" 10 | 20 |x\n"), Some((10, 20, 0)));
    assert_eq!(category_sizes("1|2"), None);
    assert_eq!(system_bytes(100, 10, 20, 30), 40);
    assert_eq!(system_bytes(50, 10, 20, 30), 0);
}

#[test]
fn bluetooth_devices() {
    assert!(adapter_powered("Controller X\n\tName: pc\n\tPowered: yes\n"));
    assert!(!adapter_powered("Powered: no\nPowered: yes\n"));
    assert!(!adapter_powered(""));
    let conn = connected_addresses("Device aa:bb:cc:dd:ee:ff Buds\nController x\n");
    assert_eq!(conn, vec!["AA:BB:CC:DD:EE:FF".to_string()]);
    let devs = paired_devices(
        "Device aa:bb:cc:dd:ee:ff Buds Pro\nDevice 11:22:33:44:55:66\nDevice AA:BB:CC:DD:EE:FF again\nnoise\n",
        &conn,
    );
    assert_eq!(devs.len(), 2);
    assert_eq!(devs[0].name, "Buds Pro");
    assert!(devs[0].connected);
    assert_eq!(devs[1].name, "11:22:33:44:55:66");
    assert!(!devs[1].connected);
}

#[test]
fn nearby_device_names() {
    let l = nearby_line("Device 11:22:33:44:55:66 11-22-33-44-55-66").unwrap();
    assert_eq!(l.mac, "11:22:33:44:55:66");
    assert!(l.needs_lookup);
    let l = nearby_line("Device AA:BB:CC:DD:EE:FF  Speaker ").unwrap();
    assert_eq!(l.raw_name, "Speaker");
    assert!(!l.needs_lookup);
    assert!(nearby_line("Device AA:BB").is_none());
    assert_eq!(device_info_name("Name: JBL\n\tAlias: Kitchen\n").as_deref(), Some("Kitchen"));
    assert_eq!(device_info_name("Name: JBL\n").as_deref(), Some("JBL"));
    assert_eq!(device_info_name("Paired: yes\n"), None);
    assert_eq!(placeholder_name("AA:BB:CC:DD:EE:FF"), "Device (AA:BB:CC)");
    assert_eq!(placeholder_name("AB"), "Device (AB)");
}
