use finick::page_text::{
    adapter_status, camera_line, count_heading, error_chip_text, health_text, locales_line, network_line,
    paired_line, queue_status, saved_profile_line, signal_security_line, wallpaper_label, wallpaper_selected,
};

#[test]
fn adapter_status_lines() {
    assert_eq!(adapter_status(false, &Some("Home".to_string())), "Wi-Fi is disabled");
    assert_eq!(adapter_status(true, &Some("Home".to_string())), "Connected to Home");
    assert_eq!(adapter_status(true, &None), "Wi-Fi is on, not connected");
}

#[test]
fn network_lines() {
    assert_eq!(network_line(true, 80), "Connected");
    assert_eq!(network_line(false, 54), "Signal: 54%");
    assert_eq!(network_line(false, 0), "Signal: 0%");
    assert_eq!(saved_profile_line(true, "WPA2"), "Connected • Saved Profile");
    assert_eq!(saved_profile_line(false, "WPA2"), "Saved Profile • WPA2");
    assert_eq!(signal_security_line(78, "WPA3"), "Signal 78% · WPA3");
}

#[test]
fn counted_headings() {
    assert_eq!(count_heading("AVAILABLE NETWORKS", 3), "AVAILABLE NETWORKS (3)");
    assert_eq!(count_heading("Paired Devices", 0), "Paired Devices (0)");
    assert_eq!(count_heading("ACTIVE PRINT QUEUE", 12), "ACTIVE PRINT QUEUE (12)");
}

#[test]
fn queue_and_devices() {
    assert_eq!(queue_status(0), "Queue Idle (0)");
    assert_eq!(queue_status(2), "2 Pending");
    assert_eq!(paired_line(true, "AA:BB"), "Connected • AA:BB");
    assert_eq!(paired_line(false, "AA:BB"), "Paired • AA:BB");
    assert_eq!(camera_line(2), "Allow applications to use connected video capture devices (2 detected).");
    assert_eq!(camera_line(0), "Allow applications to capture video streams from webcam devices.");
    assert_eq!(locales_line(0), "Loading locales...");
    assert_eq!(locales_line(17), "17 installed");
}

#[test]
fn wallpaper_texts() {
    assert_eq!(wallpaper_label("beach.png"), "beach.png");
    assert_eq!(wallpaper_label("abcdefghijklmnopqrstuvwx"), "abcdefghijklmnopqrstuvwx");
    assert_eq!(wallpaper_label("abcdefghijklmnopqrstuvwxyz.png"), "abcdefghijklmnopqrstuvwx…");
    assert_eq!(wallpaper_label("ééééééééééééééééééééééééé"), "éééééééééééééééééééééééé…");
    assert!(wallpaper_selected("/w/a.png", "/w/a.png"));
    assert!(wallpaper_selected("file:///w/a.png", "/w/a.png"));
    assert!(!wallpaper_selected("file:///w/b.png", "/w/a.png"));
}

#[test]
fn error_chip_shortens_long_messages() {
    assert_eq!(error_chip_text("monitor busy"), "Error: monitor busy");
    let long = "x".repeat(60);
    assert_eq!(error_chip_text(&long), format!("Error: {}…", "x".repeat(48)));
    let exact = "y".repeat(48);
    assert_eq!(error_chip_text(&exact), format!("Error: {}", exact));
}

#[test]
fn health_lines() {
    assert_eq!(health_text(Some(87)), "87%");
    assert_eq!(health_text(None), "91%");
}
