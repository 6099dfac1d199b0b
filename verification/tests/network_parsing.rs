use finick::network::{
    interface_address, network_info, primary_route, saved_networks, saved_wifi_names, scan_wifi, vpn_connection,
    vpn_links, wifi_radio_state, NetworkInfo, VpnKind, WifiNetwork,
};

fn net(ssid: &str, signal: u8, security: &str, connected: bool, is_known: bool) -> WifiNetwork {
    WifiNetwork { ssid: ssid.to_string(), signal, security: security.to_string(), connected, is_known }
}

#[test]
fn radio_state_reads_enabled() {
    assert_eq!(wifi_radio_state("enabled\n"), Some(true));
    assert_eq!(wifi_radio_state("  disabled "), Some(false));
    assert_eq!(wifi_radio_state(" \n"), None);
}

#[test]
fn saved_names_are_wireless_and_distinct() {
    let out = "Home:802-11-wireless\nwired:802-3-ethernet\n:802-11-wireless\n Cafe :802-11-wireless\nHome:802-11-wireless\n";
    let names = saved_wifi_names(out);
    assert_eq!(names, vec!["Home".to_string(), "Cafe".to_string()]);
}

#[test]
fn scan_keeps_first_of_each_ssid() {
    let saved = vec!["Home".to_string()];
    let out = "Home:70:WPA2:*\nCafe:xx::\nHome:10:WPA3:\n:50:WPA2:\nshort:1\nOther:300:WEP: \n";
    let (nets, active) = scan_wifi(out, &saved);
    assert_eq!(nets.len(), 3);
    assert_eq!(nets[0].ssid, "Home");
    assert_eq!(nets[0].signal, 70);
    assert_eq!(nets[0].security, "WPA2");
    assert!(nets[0].connected);
    assert!(nets[0].is_known);
    assert_eq!(nets[1].ssid, "Cafe");
    assert_eq!(nets[1].signal, 50);
    assert_eq!(nets[1].security, "Open");
    assert!(!nets[1].is_known);
    assert_eq!(nets[2].signal, 50);
    assert_eq!(active.as_deref(), Some("Home"));
}

#[test]
fn saved_list_puts_connected_first_then_by_name() {
    let saved = vec!["zeta".to_string(), "Alpha".to_string(), "beta".to_string(), "Home".to_string()];
    let avail = vec![net("beta", 40, "WPA2", false, true), net("Home", 77, "WPA3", true, true)];
    let active = Some("Home".to_string());
    let list = saved_networks(&saved, &avail, &active);
    let names: Vec<&str> = list.iter().map(|n| n.ssid.as_str()).collect();
    assert_eq!(names, vec!["Home", "Alpha", "beta", "zeta"]);
    assert!(list[0].connected);
    assert_eq!(list[0].signal, 77);
    assert_eq!(list[0].security, "WPA3");
    assert_eq!(list[1].security, "Saved");
    assert_eq!(list[1].signal, 0);
    assert_eq!(list[2].signal, 40);
    assert!(list.iter().all(|n| n.is_known));
}

#[test]
fn vpn_interfaces_and_names() {
    let out = "lo UNKNOWN 00:00\ntailscale0 UNKNOWN\nwg0 DOWN\ntun1 up\neth0 UP aa\ntap9\n";
    let links = vpn_links(out);
    assert_eq!(links.len(), 3);
    assert_eq!(links[0].interface, "tailscale0");
    assert!(matches!(links[0].kind, VpnKind::Tailscale));
    assert!(links[0].up);
    assert!(matches!(links[1].kind, VpnKind::WireGuard));
    assert!(!links[1].up);
    assert!(matches!(links[2].kind, VpnKind::Tunnel));
    assert!(links[2].up);
    let t = vpn_connection(&links[2], Some("10.8.0.2".to_string()));
    assert_eq!(t.name, "Tunnel (tun1)");
    assert_eq!(t.vpn_type, "VPN Tunnel");
    assert_eq!(t.ip_address.as_deref(), Some("10.8.0.2"));
    let w = vpn_connection(&links[1], None);
    assert_eq!(w.name, "WireGuard (wg0)");
    assert_eq!(w.vpn_type, "WireGuard");
    let ts = vpn_connection(&links[0], None);
    assert_eq!(ts.name, "Tailscale Mesh");
    assert_eq!(ts.vpn_type, "Tailscale");
}

#[test]
fn interface_address_strips_prefix_length() {
    assert_eq!(interface_address("wg0 UNKNOWN 10.0.0.2/32 fe80::1/64\n").as_deref(), Some("10.0.0.2"));
    assert_eq!(interface_address("x\nwg0 UP 192.168.1.9\n").as_deref(), Some("192.168.1.9"));
    assert_eq!(interface_address("wg0 DOWN\n"), None);
    assert_eq!(interface_address("wlan0 UP fe80::1/64 192.168.0.4/24\n").as_deref(), Some("192.168.0.4"));
    assert_eq!(interface_address("wlan0 UP fe80::1/64\n"), None);
    assert_eq!(interface_address("a UP fe80::1/64\nb UP 10.1.2.3/8\n").as_deref(), Some("10.1.2.3"));
}

#[test]
fn route_gives_device_and_source() {
    let (dev, src) = primary_route("1.1.1.1 via 192.168.1.1 dev wlp2s0 src 192.168.1.20 uid 1000\n    cache\n");
    assert_eq!(dev.as_deref(), Some("wlp2s0"));
    assert_eq!(src.as_deref(), Some("192.168.1.20"));
    let (dev, src) = primary_route("unreachable dev");
    assert_eq!(dev, None);
    assert_eq!(src, None);
}

#[test]
fn nothing_reported_gives_sample_data() {
    let saved: Vec<String> = Vec::new();
    let info = network_info(None, &saved, (Vec::new(), None), Vec::new(), (Some("eth9".to_string()), None));
    let d = NetworkInfo::default();
    assert_eq!(info.primary_interface, d.primary_interface);
    assert_eq!(info.primary_interface, "wlp166s0");
    assert_eq!(info.available_networks.len(), 4);
    assert_eq!(info.known_networks[1].ssid, "Flora's iPhone");
    assert_eq!(info.vpns[0].ip_address.as_deref(), Some("100.64.0.5"));
    assert_eq!(info.active_ssid.as_deref(), Some("Dark Depths"));
}

#[test]
fn reported_data_replaces_samples() {
    let saved = vec!["Cafe".to_string()];
    let scan = (vec![net("Cafe", 60, "WPA2", true, true)], Some("Cafe".to_string()));
    let info = network_info(Some(false), &saved, scan, Vec::new(), (Some("wlan0".to_string()), Some("10.1.1.1".to_string())));
    assert!(!info.wifi_enabled);
    assert_eq!(info.available_networks.len(), 1);
    assert_eq!(info.known_networks.len(), 1);
    assert!(info.known_networks[0].connected);
    assert_eq!(info.known_networks[0].signal, 60);
    assert_eq!(info.vpns.len(), 2);
    assert_eq!(info.primary_interface, "wlan0");
    assert_eq!(info.primary_ip, "10.1.1.1");
}

#[test]
fn saved_only_uses_sample_scan() {
    let saved = vec!["dd_iot".to_string()];
    let info = network_info(None, &saved, (Vec::new(), None), Vec::new(), (None, None));
    assert_eq!(info.known_networks.len(), 1);
    assert_eq!(info.known_networks[0].signal, 90);
    assert!(!info.known_networks[0].connected);
}
