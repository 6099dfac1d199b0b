use finick::bluetooth::{nearby_devices, nearby_line, nearby_name, BluetoothDevice};
use finick::network::{vpn_command, VpnConnection};

fn vpn(name: &str, iface: &str, connected: bool) -> VpnConnection {
    VpnConnection {
        name: name.to_string(),
        interface: iface.to_string(),
        vpn_type: "VPN".to_string(),
        connected,
        ip_address: None,
    }
}

#[test]
fn vpn_switch_commands() {
    assert_eq!(vpn_command(&vpn("Tailscale Mesh", "tailscale0", true)), vec!["tailscale", "down"]);
    assert_eq!(vpn_command(&vpn("Tailscale Mesh", "tailscale0", false)), vec!["tailscale", "up"]);
    assert_eq!(vpn_command(&vpn("Work", "wg0", false)), vec!["nmcli", "connection", "up", "Work"]);
    assert_eq!(vpn_command(&vpn("Work", "tun0", true)), vec!["nmcli", "connection", "down", "Work"]);
}

#[test]
fn nearby_names() {
    let named = nearby_line("Device AA:BB:CC:DD:EE:FF  Speaker ").unwrap();
    assert_eq!(nearby_name(&named, Some("Alias: Other\n")), "Speaker");
    let bare = nearby_line("Device 11:22:33:44:55:66 11-22-33-44-55-66").unwrap();
    assert_eq!(nearby_name(&bare, Some("Name: JBL\n\tAlias: Kitchen\n")), "Kitchen");
    assert_eq!(nearby_name(&bare, Some("Name: JBL\n")), "JBL");
    assert_eq!(nearby_name(&bare, Some("Class: 0x1\n")), "Device (11:22:33)");
    assert_eq!(nearby_name(&bare, None), "Device (11:22:33)");
}

fn dev(mac: &str, name: &str) -> BluetoothDevice {
    BluetoothDevice { mac: mac.to_string(), name: name.to_string(), connected: false }
}

#[test]
fn nearby_leaves_out_paired() {
    let scanned = vec![dev("AA", "one"), dev("BB", "two"), dev("CC", "three"), dev("AA", "again")];
    let paired = vec![dev("AA", "one")];
    let r = nearby_devices(&scanned, &paired);
    let macs: Vec<&str> = r.iter().map(|d| d.mac.as_str()).collect();
    assert_eq!(macs, vec!["BB", "CC"]);
    assert_eq!(nearby_devices(&scanned, &Vec::new()).len(), 4);
    let lower = vec![dev("aa", "x")];
    assert_eq!(nearby_devices(&scanned, &lower).len(), 4);
}
