use finick::sound::{device_menu, output_line, AudioDevice};

fn dev(id: &str, name: &str) -> AudioDevice {
    AudioDevice { id: id.to_string(), name: name.to_string() }
}

fn pairs(v: &[AudioDevice]) -> Vec<(String, String)> {
    v.iter().map(|d| (d.id.clone(), d.name.clone())).collect()
}

#[test]
fn menu_keeps_current_device() {
    let ds = vec![dev("51", "Speakers"), dev("60", "Headphones")];
    let m = device_menu("Headphones", &ds, "Studio Speakers");
    assert_eq!(m.selected, "Headphones");
    assert_eq!(pairs(&m.options), pairs(&ds));
}

#[test]
fn menu_falls_back_to_first_device() {
    let ds = vec![dev("51", "Speakers"), dev("60", "Headphones")];
    let m = device_menu("", &ds, "Studio Speakers");
    assert_eq!(m.selected, "Speakers");
}

#[test]
fn menu_without_devices() {
    let m = device_menu("", &Vec::new(), "Internal Microphone");
    assert_eq!(m.selected, "Internal Microphone");
    assert_eq!(pairs(&m.options), vec![(String::new(), String::new())]);
    let m = device_menu("USB Mic", &Vec::new(), "Internal Microphone");
    assert_eq!(m.selected, "USB Mic");
    assert_eq!(pairs(&m.options), vec![("USB Mic".to_string(), "USB Mic".to_string())]);
}

#[test]
fn output_line_names_the_sink() {
    assert_eq!(output_line(""), "Studio Speakers");
    assert_eq!(output_line("HDMI"), "HDMI");
}
