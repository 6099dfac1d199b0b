use finick::cli::{accent_to_hex, border_plan, hypr_border_color, notify_parts, search_marker, settings_arg, BorderPlan, SettingsArg};
use finick::extract::extract_component;
use finick::text::{join3, replace_char, str_eq, string_from_chars, text_before, to_lowercase, to_uppercase, u64_text};

#[test]
fn accent_names_and_hex() {
    assert_eq!(accent_to_hex("Teal"), "2CA6A0");
    assert_eq!(accent_to_hex("  #ff6952 "), "FF6952");
    assert_eq!(accent_to_hex("#abcdef12"), "ABCDEF12");
    assert_eq!(accent_to_hex("CORAL"), "FF6952");
    assert_eq!(accent_to_hex("purple"), "5B5FE9");
    assert_eq!(accent_to_hex("##12345"), "5B5FE9");
    assert_eq!(hypr_border_color("2CA6A0"), "0xff2CA6A0");
}

#[test]
fn border_values() {
    assert!(matches!(border_plan("2"), BorderPlan::Size(2)));
    assert!(matches!(border_plan("0x00ff00ff"), BorderPlan::Color(ref c) if c == "0x00ff00ff"));
    assert!(matches!(border_plan("rgb(1,2,3)"), BorderPlan::Color(ref c) if c == "rgb(1,2,3)"));
    assert!(matches!(border_plan("rose"), BorderPlan::Color(ref c) if c == "0xffE85A88"));
    assert!(matches!(border_plan("-1"), BorderPlan::Color(ref c) if c == "0xff5B5FE9"));
}

#[test]
fn settings_and_notify_args() {
    match settings_arg(" accent_color = Teal ") {
        SettingsArg::Assign { key, value, raw_key, raw_value } => {
            assert_eq!(key, "accent_color");
            assert_eq!(value, "Teal");
            assert_eq!(raw_key, " accent_color ");
            assert_eq!(raw_value, " Teal ");
        },
        SettingsArg::Query { .. } => panic!("expected an assignment"),
    }
    assert!(matches!(settings_arg(" wifi_enabled "), SettingsArg::Query { ref key } if key == "wifi_enabled"));
    assert_eq!(notify_parts("Finick|Test Notification"), ("Finick".to_string(), "Test Notification".to_string()));
    assert_eq!(notify_parts("a|b|c"), ("a".to_string(), "b|c".to_string()));
    assert_eq!(notify_parts("plain"), ("plain".to_string(), String::new()));
    assert_eq!(search_marker(true, true, true), "/");
    assert_eq!(search_marker(false, true, true), "@");
    assert_eq!(search_marker(false, false, true), "*");
    assert_eq!(search_marker(false, false, false), "");
}

#[test]
fn components_are_extracted() {
    let text = "x struct A; impl A {}```y struct A; impl A { fn b() }  ```z";
    assert_eq!(extract_component(text, "struct A;").as_deref(), Some("struct A; impl A { fn b() }"));
    assert_eq!(extract_component("struct A; no end", "struct A;"), None);
    assert_eq!(extract_component("nothing", "struct A;"), None);
}

#[test]
fn text_helpers() {
    assert_eq!(string_from_chars(&['a', 'é', 'b']), "aéb");
    assert_eq!(to_lowercase("ÄBC"), "äbc");
    assert_eq!(to_uppercase("straße"), "STRASSE");
    assert!(str_eq("x", "x"));
    assert!(!str_eq("x", "y"));
    assert_eq!(join3("a", "b", "c"), "abc");
    assert_eq!(u64_text(0), "0");
    assert_eq!(u64_text(18446744073709551615), "18446744073709551615");
    assert_eq!(replace_char(&['a', '_', 'b'], '_', ' '), "a b");
    assert!(text_before(&['a'], &['b']));
    assert!(text_before(&['a'], &['a', 'a']));
    assert!(!text_before(&['b'], &['a', 'z']));
    assert!(!text_before(&['a'], &['a']));
    assert!(text_before(&['Z'], &['a']));
}

#[test]
fn accent_colour_is_stable() {
    for s in ["Teal", " #ff6952 ", "slate", "abcdef12", "nonsense", "", "ÄÖÜ", "#0a0B0c"] {
        let h = accent_to_hex(s);
        assert!(h.len() == 6 || h.len() == 8);
        assert!(h.chars().all(|c| c.is_ascii_digit() || ('A'..='F').contains(&c)));
        assert_eq!(accent_to_hex(&h), h);
    }
}
