use finick::language::{
    fast_initial_language_info, installed_locales, language_info, locale_code_to_friendly_name, read_locale,
    read_localectl, LanguageSources,
};

#[test]
fn friendly_names() {
    assert_eq!(locale_code_to_friendly_name("en_GB.UTF-8"), "English (United Kingdom)");
    assert_eq!(locale_code_to_friendly_name("pl_PL"), "Polish (Poland)");
    assert_eq!(locale_code_to_friendly_name("C.UTF-8"), "POSIX / C (System Default)");
    assert_eq!(locale_code_to_friendly_name("POSIX"), "POSIX / C (System Default)");
    assert_eq!(locale_code_to_friendly_name(""), "English (United States)");
    assert_eq!(locale_code_to_friendly_name(".utf8"), "English (United States)");
    assert_eq!(locale_code_to_friendly_name("fi_FI.UTF-8"), "Locale (fi_FI)");
}

#[test]
fn locale_output() {
    let out = "LANG=de_DE.UTF-8\nLC_TIME=\"en_GB.UTF-8\"\nLC_MEASUREMENT=\"en_US.UTF-8\"\nLANG=\n";
    let (lang, region, us) = read_locale(out, "en_US.UTF-8".to_string(), "en_US.UTF-8".to_string());
    assert_eq!(lang, "de_DE.UTF-8");
    assert_eq!(region, "en_GB.UTF-8");
    assert!(us);
    let (_, _, us2) = read_locale("LC_MEASUREMENT=de_DE\n", "a".to_string(), "b".to_string());
    assert!(!us2);
}

#[test]
fn localectl_output() {
    let out = "   System Locale: LANG=fr_FR.UTF-8 LC_TIME=x\n       VC Keymap: fr\n      X11 Layout: gb\n";
    let (lang, kb) = read_localectl(out, "en_US.UTF-8".to_string(), "us (English US)".to_string());
    assert_eq!(lang, "fr_FR.UTF-8");
    assert_eq!(kb, "gb (English UK)");
    let (_, kb2) = read_localectl("X11 Layout: cz\n", "x".to_string(), "k".to_string());
    assert_eq!(kb2, "cz (cz)");
}

#[test]
fn installed_list() {
    assert_eq!(installed_locales("C\nC.utf8\nPOSIX\n\n en_US.utf8 \n"), vec!["C.utf8".to_string(), "en_US.utf8".to_string()]);
}

#[test]
fn page_from_sources() {
    let fast = fast_initial_language_info();
    assert_eq!(fast.display_language, "English (United States)");
    assert!(fast.installed_locales.is_empty());
    assert_eq!(fast.preferred_languages.len(), 2);
    let src = LanguageSources {
        locale: Some("LANG=ja_JP.UTF-8\n"),
        localectl: None,
        date: Some("Friday, May 1, 2026\n"),
        locale_a: Some("C\n"),
    };
    let info = language_info(&src);
    assert_eq!(info.display_code, "ja_JP.UTF-8");
    assert_eq!(info.display_language, "Japanese (Japan)");
    assert_eq!(info.preferred_languages[0].name, "Japanese (Japan)");
    assert!(info.preferred_languages[0].is_primary);
    assert_eq!(info.preferred_languages[1].code, "en_GB.UTF-8");
    assert_eq!(info.keyboard_layout, "us (English US)");
    assert_eq!(info.measurement_units, "Metric (Celsius, km)");
    assert_eq!(info.date_example, "Friday, May 1, 2026");
    assert_eq!(info.installed_locales.len(), 6);
    assert_eq!(info.installed_locales[5], "ja_JP.utf8");
    assert_eq!(info.number_example, "1,234,567.89");
}
