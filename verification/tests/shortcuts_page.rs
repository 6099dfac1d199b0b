use finick::shortcuts::{
    combo_text, filter_shortcuts, group_shortcuts, join_strings, new_custom_shortcut, shortcut_groups,
    sorted_categories, split_mods, KeyboardShortcut,
};

fn sc(name: &str, mods: &[&str], key: &str, category: &str) -> KeyboardShortcut {
    KeyboardShortcut {
        id: format!("{}_{}", category, name),
        name: name.to_string(),
        mods: mods.iter().map(|m| m.to_string()).collect(),
        key: key.to_string(),
        command: format!("run {}", name),
        category: category.to_string(),
        is_custom: false,
    }
}

fn sample() -> Vec<KeyboardShortcut> {
    vec![
        sc("Open Terminal", &["Super"], "T", "Apps"),
        sc("Close Window", &["Super"], "Q", "Windows"),
        sc("Screenshot", &[], "Print", "Media"),
        sc("Browser", &["Super", "Shift"], "B", "Apps"),
        sc("Fullscreen", &["Super"], "F", "Windows"),
    ]
}

fn names(v: &[KeyboardShortcut]) -> Vec<String> {
    v.iter().map(|s| s.name.clone()).collect()
}

#[test]
fn empty_filter_keeps_all_in_order() {
    let list = sample();
    let r = filter_shortcuts(&list, "");
    assert_eq!(names(&r), names(&list));
}

#[test]
fn filter_matches_name_key_or_category_ignoring_case() {
    let list = sample();
    assert_eq!(names(&filter_shortcuts(&list, "TERM")), vec!["Open Terminal"]);
    assert_eq!(names(&filter_shortcuts(&list, "print")), vec!["Screenshot"]);
    assert_eq!(names(&filter_shortcuts(&list, "windows")), vec!["Close Window", "Fullscreen"]);
    assert!(filter_shortcuts(&list, "zzz").is_empty());
}

#[test]
fn categories_sorted_once_each() {
    let list = sample();
    assert_eq!(sorted_categories(&list), vec!["Apps", "Media", "Windows"]);
    assert!(sorted_categories(&Vec::new()).is_empty());
}

#[test]
fn grouping_by_category_in_key_order() {
    let list = sample();
    let g = group_shortcuts(&list);
    assert_eq!(g.len(), 3);
    assert_eq!(g[0].category, "Apps");
    assert_eq!(names(&g[0].items), vec!["Open Terminal", "Browser"]);
    assert_eq!(g[1].category, "Media");
    assert_eq!(names(&g[1].items), vec!["Screenshot"]);
    assert_eq!(g[2].category, "Windows");
    assert_eq!(names(&g[2].items), vec!["Close Window", "Fullscreen"]);
    let total: usize = g.iter().map(|x| x.items.len()).sum();
    assert_eq!(total, list.len());
}

#[test]
fn groups_for_filter() {
    let list = sample();
    let g = shortcut_groups(&list, "super+b");
    assert!(g.is_empty());
    let g = shortcut_groups(&list, "F");
    assert_eq!(g.len(), 1);
    assert_eq!(g[0].category, "Windows");
    assert_eq!(names(&g[0].items), vec!["Fullscreen"]);
}

#[test]
fn uppercase_category_sorts_first() {
    let list = vec![sc("a", &[], "1", "custom"), sc("b", &[], "2", "Custom"), sc("c", &[], "3", "Apps")];
    let g = group_shortcuts(&list);
    let cats: Vec<&str> = g.iter().map(|x| x.category.as_str()).collect();
    assert_eq!(cats, vec!["Apps", "Custom", "custom"]);
}

#[test]
fn combo_joins_mods_and_key() {
    let list = sample();
    assert_eq!(combo_text(&list[0]), "Super + T");
    assert_eq!(combo_text(&list[2]), "Print");
    assert_eq!(combo_text(&list[3]), "Super + Shift + B");
    let odd = sc("x", &[""], "K", "Apps");
    assert_eq!(combo_text(&odd), "K");
}

#[test]
fn join_strings_puts_separator_between() {
    let v: Vec<String> = vec!["a".into(), "b".into(), "c".into()];
    assert_eq!(join_strings(&v, "_"), "a_b_c");
    assert_eq!(join_strings(&Vec::new(), "_"), "");
}

#[test]
fn split_mods_on_commas_spaces_and_plus() {
    let chars: Vec<char> = "Super+Shift, Alt  Ctrl".chars().collect();
    assert_eq!(split_mods(&chars), vec!["Super", "Shift", "Alt", "Ctrl"]);
    let none: Vec<char> = ",+ ".chars().collect();
    assert!(split_mods(&none).is_empty());
}

#[test]
fn new_shortcut_from_form() {
    let s = new_custom_shortcut("  Open Terminal ", " Super Shift ", " T ", " ghostty ").unwrap();
    assert_eq!(s.name, "Open Terminal");
    assert_eq!(s.mods, vec!["Super", "Shift"]);
    assert_eq!(s.key, "T");
    assert_eq!(s.command, "ghostty");
    assert_eq!(s.id, "custom_Super_Shift_T");
    assert_eq!(s.category, "Custom");
    assert!(s.is_custom);
}

#[test]
fn new_shortcut_defaults_to_super() {
    let s = new_custom_shortcut("Files", "", "E", "nautilus").unwrap();
    assert_eq!(s.mods, vec!["Super"]);
    assert_eq!(s.id, "custom_Super_E");
    assert_eq!(combo_text(&s), "Super + E");
}

#[test]
fn new_shortcut_needs_name_key_and_command() {
    assert!(new_custom_shortcut("  ", "Super", "T", "x").is_none());
    assert!(new_custom_shortcut("n", "Super", "", "x").is_none());
    assert!(new_custom_shortcut("n", "Super", "T", " \t").is_none());
}

#[test]
fn copied_keeps_every_field() {
    let list = sample();
    let c = list[3].copied();
    assert_eq!(c.id, list[3].id);
    assert_eq!(c.name, list[3].name);
    assert_eq!(c.mods, list[3].mods);
    assert_eq!(c.key, list[3].key);
    assert_eq!(c.command, list[3].command);
    assert_eq!(c.category, list[3].category);
    assert_eq!(c.is_custom, list[3].is_custom);
}
