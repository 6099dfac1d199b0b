use finick::default_apps::{default_app_row, AppChoice};

fn app(name: &str, id: &str) -> AppChoice {
    AppChoice { name: name.to_string(), desktop_id: id.to_string() }
}

fn pairs(v: &[AppChoice]) -> Vec<(String, String)> {
    v.iter().map(|a| (a.name.clone(), a.desktop_id.clone())).collect()
}

#[test]
fn row_names_the_current_app() {
    let apps = vec![app("Firefox", "firefox.desktop"), app("Chromium", "chromium.desktop")];
    let r = default_app_row("firefox", "chromium.desktop", &apps);
    assert_eq!(r.current, "firefox");
    assert_eq!(r.label, "Chromium");
    assert_eq!(pairs(&r.options), pairs(&apps));
}

#[test]
fn row_without_current_app() {
    let apps = vec![app("Firefox", "firefox.desktop")];
    let r = default_app_row("", "", &apps);
    assert_eq!(r.current, "Not set");
    assert_eq!(r.label, "Not set");
    assert_eq!(pairs(&r.options), pairs(&apps));
}

#[test]
fn row_with_unknown_current_id() {
    let apps = vec![app("Firefox", "firefox.desktop")];
    let r = default_app_row("Epiphany", "org.gnome.Epiphany.desktop", &apps);
    assert_eq!(r.label, "Epiphany");
}

#[test]
fn row_without_choices_offers_the_current_one() {
    let r = default_app_row("Files", "nautilus.desktop", &Vec::new());
    assert_eq!(r.current, "Files");
    assert_eq!(r.label, "Files");
    assert_eq!(pairs(&r.options), vec![("Files".to_string(), "nautilus.desktop".to_string())]);
}

#[test]
fn first_matching_app_wins() {
    let apps = vec![app("One", "x.desktop"), app("Two", "x.desktop")];
    let r = default_app_row("cur", "x.desktop", &apps);
    assert_eq!(r.label, "One");
}

#[test]
fn name_used_as_value_when_id_is_empty() {
    let apps = vec![app("Vim", "Editor"), app("Editor", "editor.desktop")];
    let r = default_app_row("Editor", "", &apps);
    assert_eq!(r.label, "Vim");
}
