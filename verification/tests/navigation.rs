use finick::nav::{
    active_nav_index, filter_routes, nav_key, nav_routes, route_title, sidebar_entries, NavAction, NavEntry, NavKey,
    Route,
};

#[test]
fn table_has_every_page() {
    let r = nav_routes();
    assert_eq!(r.len(), 20);
    assert!(matches!(r[0].route, Route::Overview));
    assert!(matches!(r[19].route, Route::About));
    assert_eq!(r[14].title, "Date & Time");
    assert_eq!(r[1].group, Some("Network"));
    assert_eq!(r[0].group, None);
    for info in &r {
        assert_eq!(route_title(info.route), info.title);
    }
}

#[test]
fn search_matches_titles_and_keywords() {
    let all = nav_routes();
    assert_eq!(filter_routes(&all, "").len(), 20);
    let wifi: Vec<&str> = filter_routes(&all, "WIFI").iter().map(|r| r.title).collect();
    assert_eq!(wifi, vec!["Wi-Fi"]);
    let time: Vec<&str> = filter_routes(&all, "time").iter().map(|r| r.title).collect();
    assert_eq!(time, vec!["Screen Time", "General", "Date & Time"]);
    assert!(filter_routes(&all, "zzz").is_empty());
}

#[test]
fn keyboard_moves_wrap() {
    assert_eq!(nav_key(NavKey::Down, 2, 3, false, true), (0, NavAction::Stay));
    assert_eq!(nav_key(NavKey::Up, 0, 3, false, true), (2, NavAction::Stay));
    assert_eq!(nav_key(NavKey::Tab, 0, 3, false, true), (1, NavAction::Stay));
    assert_eq!(nav_key(NavKey::ShiftTab, 1, 3, false, true), (0, NavAction::Stay));
    assert_eq!(nav_key(NavKey::Down, 7, 0, false, true), (7, NavAction::Stay));
    assert_eq!(nav_key(NavKey::Down, 9, 3, false, true), (1, NavAction::Stay));
    assert_eq!(nav_key(NavKey::Enter, 9, 3, true, true), (9, NavAction::Open { index: 2, leave_search: true }));
    assert_eq!(nav_key(NavKey::Space, 1, 3, false, true), (1, NavAction::Open { index: 1, leave_search: false }));
    assert_eq!(nav_key(NavKey::Space, 1, 3, true, true), (1, NavAction::Stay));
    assert_eq!(nav_key(NavKey::Slash, 0, 3, false, true), (0, NavAction::FocusSearch));
    assert_eq!(nav_key(NavKey::Slash, 0, 3, true, true), (0, NavAction::Stay));
    assert_eq!(nav_key(NavKey::Escape, 0, 3, true, false), (0, NavAction::LeaveSearch { clear_query: true }));
    assert_eq!(nav_key(NavKey::Enter, 0, 0, false, true), (0, NavAction::Stay));
    assert_eq!(active_nav_index(5, 3), 2);
    assert_eq!(active_nav_index(5, 0), 0);
    for c in 1..6usize {
        for i in 0..c {
            let (n, _) = nav_key(NavKey::Down, i, c, false, true);
            let (back, _) = nav_key(NavKey::Up, n, c, false, true);
            assert_eq!(back, i);
        }
    }
}

#[test]
fn sidebar_groups() {
    let all = nav_routes();
    let entries = sidebar_entries(&all);
    assert_eq!(entries.len(), 19 + 3);
    assert!(matches!(entries[0], NavEntry::Item(Route::Overview)));
    assert!(matches!(entries[1], NavEntry::Group("Network")));
    assert!(matches!(entries[2], NavEntry::Item(Route::Wifi)));
    assert!(matches!(entries[4], NavEntry::Group("Personalisation")));
    assert!(!entries.iter().any(|e| matches!(e, NavEntry::Item(Route::About))));
    let some = filter_routes(&all, "about");
    assert!(sidebar_entries(&some).is_empty());
}
