//! Navigation in the settings app: the pages, the sidebar's search filter
//! and groups, and what the keyboard does.

use vstd::prelude::*;
use crate::text::{contains, contains_str, to_chars, to_lowercase, unicode_lower};

verus! {

/// A page of the settings app.
#[derive(Clone, Copy, PartialEq, Eq, Structural)]
pub enum Route {
    Overview,
    Wifi,
    Bluetooth,
    Appearance,
    Display,
    Sound,
    Focus,
    Notifications,
    ScreenTime,
    General,
    Storage,
    Battery,
    Accessibility,
    About,
    Desktop,
    DateTime,
    Privacy,
    Language,
    Printers,
    Accounts,
}

/// A page as the sidebar lists it.
#[derive(Clone, Copy)]
pub struct RouteInfo {
    pub route: Route,
    pub title: &'static str,
    pub group: Option<&'static str>,
    pub keywords: &'static str,
}

/// The view of a [`RouteInfo`].
pub struct RouteView {
    pub route: Route,
    pub title: Seq<char>,
    pub group: Option<Seq<char>>,
    pub keywords: Seq<char>,
}

impl View for RouteInfo {
    type V = RouteView;

    open spec fn view(&self) -> RouteView {
        RouteView {
            route: self.route,
            title: self.title@,
            group: match self.group {
                Some(g) => Some(g@),
                None => None,
            },
            keywords: self.keywords@,
        }
    }
}

/// The views of a list of pages.
pub open spec fn route_views(s: Seq<RouteInfo>) -> Seq<RouteView> {
    s.map_values(|r: RouteInfo| r@)
}

/// A page of the sidebar.
pub open spec fn entry(route: Route, title: Seq<char>, group: Option<Seq<char>>, keywords: Seq<char>) -> RouteView {
    RouteView { route, title, group, keywords }
}

/// Every page of the app, in the sidebar's order, with its title, group and
/// search keywords.
pub open spec fn nav_table() -> Seq<RouteView> {
    seq![
        entry(Route::Overview, "Overview"@, None, "overview bento dashboard finick"@),
        entry(Route::Wifi, "Wi-Fi"@, Some("Network"@), "wifi wireless network connection ssid internet"@),
        entry(Route::Bluetooth, "Bluetooth"@, Some("Network"@), "bluetooth devices pair connect wireless accessories"@),
        entry(
            Route::Appearance,
            "Appearance"@,
            Some("Personalisation"@),
            "theme dark light auto accent color wallpaper background"@,
        ),
        entry(
            Route::Display,
            "Display"@,
            Some("Personalisation"@),
            "display screen monitor resolution brightness night shift arrangement"@,
        ),
        entry(
            Route::Sound,
            "Sound"@,
            Some("Personalisation"@),
            "sound volume audio output input mic alert speakers"@,
        ),
        entry(
            Route::Focus,
            "Focus"@,
            Some("Personalisation"@),
            "focus dnd do not disturb schedule work personal sleep"@,
        ),
        entry(
            Route::Notifications,
            "Notifications"@,
            Some("Personalisation"@),
            "notifications alerts banners messages calendar mail apps"@,
        ),
        entry(
            Route::ScreenTime,
            "Screen Time"@,
            Some("Personalisation"@),
            "screen time limits downtime app limits communication usage"@,
        ),
        entry(
            Route::Desktop,
            "Desktop"@,
            Some("Personalisation"@),
            "desktop dock workspaces window manager hyprland layout gaps"@,
        ),
        entry(Route::General, "General"@, Some("System"@), "general system language region updates date time"@),
        entry(Route::Storage, "Storage"@, Some("System"@), "storage disk drive space usage partitions cleanup"@),
        entry(
            Route::Battery,
            "Battery"@,
            Some("System"@),
            "battery power charge low power balanced high performance"@,
        ),
        entry(
            Route::Accessibility,
            "Accessibility"@,
            Some("System"@),
            "accessibility text size screen reader contrast motion"@,
        ),
        entry(Route::DateTime, "Date & Time"@, Some("System"@), "clock timezone ntp rtc 24 hour sync date time"@),
        entry(
            Route::Privacy,
            "Privacy & Security"@,
            Some("System"@),
            "privacy firewall camera microphone permissions sandbox security"@,
        ),
        entry(
            Route::Language,
            "Language & Region"@,
            Some("System"@),
            "locale language region format spell check keyboard"@,
        ),
        entry(Route::Printers, "Printers & Scanners"@, Some("System"@), "printers scanners cups printing spool jobs"@),
        entry(Route::Accounts, "Accounts"@, Some("System"@), "users human user accounts uid shell login"@),
        entry(Route::About, "About"@, None, "about specs version os hardware support info"@),
    ]
}

fn info(route: Route, title: &'static str, group: Option<&'static str>, keywords: &'static str) -> (r: RouteInfo)
    ensures
        r@ == entry(
            route,
            title@,
            match group {
                Some(g) => Some(g@),
                None => None,
            },
            keywords@,
        ),
{
    RouteInfo { route, title, group, keywords }
}

/// Every page of the app, in the sidebar's order (see [`nav_table`]).
pub fn nav_routes() -> (r: Vec<RouteInfo>)
    ensures
        route_views(r@) == nav_table(),
{
    let v: Vec<RouteInfo> = vec![
        info(Route::Overview, "Overview", None, "overview bento dashboard finick"),
        info(Route::Wifi, "Wi-Fi", Some("Network"), "wifi wireless network connection ssid internet"),
        info(Route::Bluetooth, "Bluetooth", Some("Network"), "bluetooth devices pair connect wireless accessories"),
        info(
            Route::Appearance,
            "Appearance",
            Some("Personalisation"),
            "theme dark light auto accent color wallpaper background",
        ),
        info(
            Route::Display,
            "Display",
            Some("Personalisation"),
            "display screen monitor resolution brightness night shift arrangement",
        ),
        info(Route::Sound, "Sound", Some("Personalisation"), "sound volume audio output input mic alert speakers"),
        info(Route::Focus, "Focus", Some("Personalisation"), "focus dnd do not disturb schedule work personal sleep"),
        info(
            Route::Notifications,
            "Notifications",
            Some("Personalisation"),
            "notifications alerts banners messages calendar mail apps",
        ),
        info(
            Route::ScreenTime,
            "Screen Time",
            Some("Personalisation"),
            "screen time limits downtime app limits communication usage",
        ),
        info(
            Route::Desktop,
            "Desktop",
            Some("Personalisation"),
            "desktop dock workspaces window manager hyprland layout gaps",
        ),
        info(Route::General, "General", Some("System"), "general system language region updates date time"),
        info(Route::Storage, "Storage", Some("System"), "storage disk drive space usage partitions cleanup"),
        info(Route::Battery, "Battery", Some("System"), "battery power charge low power balanced high performance"),
        info(Route::Accessibility, "Accessibility", Some("System"), "accessibility text size screen reader contrast motion"),
        info(Route::DateTime, "Date & Time", Some("System"), "clock timezone ntp rtc 24 hour sync date time"),
        info(
            Route::Privacy,
            "Privacy & Security",
            Some("System"),
            "privacy firewall camera microphone permissions sandbox security",
        ),
        info(Route::Language, "Language & Region", Some("System"), "locale language region format spell check keyboard"),
        info(Route::Printers, "Printers & Scanners", Some("System"), "printers scanners cups printing spool jobs"),
        info(Route::Accounts, "Accounts", Some("System"), "users human user accounts uid shell login"),
        info(Route::About, "About", None, "about specs version os hardware support info"),
    ];
    assert(route_views(v@) =~= nav_table());
    v
}

/// The title of a page.
pub open spec fn title_of(r: Route) -> Seq<char> {
    match r {
        Route::Overview => "Overview"@,
        Route::Wifi => "Wi-Fi"@,
        Route::Bluetooth => "Bluetooth"@,
        Route::Appearance => "Appearance"@,
        Route::Display => "Display"@,
        Route::Sound => "Sound"@,
        Route::Focus => "Focus"@,
        Route::Notifications => "Notifications"@,
        Route::ScreenTime => "Screen Time"@,
        Route::General => "General"@,
        Route::Storage => "Storage"@,
        Route::Battery => "Battery"@,
        Route::Accessibility => "Accessibility"@,
        Route::About => "About"@,
        Route::Desktop => "Desktop"@,
        Route::DateTime => "Date & Time"@,
        Route::Privacy => "Privacy & Security"@,
        Route::Language => "Language & Region"@,
        Route::Printers => "Printers & Scanners"@,
        Route::Accounts => "Accounts"@,
    }
}

/// The title the top bar shows for the current page.
pub fn route_title(r: Route) -> (t: &'static str)
    ensures
        t@ == title_of(r),
{
    match r {
        Route::Overview => "Overview",
        Route::Wifi => "Wi-Fi",
        Route::Bluetooth => "Bluetooth",
        Route::Appearance => "Appearance",
        Route::Display => "Display",
        Route::Sound => "Sound",
        Route::Focus => "Focus",
        Route::Notifications => "Notifications",
        Route::ScreenTime => "Screen Time",
        Route::General => "General",
        Route::Storage => "Storage",
        Route::Battery => "Battery",
        Route::Accessibility => "Accessibility",
        Route::About => "About",
        Route::Desktop => "Desktop",
        Route::DateTime => "Date & Time",
        Route::Privacy => "Privacy & Security",
        Route::Language => "Language & Region",
        Route::Printers => "Printers & Scanners",
        Route::Accounts => "Accounts",
    }
}

/// Every page is in the table exactly once, under its own title.
pub proof fn law_table_lists_each_page_once(r: Route)
    ensures
        exists|i: int| 0 <= i < nav_table().len() && nav_table()[i].route == r,
        forall|i: int, j: int|
            0 <= i < j < nav_table().len() ==> nav_table()[i].route != nav_table()[j].route,
        forall|i: int| 0 <= i < nav_table().len() ==> #[trigger] nav_table()[i].title == title_of(nav_table()[i].route),
{
    let t = nav_table();
    match r {
        Route::Overview => assert(t[0].route == r),
        Route::Wifi => assert(t[1].route == r),
        Route::Bluetooth => assert(t[2].route == r),
        Route::Appearance => assert(t[3].route == r),
        Route::Display => assert(t[4].route == r),
        Route::Sound => assert(t[5].route == r),
        Route::Focus => assert(t[6].route == r),
        Route::Notifications => assert(t[7].route == r),
        Route::ScreenTime => assert(t[8].route == r),
        Route::Desktop => assert(t[9].route == r),
        Route::General => assert(t[10].route == r),
        Route::Storage => assert(t[11].route == r),
        Route::Battery => assert(t[12].route == r),
        Route::Accessibility => assert(t[13].route == r),
        Route::DateTime => assert(t[14].route == r),
        Route::Privacy => assert(t[15].route == r),
        Route::Language => assert(t[16].route == r),
        Route::Printers => assert(t[17].route == r),
        Route::Accounts => assert(t[18].route == r),
        Route::About => assert(t[19].route == r),
    }
}

/// Whether a page matches the (lower-cased) search `q`: any page when `q`
/// is empty, else one whose lower-cased title or whose keywords contain `q`.
pub open spec fn route_matches(e: RouteView, q: Seq<char>) -> bool {
    q.len() == 0 || contains(unicode_lower(e.title), q) || contains(e.keywords, q)
}

/// The pages among `es` that match `q`, in order.
pub open spec fn matching_routes(es: Seq<RouteView>, q: Seq<char>) -> Seq<RouteView>
    decreases es.len(),
{
    if es.len() == 0 {
        seq![]
    } else if route_matches(es.last(), q) {
        matching_routes(es.drop_last(), q).push(es.last())
    } else {
        matching_routes(es.drop_last(), q)
    }
}

/// The pages that the sidebar lists for the search text `query`: those that
/// match its lower case (see [`route_matches`]), in order.
pub fn filter_routes(routes: &Vec<RouteInfo>, query: &str) -> (r: Vec<RouteInfo>)
    ensures
        route_views(r@) == matching_routes(route_views(routes@), unicode_lower(query@)),
{
    let q = to_lowercase(query);
    let qc = to_chars(q.as_str());
    let ghost all = route_views(routes@);
    let mut r: Vec<RouteInfo> = Vec::new();
    let mut i: usize = 0;
    while i < routes.len()
        invariant
            i <= routes.len(),
            all == route_views(routes@),
            qc@ == unicode_lower(query@),
            route_views(r@) == matching_routes(all.take(i as int), qc@),
        decreases routes.len() - i,
    {
        let e = routes[i];
        assert(all.take(i + 1).drop_last() =~= all.take(i as int));
        assert(all.take(i + 1).last() == e@);
        let keep = if qc.len() == 0 {
            true
        } else {
            let lt = to_lowercase(e.title);
            let ltc = to_chars(lt.as_str());
            let kc = to_chars(e.keywords);
            contains_str(ltc.as_slice(), qc.as_slice()) || contains_str(kc.as_slice(), qc.as_slice())
        };
        if keep {
            let ghost before = route_views(r@);
            r.push(e);
            assert(route_views(r@) =~= before.push(e@));
        }
        i = i + 1;
    }
    assert(all.take(routes.len() as int) =~= all);
    r
}

/// The index the keyboard points at among `count` listed pages: the
/// remembered index, kept below `count`.
pub open spec fn active_index(focused: nat, count: nat) -> nat {
    if count == 0 {
        0
    } else if focused < count {
        focused
    } else {
        (count - 1) as nat
    }
}

/// Executable form of [`active_index`].
pub fn active_nav_index(focused: usize, count: usize) -> (r: usize)
    ensures
        r == active_index(focused as nat, count as nat),
{
    if count == 0 {
        0
    } else if focused < count {
        focused
    } else {
        count - 1
    }
}

/// The index after moving down among `count` pages, wrapping to the top.
pub open spec fn next_index(curr: nat, count: nat) -> nat {
    (curr + 1) % count
}

/// The index after moving up among `count` pages, wrapping to the bottom.
pub open spec fn prev_index(curr: nat, count: nat) -> nat {
    if curr == 0 {
        (count - 1) as nat
    } else {
        (curr - 1) as nat
    }
}

/// A key the sidebar reacts to.
#[derive(Clone, Copy, PartialEq, Eq, Structural)]
pub enum NavKey {
    /// `/`: go to the search field.
    Slash,
    Escape,
    Down,
    Up,
    Tab,
    ShiftTab,
    Enter,
    Space,
    /// Any other key.
    Other,
}

/// What the app does after a key.
#[derive(Clone, Copy, PartialEq, Eq, Structural, Debug)]
pub enum NavAction {
    /// Nothing besides the new index.
    Stay,
    /// Give the search field focus.
    FocusSearch,
    /// Take focus from the search field, and clear the search when asked.
    LeaveSearch { clear_query: bool },
    /// Open the listed page at `index`, taking focus from the search field
    /// when asked.
    Open { index: usize, leave_search: bool },
}

/// The index and action after `key`, with the keyboard at `focused` among
/// `count` listed pages, the search field focused or not, and the search
/// text empty or not.
pub open spec fn nav_key_outcome(
    key: NavKey,
    focused: nat,
    count: nat,
    search_focused: bool,
    query_empty: bool,
) -> (nat, NavAction) {
    match key {
        NavKey::Slash => (focused, if search_focused {
            NavAction::Stay
        } else {
            NavAction::FocusSearch
        }),
        NavKey::Escape => (focused, NavAction::LeaveSearch { clear_query: !query_empty }),
        NavKey::Down | NavKey::Tab => (if count > 0 {
            next_index(focused, count)
        } else {
            focused
        }, NavAction::Stay),
        NavKey::Up | NavKey::ShiftTab => (if count > 0 {
            prev_index(focused, count)
        } else {
            focused
        }, NavAction::Stay),
        NavKey::Enter => (focused, if count > 0 {
            NavAction::Open { index: active_index(focused, count) as usize, leave_search: true }
        } else {
            NavAction::Stay
        }),
        NavKey::Space => (focused, if !search_focused && count > 0 {
            NavAction::Open { index: active_index(focused, count) as usize, leave_search: false }
        } else {
            NavAction::Stay
        }),
        NavKey::Other => (focused, NavAction::Stay),
    }
}

/// Handles a key in the sidebar (see [`nav_key_outcome`]).
pub fn nav_key(key: NavKey, focused: usize, count: usize, search_focused: bool, query_empty: bool) -> (r: (
    usize,
    NavAction,
))
    ensures
        r.0 as nat == nav_key_outcome(key, focused as nat, count as nat, search_focused, query_empty).0,
        r.1 == nav_key_outcome(key, focused as nat, count as nat, search_focused, query_empty).1,
{
    match key {
        NavKey::Slash => (focused, if search_focused {
            NavAction::Stay
        } else {
            NavAction::FocusSearch
        }),
        NavKey::Escape => (focused, NavAction::LeaveSearch { clear_query: !query_empty }),
        NavKey::Down | NavKey::Tab => {
            if count > 0 {
                let m = focused % count;
                let n = (m + 1) % count;
                proof {
                    lemma_mod_step(focused as nat, count as nat);
                }
                (n, NavAction::Stay)
            } else {
                (focused, NavAction::Stay)
            }
        },
        NavKey::Up | NavKey::ShiftTab => {
            if count > 0 {
                (if focused == 0 {
                    count - 1
                } else {
                    focused - 1
                }, NavAction::Stay)
            } else {
                (focused, NavAction::Stay)
            }
        },
        NavKey::Enter => (focused, if count > 0 {
            NavAction::Open { index: active_nav_index(focused, count), leave_search: true }
        } else {
            NavAction::Stay
        }),
        NavKey::Space => (focused, if !search_focused && count > 0 {
            NavAction::Open { index: active_nav_index(focused, count), leave_search: false }
        } else {
            NavAction::Stay
        }),
        NavKey::Other => (focused, NavAction::Stay),
    }
}

proof fn lemma_mod_step(a: nat, n: nat)
    requires
        n > 0,
    ensures
        ((a % n) + 1) % n == (a + 1) % n,
{
    vstd::arithmetic::div_mod::lemma_add_mod_noop(a as int, 1, n as int);
    if n == 1 {
        assert(a % n == 0) by (nonlinear_arith)
            requires
                n == 1,
        ;
        assert((a + 1) % n == 0) by (nonlinear_arith)
            requires
                n == 1,
        ;
    } else {
        vstd::arithmetic::div_mod::lemma_small_mod(1, n);
    }
}

/// Moving down then up, or up then down, comes back to the same page; and
/// a move never leaves the list.
pub proof fn law_moves_undo(curr: nat, count: nat)
    requires
        curr < count,
    ensures
        prev_index(next_index(curr, count), count) == curr,
        next_index(prev_index(curr, count), count) == curr,
        next_index(curr, count) < count,
        prev_index(curr, count) < count,
{
    if curr + 1 < count {
        assert((curr + 1) % count == curr + 1) by (nonlinear_arith)
            requires
                0 <= curr + 1 < count,
        ;
    } else {
        assert((curr + 1) % count == 0) by (nonlinear_arith)
            requires
                curr + 1 == count,
                count > 0,
        ;
    }
    if curr == 0 {
        assert(count % count == 0) by (nonlinear_arith)
            requires
                count > 0,
        ;
    } else {
        assert(curr % count == curr) by (nonlinear_arith)
            requires
                0 <= curr < count,
        ;
    }
}

/// An entry of the sidebar: a group heading or a page.
#[derive(Clone, Copy)]
pub enum NavEntry {
    Group(&'static str),
    Item(Route),
}

/// The view of a [`NavEntry`].
pub enum NavEntryView {
    Group(Seq<char>),
    Item(Route),
}

impl View for NavEntry {
    type V = NavEntryView;

    open spec fn view(&self) -> NavEntryView {
        match self {
            NavEntry::Group(g) => NavEntryView::Group(g@),
            NavEntry::Item(r) => NavEntryView::Item(*r),
        }
    }
}

/// The sidebar for the listed pages `es` (About, listed at the bottom on
/// its own, left out): each page, with a heading before it whenever its
/// group differs from the previous page's and is a group. Also gives the
/// last group seen.
pub open spec fn sidebar_of(es: Seq<RouteView>) -> (Seq<NavEntryView>, Option<Seq<char>>)
    decreases es.len(),
{
    if es.len() == 0 {
        (seq![], None)
    } else {
        let prev = sidebar_of(es.drop_last());
        let e = es.last();
        if e.route == Route::About {
            prev
        } else if e.group != prev.1 {
            let with_head = match e.group {
                Some(g) => prev.0.push(NavEntryView::Group(g)),
                None => prev.0,
            };
            (with_head.push(NavEntryView::Item(e.route)), e.group)
        } else {
            (prev.0.push(NavEntryView::Item(e.route)), prev.1)
        }
    }
}

fn same_group(a: Option<&'static str>, b: Option<&'static str>) -> (r: bool)
    ensures
        r == (match a {
            Some(x) => Some(x@),
            None => None,
        } == match b {
            Some(y) => Some(y@),
            None => None,
        }),
{
    match (a, b) {
        (Some(x), Some(y)) => crate::text::str_eq(x, y),
        (None, None) => true,
        _ => false,
    }
}

/// The sidebar entries for the listed pages (see [`sidebar_of`]).
pub fn sidebar_entries(es: &Vec<RouteInfo>) -> (r: Vec<NavEntry>)
    ensures
        r@.map_values(|n: NavEntry| n@) == sidebar_of(route_views(es@)).0,
{
    let ghost all = route_views(es@);
    let mut r: Vec<NavEntry> = Vec::new();
    let mut current: Option<&'static str> = None;
    let mut i: usize = 0;
    while i < es.len()
        invariant
            i <= es.len(),
            all == route_views(es@),
            r@.map_values(|n: NavEntry| n@) == sidebar_of(all.take(i as int)).0,
            (match current {
                Some(x) => Some(x@),
                None => None,
            }) == sidebar_of(all.take(i as int)).1,
        decreases es.len() - i,
    {
        let e = es[i];
        assert(all.take(i + 1).drop_last() =~= all.take(i as int));
        assert(all.take(i + 1).last() == e@);
        let is_about = match e.route {
            Route::About => true,
            _ => false,
        };
        if !is_about {
            if !same_group(e.group, current) {
                current = e.group;
                if let Some(g) = e.group {
                    let ghost before = r@.map_values(|n: NavEntry| n@);
                    r.push(NavEntry::Group(g));
                    assert(r@.map_values(|n: NavEntry| n@) =~= before.push(NavEntryView::Group(g@)));
                }
            }
            let ghost before = r@.map_values(|n: NavEntry| n@);
            r.push(NavEntry::Item(e.route));
            assert(r@.map_values(|n: NavEntry| n@) =~= before.push(NavEntryView::Item(e.route)));
        }
        i = i + 1;
    }
    assert(all.take(es.len() as int) =~= all);
    r
}

/// An empty search lists every page, in order.
pub proof fn law_empty_search_lists_all(es: Seq<RouteView>)
    ensures
        matching_routes(es, seq![]) == es,
    decreases es.len(),
{
    if es.len() > 0 {
        law_empty_search_lists_all(es.drop_last());
        assert(es.drop_last().push(es.last()) =~= es);
    }
}

/// A search lists only pages that match it, each one of the pages searched.
pub proof fn law_search_lists_matches(es: Seq<RouteView>, q: Seq<char>)
    ensures
        matching_routes(es, q).len() <= es.len(),
        forall|i: int|
            0 <= i < matching_routes(es, q).len() ==> route_matches(#[trigger] matching_routes(es, q)[i], q)
                && es.contains(matching_routes(es, q)[i]),
    decreases es.len(),
{
    if es.len() > 0 {
        law_search_lists_matches(es.drop_last(), q);
        let prev = matching_routes(es.drop_last(), q);
        assert forall|i: int| 0 <= i < prev.len() implies es.contains(#[trigger] prev[i]) by {
            assert(es.drop_last().contains(prev[i]));
            let j = choose|j: int| 0 <= j < es.drop_last().len() && es.drop_last()[j] == prev[i];
            assert(es[j] == prev[i]);
        }
        if route_matches(es.last(), q) {
            assert(es[es.len() - 1] == es.last());
            assert forall|i: int| 0 <= i < prev.push(es.last()).len() implies route_matches(
                #[trigger] prev.push(es.last())[i],
                q,
            ) && es.contains(prev.push(es.last())[i]) by {
                if i < prev.len() {
                    assert(prev.push(es.last())[i] == prev[i]);
                }
            }
        }
    }
}

} // verus!
