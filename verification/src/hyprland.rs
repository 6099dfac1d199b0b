//! The window rules the top bar asks Hyprland for: the bar pinned at the
//! top, its control panel floating at the top right, and room kept free for
//! the bar on every monitor.

use vstd::prelude::*;
use crate::text::{decimal_i64, i64_to_decimal, join3, string_from_chars, string_views};

verus! {

fn i64_text(i: i64) -> (r: String)
    ensures
        r@ == decimal_i64(i),
{
    let d = i64_to_decimal(i);
    string_from_chars(d.as_slice())
}

/// The Lua script that sets the window rules of the bar and of the panel
/// (placed at `(x, y)`) and keeps 36 pixels free at the top.
pub open spec fn rules_script(x: i64, y: i64) -> Seq<char> {
    "\n        hl.window_rule({\n            name = \"finick-topbar\",\n            match = { class = \"^(topbar)$\" },\n            float = true,\n            pin = true,\n            move = { 0, 0 },\n            border_size = 0,\n            no_shadow = true,\n            no_anim = true,\n            no_blur = true,\n            no_initial_focus = true,\n        })\n        hl.window_rule({\n            name = \"finick-panel\",\n            match = { class = \"^(topbar-panel)$\" },\n            float = true,\n            pin = true,\n            move = { "@ + decimal_i64(x) + ", "@ + decimal_i64(y) + " },\n            border_size = 0,\n            no_shadow = true,\n            no_anim = true,\n            no_blur = true,\n            rounding = 20,\n        })\n        hl.monitor({\n            output = \"\",\n            reserved = { top = 36 },\n        })\n    "@
}

/// Builds the rules script for a panel at `(x, y)` (see [`rules_script`]).
pub fn panel_rules_script(x: i64, y: i64) -> (r: String)
    ensures
        r@ == rules_script(x, y),
{
    let xs = i64_text(x);
    let ys = i64_text(y);
    let mut r = join3("\n        hl.window_rule({\n            name = \"finick-topbar\",\n            match = { class = \"^(topbar)$\" },\n            float = true,\n            pin = true,\n            move = { 0, 0 },\n            border_size = 0,\n            no_shadow = true,\n            no_anim = true,\n            no_blur = true,\n            no_initial_focus = true,\n        })\n        hl.window_rule({\n            name = \"finick-panel\",\n            match = { class = \"^(topbar-panel)$\" },\n            float = true,\n            pin = true,\n            move = { ", xs.as_str(), ", ");
    r.append(ys.as_str());
    r.append(" },\n            border_size = 0,\n            no_shadow = true,\n            no_anim = true,\n            no_blur = true,\n            rounding = 20,\n        })\n        hl.monitor({\n            output = \"\",\n            reserved = { top = 36 },\n        })\n    ");
    r
}

/// The `windowrulev2` values of the same rules, for Hyprland releases
/// without Lua rules, in the order they are set.
pub open spec fn legacy_rules(x: i64, y: i64) -> Seq<Seq<char>> {
    seq![
        "float, class:^(topbar)$"@,
        "pin, class:^(topbar)$"@,
        "move 0 0, class:^(topbar)$"@,
        "noanim, class:^(topbar)$"@,
        "noblur, class:^(topbar)$"@,
        "float, class:^(topbar-panel)$"@,
        "pin, class:^(topbar-panel)$"@,
        "move "@ + decimal_i64(x) + " "@ + decimal_i64(y) + ", class:^(topbar-panel)$"@,
        "noborder, class:^(topbar-panel)$"@,
        "noshadow, class:^(topbar-panel)$"@,
        "noblur, class:^(topbar-panel)$"@,
        "noanim, class:^(topbar-panel)$"@,
        "rounding 20, class:^(topbar-panel)$"@,
    ]
}

/// Builds the `windowrulev2` values (see [`legacy_rules`]).
pub fn legacy_rule_values(x: i64, y: i64) -> (r: Vec<String>)
    ensures
        string_views(r@) == legacy_rules(x, y),
{
    let xs = i64_text(x);
    let ys = i64_text(y);
    let mut move_rule = join3("move ", xs.as_str(), " ");
    move_rule.append(ys.as_str());
    move_rule.append(", class:^(topbar-panel)$");
    let mut v: Vec<String> = Vec::new();
    v.push(String::from_str("float, class:^(topbar)$"));
    v.push(String::from_str("pin, class:^(topbar)$"));
    v.push(String::from_str("move 0 0, class:^(topbar)$"));
    v.push(String::from_str("noanim, class:^(topbar)$"));
    v.push(String::from_str("noblur, class:^(topbar)$"));
    v.push(String::from_str("float, class:^(topbar-panel)$"));
    v.push(String::from_str("pin, class:^(topbar-panel)$"));
    v.push(move_rule);
    v.push(String::from_str("noborder, class:^(topbar-panel)$"));
    v.push(String::from_str("noshadow, class:^(topbar-panel)$"));
    v.push(String::from_str("noblur, class:^(topbar-panel)$"));
    v.push(String::from_str("noanim, class:^(topbar-panel)$"));
    v.push(String::from_str("rounding 20, class:^(topbar-panel)$"));
    assert(string_views(v@) =~= legacy_rules(x, y));
    v
}

/// The `monitor` keyword value that keeps 36 pixels free at the top of the
/// monitor `name`.
pub fn monitor_reserve_keyword(name: &str) -> (r: String)
    ensures
        r@ == name@ + ",addreserved,36,0,0,0"@,
{
    let mut r = String::from_str(name);
    r.append(",addreserved,36,0,0,0");
    r
}

/// The Lua call that keeps 36 pixels free at the top of the monitor `name`.
pub fn monitor_reserve_script(name: &str) -> (r: String)
    ensures
        r@ == "hl.monitor({ output = \""@ + name@ + "\", reserved = { top = 36 } })"@,
{
    join3("hl.monitor({ output = \"", name, "\", reserved = { top = 36 } })")
}

/// The dispatch that moves the panel window to `(x, y)`.
pub fn move_panel_dispatch(x: i64, y: i64) -> (r: String)
    ensures
        r@ == "movewindowpixel "@ + decimal_i64(x) + " "@ + decimal_i64(y) + ",class:^(topbar-panel)$"@,
{
    let xs = i64_text(x);
    let ys = i64_text(y);
    let mut r = join3("movewindowpixel ", xs.as_str(), " ");
    r.append(ys.as_str());
    r.append(",class:^(topbar-panel)$");
    r
}

} // verus!
