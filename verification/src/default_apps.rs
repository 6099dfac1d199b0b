//! The default applications page: what each category's row shows and which
//! applications its menu offers.

use vstd::prelude::*;
use crate::text::str_eq;

verus! {

/// An application that can handle a category, by name and desktop id.
pub struct AppChoice {
    pub name: String,
    pub desktop_id: String,
}

/// The view of an [`AppChoice`]: its name and desktop id.
pub open spec fn choice_view(a: AppChoice) -> (Seq<char>, Seq<char>) {
    (a.name@, a.desktop_id@)
}

/// The views of a list of choices.
pub open spec fn choice_views(s: Seq<AppChoice>) -> Seq<(Seq<char>, Seq<char>)> {
    s.map_values(|a: AppChoice| choice_view(a))
}

/// The name shown for a category's current application: `Not set` when
/// it has none.
pub open spec fn current_label(name: Seq<char>) -> Seq<char> {
    if name.len() == 0 {
        "Not set"@
    } else {
        name
    }
}

/// The value the menu starts on: the current desktop id, or the shown name
/// when the id is empty.
pub open spec fn current_value(name: Seq<char>, id: Seq<char>) -> Seq<char> {
    if id.len() == 0 {
        current_label(name)
    } else {
        id
    }
}

/// The name of the first application in `apps` whose desktop id is `id`.
pub open spec fn name_for_id(apps: Seq<(Seq<char>, Seq<char>)>, id: Seq<char>) -> Option<Seq<char>>
    decreases apps.len(),
{
    if apps.len() == 0 {
        None
    } else if apps[0].1 == id {
        Some(apps[0].0)
    } else {
        name_for_id(apps.drop_first(), id)
    }
}

/// A category's row on the page.
pub struct DefaultAppRow {
    /// The name shown for the current application.
    pub current: String,
    /// The label the menu shows.
    pub label: String,
    /// What the menu offers, each as a label and a value.
    pub options: Vec<AppChoice>,
}

/// The row for a category whose current application is `current_name`
/// with desktop id `current_id`, and which `apps` can handle: the menu
/// offers those applications (only the current one when there are none),
/// and shows the name of the one whose id is the current value, else the
/// current name.
pub fn default_app_row(current_name: &str, current_id: &str, apps: &Vec<AppChoice>) -> (r: DefaultAppRow)
    ensures
        r.current@ == current_label(current_name@),
        r.label@ == match name_for_id(choice_views(apps@), current_value(current_name@, current_id@)) {
            Some(n) => n,
            None => current_label(current_name@),
        },
        choice_views(r.options@) == if apps.len() == 0 {
            seq![(current_label(current_name@), current_id@)]
        } else {
            choice_views(apps@)
        },
{
    let current = if current_name.unicode_len() == 0 {
        String::from_str("Not set")
    } else {
        String::from_str(current_name)
    };
    let value = if current_id.unicode_len() == 0 {
        current.clone()
    } else {
        String::from_str(current_id)
    };
    let ghost all = choice_views(apps@);
    let mut options: Vec<AppChoice> = Vec::new();
    let mut found: Option<usize> = None;
    let mut i: usize = 0;
    assert(all.skip(0) =~= all);
    while i < apps.len()
        invariant
            i <= apps.len(),
            all == choice_views(apps@),
            choice_views(options@) == all.take(i as int),
            name_for_id(all, value@) == match found {
                Some(k) => Some(all[k as int].0),
                None => name_for_id(all.skip(i as int), value@),
            },
            found matches Some(k) ==> k < i,
        decreases apps.len() - i,
    {
        let a = &apps[i];
        assert(all.skip(i as int).drop_first() =~= all.skip(i + 1));
        assert(all.skip(i as int)[0] == choice_view(*a));
        if found.is_none() && str_eq(a.desktop_id.as_str(), value.as_str()) {
            found = Some(i);
        }
        let ghost before = choice_views(options@);
        options.push(AppChoice { name: a.name.clone(), desktop_id: a.desktop_id.clone() });
        assert(choice_views(options@) =~= before.push(choice_view(*a)));
        assert(all.take(i + 1) =~= all.take(i as int).push(choice_view(*a)));
        i = i + 1;
    }
    assert(all.take(apps.len() as int) =~= all);
    let label = match found {
        Some(k) => apps[k].name.clone(),
        None => {
            assert(all.skip(apps.len() as int).len() == 0);
            current.clone()
        },
    };
    if apps.len() == 0 {
        let ghost before = choice_views(options@);
        options.push(AppChoice { name: current.clone(), desktop_id: String::from_str(current_id) });
        assert(choice_views(options@) =~= before.push((current@, current_id@)));
    }
    DefaultAppRow { current, label, options }
}

} // verus!
