//! The keyboard shortcuts page: the filter, the grouping by category, the
//! key combination shown for a shortcut, and the form that adds one.

use vstd::prelude::*;
use crate::text::{
    trim, trimmed, contains, contains_str, lemma_text_less_strict, lemma_text_less_total, lemma_text_less_transitive,
    string_views, text_before, text_less, to_chars, to_lowercase, unicode_lower,
};

verus! {

/// A keybinding of the compositor.
pub struct KeyboardShortcut {
    pub id: String,
    pub name: String,
    pub mods: Vec<String>,
    pub key: String,
    pub command: String,
    pub category: String,
    pub is_custom: bool,
}

/// The view of a [`KeyboardShortcut`].
pub struct ShortcutView {
    pub id: Seq<char>,
    pub name: Seq<char>,
    pub mods: Seq<Seq<char>>,
    pub key: Seq<char>,
    pub command: Seq<char>,
    pub category: Seq<char>,
    pub is_custom: bool,
}

impl View for KeyboardShortcut {
    type V = ShortcutView;

    open spec fn view(&self) -> ShortcutView {
        ShortcutView {
            id: self.id@,
            name: self.name@,
            mods: string_views(self.mods@),
            key: self.key@,
            command: self.command@,
            category: self.category@,
            is_custom: self.is_custom,
        }
    }
}

/// The views of a list of shortcuts.
pub open spec fn shortcut_views(s: Seq<KeyboardShortcut>) -> Seq<ShortcutView> {
    s.map_values(|k: KeyboardShortcut| k@)
}

/// A copy of a list of strings.
fn copy_strings(v: &Vec<String>) -> (r: Vec<String>)
    ensures
        string_views(r@) == string_views(v@),
{
    let mut r: Vec<String> = Vec::new();
    let mut i: usize = 0;
    while i < v.len()
        invariant
            i <= v.len(),
            string_views(r@) == string_views(v@).take(i as int),
        decreases v.len() - i,
    {
        let ghost before = string_views(r@);
        r.push(v[i].clone());
        assert(string_views(r@) =~= before.push(v@[i as int]@));
        assert(string_views(v@).take(i + 1) =~= string_views(v@).take(i as int).push(v@[i as int]@));
        i = i + 1;
    }
    assert(string_views(v@).take(v.len() as int) =~= string_views(v@));
    r
}

impl KeyboardShortcut {
    /// A copy of this shortcut.
    pub fn copied(&self) -> (r: KeyboardShortcut)
        ensures
            r@ == self@,
    {
        KeyboardShortcut {
            id: self.id.clone(),
            name: self.name.clone(),
            mods: copy_strings(&self.mods),
            key: self.key.clone(),
            command: self.command.clone(),
            category: self.category.clone(),
            is_custom: self.is_custom,
        }
    }
}

/// Whether a shortcut matches the (lower-cased) filter `q`: any shortcut
/// when `q` is empty, else one whose name, key or category, lower-cased,
/// contains `q`.
pub open spec fn shortcut_matches(s: ShortcutView, q: Seq<char>) -> bool {
    q.len() == 0 || contains(unicode_lower(s.name), q) || contains(unicode_lower(s.key), q)
        || contains(unicode_lower(s.category), q)
}

/// The shortcuts among `s` that match `q`, in order.
pub open spec fn matching_shortcuts(s: Seq<ShortcutView>, q: Seq<char>) -> Seq<ShortcutView>
    decreases s.len(),
{
    if s.len() == 0 {
        seq![]
    } else if shortcut_matches(s.last(), q) {
        matching_shortcuts(s.drop_last(), q).push(s.last())
    } else {
        matching_shortcuts(s.drop_last(), q)
    }
}

/// An empty filter lists every shortcut, in order.
pub proof fn law_empty_filter_keeps_all(s: Seq<ShortcutView>)
    ensures
        matching_shortcuts(s, seq![]) == s,
    decreases s.len(),
{
    if s.len() > 0 {
        law_empty_filter_keeps_all(s.drop_last());
        assert(s.drop_last().push(s.last()) =~= s);
    }
}

/// A filter lists only shortcuts that match it, each one of those filtered.
pub proof fn law_filter_lists_matches(s: Seq<ShortcutView>, q: Seq<char>)
    ensures
        matching_shortcuts(s, q).len() <= s.len(),
        forall|i: int|
            0 <= i < matching_shortcuts(s, q).len() ==> shortcut_matches(#[trigger] matching_shortcuts(s, q)[i], q)
                && s.contains(matching_shortcuts(s, q)[i]),
    decreases s.len(),
{
    if s.len() > 0 {
        law_filter_lists_matches(s.drop_last(), q);
        let prev = matching_shortcuts(s.drop_last(), q);
        assert forall|i: int| 0 <= i < prev.len() implies s.contains(#[trigger] prev[i]) by {
            assert(s.drop_last().contains(prev[i]));
            let j = choose|j: int| 0 <= j < s.drop_last().len() && s.drop_last()[j] == prev[i];
            assert(s[j] == prev[i]);
        }
        if shortcut_matches(s.last(), q) {
            assert(s[s.len() - 1] == s.last());
            assert forall|i: int| 0 <= i < prev.push(s.last()).len() implies shortcut_matches(
                #[trigger] prev.push(s.last())[i],
                q,
            ) && s.contains(prev.push(s.last())[i]) by {
                if i < prev.len() {
                    assert(prev.push(s.last())[i] == prev[i]);
                }
            }
        }
    }
}

/// Whether the lower case of `text` contains `q`.
fn lower_contains(text: &str, q: &Vec<char>) -> (r: bool)
    ensures
        r == contains(unicode_lower(text@), q@),
{
    let l = to_lowercase(text);
    let lc = to_chars(l.as_str());
    contains_str(lc.as_slice(), q.as_slice())
}

/// The shortcuts that the page lists for the filter text `query`: those
/// that match its lower case (see [`shortcut_matches`]), in order.
pub fn filter_shortcuts(list: &Vec<KeyboardShortcut>, query: &str) -> (r: Vec<KeyboardShortcut>)
    ensures
        shortcut_views(r@) == matching_shortcuts(shortcut_views(list@), unicode_lower(query@)),
{
    let q = to_lowercase(query);
    let qc = to_chars(q.as_str());
    let ghost all = shortcut_views(list@);
    let mut r: Vec<KeyboardShortcut> = Vec::new();
    let mut i: usize = 0;
    while i < list.len()
        invariant
            i <= list.len(),
            all == shortcut_views(list@),
            qc@ == unicode_lower(query@),
            shortcut_views(r@) == matching_shortcuts(all.take(i as int), qc@),
        decreases list.len() - i,
    {
        let e = &list[i];
        assert(all.take(i + 1).drop_last() =~= all.take(i as int));
        assert(all.take(i + 1).last() == e@);
        let keep = qc.len() == 0 || lower_contains(e.name.as_str(), &qc) || lower_contains(
            e.key.as_str(),
            &qc,
        ) || lower_contains(e.category.as_str(), &qc);
        if keep {
            let ghost before = shortcut_views(r@);
            let c = e.copied();
            r.push(c);
            assert(shortcut_views(r@) =~= before.push(e@));
        }
        i = i + 1;
    }
    assert(all.take(list.len() as int) =~= all);
    r
}

/// The texts `parts` with `sep` between each two.
pub open spec fn joined(parts: Seq<Seq<char>>, sep: Seq<char>) -> Seq<char>
    decreases parts.len(),
{
    if parts.len() == 0 {
        seq![]
    } else if parts.len() == 1 {
        parts[0]
    } else {
        joined(parts.drop_last(), sep) + sep + parts.last()
    }
}

/// The strings `parts` joined with `sep` between each two.
pub fn join_strings(parts: &Vec<String>, sep: &str) -> (r: String)
    ensures
        r@ == joined(string_views(parts@), sep@),
{
    let ghost all = string_views(parts@);
    let mut r = String::new();
    let mut i: usize = 0;
    while i < parts.len()
        invariant
            i <= parts.len(),
            all == string_views(parts@),
            r@ == joined(all.take(i as int), sep@),
        decreases parts.len() - i,
    {
        assert(all.take(i + 1).drop_last() =~= all.take(i as int));
        assert(all.take(i + 1).last() == parts@[i as int]@);
        if i > 0 {
            r.append(sep);
        } else {
            assert(all.take(1) =~= seq![parts@[0]@]);
        }
        r.append(parts[i].as_str());
        i = i + 1;
    }
    assert(all.take(parts.len() as int) =~= all);
    r
}

/// The key combination shown for a shortcut: its modifiers joined with
/// `" + "`, then `" + "` and the key; the key alone when that join is empty.
pub open spec fn combo(mods: Seq<Seq<char>>, key: Seq<char>) -> Seq<char> {
    let m = joined(mods, " + "@);
    if m.len() == 0 {
        key
    } else {
        m + " + "@ + key
    }
}

/// The key combination shown for `s` (see [`combo`]).
pub fn combo_text(s: &KeyboardShortcut) -> (r: String)
    ensures
        r@ == combo(s@.mods, s@.key),
{
    let mut m = join_strings(&s.mods, " + ");
    if m.as_str().unicode_len() == 0 {
        s.key.clone()
    } else {
        m.append(" + ");
        m.append(s.key.as_str());
        m
    }
}

/// Whether `cats` lists texts in strictly increasing order.
pub open spec fn strictly_sorted(cats: Seq<Seq<char>>) -> bool {
    forall|i: int, j: int| 0 <= i < j < cats.len() ==> text_less(#[trigger] cats[i], #[trigger] cats[j])
}

/// Whether `cats` holds exactly the categories of the shortcuts `s`.
pub open spec fn same_categories(cats: Seq<Seq<char>>, s: Seq<ShortcutView>) -> bool {
    &&& forall|k: int| 0 <= k < s.len() ==> cats.contains(#[trigger] s[k].category)
    &&& forall|i: int| 0 <= i < cats.len() ==> exists|k: int| 0 <= k < s.len() && #[trigger] cats[i] == s[k].category
}

/// Whether `a` comes before `b` (see [`text_less`]).
fn str_before(a: &String, b: &[char]) -> (r: bool)
    ensures
        r == text_less(a@, b@),
{
    let ac = to_chars(a.as_str());
    text_before(ac.as_slice(), b)
}

/// The categories of `s`, each once, in the order of `str`.
pub fn sorted_categories(s: &Vec<KeyboardShortcut>) -> (r: Vec<String>)
    ensures
        strictly_sorted(string_views(r@)),
        same_categories(string_views(r@), shortcut_views(s@)),
{
    let ghost all = shortcut_views(s@);
    let mut r: Vec<String> = Vec::new();
    let mut i: usize = 0;
    while i < s.len()
        invariant
            i <= s.len(),
            all == shortcut_views(s@),
            strictly_sorted(string_views(r@)),
            same_categories(string_views(r@), all.take(i as int)),
        decreases s.len() - i,
    {
        let ghost old_cats = string_views(r@);
        let c = &s[i].category;
        let cc = to_chars(c.as_str());
        let mut p: usize = 0;
        while p < r.len() && str_before(&r[p], cc.as_slice())
            invariant
                p <= r.len(),
                string_views(r@) == old_cats,
                cc@ == c@,
                forall|q: int| 0 <= q < p ==> text_less(#[trigger] old_cats[q], c@),
            decreases r.len() - p,
        {
            p = p + 1;
        }
        let ghost pre = all.take(i as int);
        let ghost now = all.take(i + 1);
        assert(now =~= pre.push(all[i as int]));
        assert(all[i as int].category == c@);
        let found = if p < r.len() {
            let rc = to_chars(r[p].as_str());
            crate::text::eq_chars(rc.as_slice(), cc.as_slice())
        } else {
            false
        };
        if found {
            assert(old_cats[p as int] == c@);
            assert forall|k: int| 0 <= k < now.len() implies old_cats.contains(
                #[trigger] now[k].category,
            ) by {
                if k < i {
                    assert(now[k] == pre[k]);
                }
            }
            assert forall|j: int| 0 <= j < old_cats.len() implies exists|k: int|
                0 <= k < now.len() && #[trigger] old_cats[j] == now[k].category by {
                let k = choose|k: int| 0 <= k < pre.len() && old_cats[j] == pre[k].category;
                assert(now[k] == pre[k]);
            }
        } else {
            assert(p < old_cats.len() ==> old_cats[p as int] != c@);
            proof {
                if p < old_cats.len() {
                    lemma_text_less_total(old_cats[p as int], c@);
                }
            }
            r.insert(p, c.clone());
            let ghost new_cats = string_views(r@);
            assert(new_cats =~= old_cats.insert(p as int, c@));
            assert forall|a: int, b: int| 0 <= a < b < new_cats.len() implies text_less(
                #[trigger] new_cats[a],
                #[trigger] new_cats[b],
            ) by {
                if b < p {
                    assert(new_cats[a] == old_cats[a] && new_cats[b] == old_cats[b]);
                } else if b == p {
                    assert(new_cats[a] == old_cats[a]);
                } else if a == p {
                    assert(new_cats[b] == old_cats[b - 1]);
                    if b - 1 > p {
                        assert(text_less(old_cats[p as int], old_cats[b - 1]));
                        lemma_text_less_transitive(c@, old_cats[p as int], old_cats[b - 1]);
                    }
                } else if a < p {
                    assert(new_cats[a] == old_cats[a] && new_cats[b] == old_cats[b - 1]);
                    if b - 1 > a {
                        assert(text_less(old_cats[a], old_cats[b - 1]));
                    }
                } else {
                    assert(new_cats[a] == old_cats[a - 1] && new_cats[b] == old_cats[b - 1]);
                    assert(text_less(old_cats[a - 1], old_cats[b - 1]));
                }
            }
            assert(new_cats[p as int] == c@);
            assert forall|k: int| 0 <= k < now.len() implies new_cats.contains(
                #[trigger] now[k].category,
            ) by {
                if k < i {
                    assert(now[k] == pre[k]);
                    assert(old_cats.contains(pre[k].category));
                    let j = choose|j: int| 0 <= j < old_cats.len() && old_cats[j] == pre[k].category;
                    if j < p {
                        assert(new_cats[j] == old_cats[j]);
                    } else {
                        assert(new_cats[j + 1] == old_cats[j]);
                    }
                }
            }
            assert forall|j: int| 0 <= j < new_cats.len() implies exists|k: int|
                0 <= k < now.len() && #[trigger] new_cats[j] == now[k].category by {
                if j == p {
                    assert(now[i as int].category == c@);
                } else {
                    let oj = if j < p { j } else { j - 1 };
                    assert(new_cats[j] == old_cats[oj]);
                    let k = choose|k: int| 0 <= k < pre.len() && old_cats[oj] == pre[k].category;
                    assert(now[k] == pre[k]);
                }
            }
        }
        i = i + 1;
    }
    assert(all.take(s.len() as int) =~= all);
    r
}

/// The shortcuts among `s` whose category is `c`, in order.
pub open spec fn in_category(s: Seq<ShortcutView>, c: Seq<char>) -> Seq<ShortcutView>
    decreases s.len(),
{
    if s.len() == 0 {
        seq![]
    } else if s.last().category == c {
        in_category(s.drop_last(), c).push(s.last())
    } else {
        in_category(s.drop_last(), c)
    }
}

/// A category heading of the page with its shortcuts.
pub struct ShortcutGroup {
    pub category: String,
    pub items: Vec<KeyboardShortcut>,
}

/// The view of a [`ShortcutGroup`].
pub struct GroupView {
    pub category: Seq<char>,
    pub items: Seq<ShortcutView>,
}

impl View for ShortcutGroup {
    type V = GroupView;

    open spec fn view(&self) -> GroupView {
        GroupView { category: self.category@, items: shortcut_views(self.items@) }
    }
}

/// The views of a list of groups.
pub open spec fn group_views(g: Seq<ShortcutGroup>) -> Seq<GroupView> {
    g.map_values(|x: ShortcutGroup| x@)
}

/// The categories of a list of groups.
pub open spec fn group_categories(g: Seq<GroupView>) -> Seq<Seq<char>> {
    g.map_values(|x: GroupView| x.category)
}

/// Whether `g` is `s` grouped by category: one group for each category
/// that occurs, in the order of `str` (as a `BTreeMap` keyed by category
/// walks them), each holding the shortcuts of its category in their order.
pub open spec fn grouped(g: Seq<GroupView>, s: Seq<ShortcutView>) -> bool {
    &&& strictly_sorted(group_categories(g))
    &&& same_categories(group_categories(g), s)
    &&& forall|i: int| 0 <= i < g.len() ==> (#[trigger] g[i]).items == in_category(s, g[i].category)
}

/// The shortcuts of `s` in category `c`.
fn shortcuts_in(s: &Vec<KeyboardShortcut>, c: &String) -> (r: Vec<KeyboardShortcut>)
    ensures
        shortcut_views(r@) == in_category(shortcut_views(s@), c@),
{
    let ghost all = shortcut_views(s@);
    let cc = to_chars(c.as_str());
    let mut r: Vec<KeyboardShortcut> = Vec::new();
    let mut i: usize = 0;
    while i < s.len()
        invariant
            i <= s.len(),
            all == shortcut_views(s@),
            cc@ == c@,
            shortcut_views(r@) == in_category(all.take(i as int), c@),
        decreases s.len() - i,
    {
        let e = &s[i];
        assert(all.take(i + 1).drop_last() =~= all.take(i as int));
        assert(all.take(i + 1).last() == e@);
        let ec = to_chars(e.category.as_str());
        if crate::text::eq_chars(ec.as_slice(), cc.as_slice()) {
            let ghost before = shortcut_views(r@);
            let x = e.copied();
            r.push(x);
            assert(shortcut_views(r@) =~= before.push(e@));
        }
        i = i + 1;
    }
    assert(all.take(s.len() as int) =~= all);
    r
}

/// The shortcuts `s` grouped by category (see [`grouped`]).
pub fn group_shortcuts(s: &Vec<KeyboardShortcut>) -> (r: Vec<ShortcutGroup>)
    ensures
        grouped(group_views(r@), shortcut_views(s@)),
{
    let cats = sorted_categories(s);
    let ghost cs = string_views(cats@);
    let mut r: Vec<ShortcutGroup> = Vec::new();
    let mut i: usize = 0;
    while i < cats.len()
        invariant
            i <= cats.len(),
            cs == string_views(cats@),
            group_categories(group_views(r@)) == cs.take(i as int),
            forall|j: int|
                0 <= j < r.len() ==> (#[trigger] group_views(r@)[j]).items == in_category(
                    shortcut_views(s@),
                    group_views(r@)[j].category,
                ),
        decreases cats.len() - i,
    {
        let items = shortcuts_in(s, &cats[i]);
        let g = ShortcutGroup { category: cats[i].clone(), items };
        let ghost before = group_views(r@);
        r.push(g);
        assert(group_views(r@) =~= before.push(g@));
        assert(g@.category == cs[i as int]);
        assert(group_categories(before.push(g@)) =~= group_categories(before).push(g@.category));
        assert(group_categories(group_views(r@)) =~= cs.take(i + 1));
        i = i + 1;
    }
    assert(cs.take(cats.len() as int) =~= cs);
    r
}

/// The groups that the page shows for the filter text `query`: the
/// shortcuts that match it (see [`filter_shortcuts`]), grouped by category.
pub fn shortcut_groups(list: &Vec<KeyboardShortcut>, query: &str) -> (r: Vec<ShortcutGroup>)
    ensures
        grouped(
            group_views(r@),
            matching_shortcuts(shortcut_views(list@), unicode_lower(query@)),
        ),
{
    let shown = filter_shortcuts(list, query);
    group_shortcuts(&shown)
}

/// A shortcut of category `c` is among the shortcuts of that category.
proof fn lemma_in_category_holds(s: Seq<ShortcutView>, k: int)
    requires
        0 <= k < s.len(),
    ensures
        in_category(s, s[k].category).contains(s[k]),
    decreases s.len(),
{
    let c = s[k].category;
    if k == s.len() - 1 {
        assert(in_category(s, c).last() == s[k]);
        assert(in_category(s, c)[in_category(s, c).len() - 1] == s[k]);
    } else {
        lemma_in_category_holds(s.drop_last(), k);
        assert(s.drop_last()[k] == s[k]);
        let prev = in_category(s.drop_last(), c);
        let j = choose|j: int| 0 <= j < prev.len() && prev[j] == s[k];
        if s.last().category == c {
            assert(in_category(s, c)[j] == prev[j]);
        }
    }
}

/// Grouping keeps every shortcut, each in one group only: for each
/// shortcut exactly one group has its category, and that group holds it.
pub proof fn law_each_shortcut_in_one_group(g: Seq<GroupView>, s: Seq<ShortcutView>, k: int)
    requires
        grouped(g, s),
        0 <= k < s.len(),
    ensures
        exists|i: int|
            0 <= i < g.len() && #[trigger] g[i].category == s[k].category && g[i].items.contains(s[k]),
        forall|i: int, j: int|
            0 <= i < g.len() && 0 <= j < g.len() && #[trigger] g[i].category == s[k].category
                && #[trigger] g[j].category == s[k].category ==> i == j,
{
    let cats = group_categories(g);
    assert(cats.contains(s[k].category));
    let i = choose|i: int| 0 <= i < cats.len() && cats[i] == s[k].category;
    assert(cats[i] == g[i].category);
    lemma_in_category_holds(s, k);
    assert(g[i].items == in_category(s, g[i].category));
    assert forall|a: int, b: int|
        0 <= a < g.len() && 0 <= b < g.len() && #[trigger] g[a].category == s[k].category
            && #[trigger] g[b].category == s[k].category implies a == b by {
        assert(cats[a] == g[a].category && cats[b] == g[b].category);
        if a < b {
            assert(text_less(cats[a], cats[b]));
            lemma_text_less_strict(cats[a], cats[a]);
        } else if b < a {
            assert(text_less(cats[b], cats[a]));
            lemma_text_less_strict(cats[b], cats[b]);
        }
    }
}

/// Whether `c` separates modifiers in the form's text: a comma, a space or
/// a plus.
pub open spec fn is_mod_sep(c: char) -> bool {
    c == ',' || c == ' ' || c == '+'
}

/// The pieces of `s` between separators (see [`is_mod_sep`]), empty ones
/// included, as `str::split` gives them.
pub open spec fn mod_pieces(s: Seq<char>) -> Seq<Seq<char>>
    decreases s.len(),
{
    if s.len() == 0 {
        seq![seq![]]
    } else {
        let p = mod_pieces(s.drop_last());
        if is_mod_sep(s.last()) {
            p.push(seq![])
        } else {
            p.drop_last().push(p.last().push(s.last()))
        }
    }
}

/// The texts of `ps` that are not empty, in order.
pub open spec fn nonempty(ps: Seq<Seq<char>>) -> Seq<Seq<char>>
    decreases ps.len(),
{
    if ps.len() == 0 {
        seq![]
    } else if ps.last().len() > 0 {
        nonempty(ps.drop_last()).push(ps.last())
    } else {
        nonempty(ps.drop_last())
    }
}

/// The modifiers named in `s`: its pieces that are not empty.
pub open spec fn mod_tokens(s: Seq<char>) -> Seq<Seq<char>> {
    nonempty(mod_pieces(s))
}

/// The modifiers named in `s` (see [`mod_tokens`]).
pub fn split_mods(s: &[char]) -> (r: Vec<String>)
    ensures
        string_views(r@) == mod_tokens(s@),
{
    let mut done: Vec<String> = Vec::new();
    let mut cur: Vec<char> = Vec::new();
    let mut i: usize = 0;
    assert(s@.take(0) =~= seq![]);
    while i < s.len()
        invariant
            i <= s.len(),
            mod_pieces(s@.take(i as int)).len() >= 1,
            string_views(done@) == nonempty(mod_pieces(s@.take(i as int)).drop_last()),
            cur@ == mod_pieces(s@.take(i as int)).last(),
        decreases s.len() - i,
    {
        let ghost ps = mod_pieces(s@.take(i as int));
        assert(s@.take(i + 1).drop_last() =~= s@.take(i as int));
        assert(s@.take(i + 1).last() == s[i as int]);
        let c = s[i];
        if c == ',' || c == ' ' || c == '+' {
            let ghost nps = mod_pieces(s@.take(i + 1));
            assert(nps == ps.push(seq![]));
            assert(nps.drop_last() =~= ps);
            assert(ps.drop_last().push(ps.last()) =~= ps);
            if cur.len() > 0 {
                let ghost before = string_views(done@);
                let t = crate::text::string_from_chars(cur.as_slice());
                done.push(t);
                assert(string_views(done@) =~= before.push(cur@));
            }
            cur = Vec::new();
        } else {
            let ghost nps = mod_pieces(s@.take(i + 1));
            assert(nps == ps.drop_last().push(ps.last().push(c)));
            assert(nps.drop_last() =~= ps.drop_last());
            cur.push(c);
        }
        i = i + 1;
    }
    assert(s@.take(s.len() as int) =~= s@);
    let ghost ps = mod_pieces(s@);
    assert(ps.drop_last().push(ps.last()) =~= ps);
    if cur.len() > 0 {
        let ghost before = string_views(done@);
        let t = crate::text::string_from_chars(cur.as_slice());
        done.push(t);
        assert(string_views(done@) =~= before.push(cur@));
    }
    done
}

/// The modifiers of a shortcut added with the text `raw`: those it names
/// once trimmed, or `Super` alone when it names none.
pub open spec fn chosen_mods(raw: Seq<char>) -> Seq<Seq<char>> {
    let t = mod_tokens(trimmed(raw));
    if t.len() == 0 {
        seq!["Super"@]
    } else {
        t
    }
}

/// The id of a custom shortcut: `custom_`, its modifiers joined with `_`,
/// then `_` and its key.
pub open spec fn custom_id(mods: Seq<Seq<char>>, key: Seq<char>) -> Seq<char> {
    "custom_"@ + joined(mods, "_"@) + "_"@ + key
}

/// The shortcut that the add form makes from its four fields, or `None`
/// when the name, the key or the command is blank once trimmed (the form
/// then adds nothing). The shortcut is custom, in the category `Custom`.
pub fn new_custom_shortcut(name: &str, mods: &str, key: &str, command: &str) -> (r: Option<
    KeyboardShortcut,
>)
    ensures
        r is None <==> (trimmed(name@).len() == 0 || trimmed(key@).len() == 0 || trimmed(
            command@,
        ).len() == 0),
        r matches Some(s) ==> {
            &&& s@.name == trimmed(name@)
            &&& s@.key == trimmed(key@)
            &&& s@.command == trimmed(command@)
            &&& s@.mods == chosen_mods(mods@)
            &&& s@.id == custom_id(chosen_mods(mods@), trimmed(key@))
            &&& s@.category == "Custom"@
            &&& s@.is_custom
        },
{
    let nc = to_chars(name);
    let kc = to_chars(key);
    let mc = to_chars(mods);
    let cc = to_chars(command);
    let n = trim(nc.as_slice());
    let k = trim(kc.as_slice());
    let m = trim(mc.as_slice());
    let c = trim(cc.as_slice());
    if n.len() == 0 || k.len() == 0 || c.len() == 0 {
        return None;
    }
    let mut ms = split_mods(m);
    if ms.len() == 0 {
        ms.push(String::from_str("Super"));
        assert(string_views(ms@) =~= seq!["Super"@]);
    }
    let key_text = crate::text::string_from_chars(k);
    let mut id = String::from_str("custom_");
    let joined_mods = join_strings(&ms, "_");
    id.append(joined_mods.as_str());
    id.append("_");
    id.append(key_text.as_str());
    Some(
        KeyboardShortcut {
            id,
            name: crate::text::string_from_chars(n),
            mods: ms,
            key: key_text,
            command: crate::text::string_from_chars(c),
            category: String::from_str("Custom"),
            is_custom: true,
        },
    )
}

} // verus!
