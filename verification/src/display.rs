//! The Display page: which display is selected, how a dragged display snaps
//! next to the others, and the resolutions offered.

use vstd::prelude::*;
use crate::text::{has_prefix, holds_string, split_char, split_on, starts_with, str_eq, string_from_chars, string_views, to_chars, trim, trimmed, views, lemma_split_on_nonempty, join3};

verus! {

/// The display the page shows the settings of: the one selected, while it
/// is still connected, else the first one.
pub open spec fn selected_of(selected: Option<Seq<char>>, names: Seq<Seq<char>>) -> Option<Seq<char>> {
    match selected {
        Some(s) => if names.contains(s) {
            Some(s)
        } else if names.len() > 0 {
            Some(names[0])
        } else {
            None
        },
        None => if names.len() > 0 {
            Some(names[0])
        } else {
            None
        },
    }
}

/// The display to show (see [`selected_of`]).
pub fn selected_display(selected: Option<&str>, names: &Vec<String>) -> (r: Option<String>)
    ensures
        crate::text::opt_text(r) == selected_of(
            match selected {
                Some(s) => Some(s@),
                None => None,
            },
            string_views(names@),
        ),
{
    if let Some(s) = selected {
        if holds_string(names, s) {
            return Some(String::from_str(s));
        }
    }
    if names.len() > 0 {
        assert(string_views(names@)[0] == names@[0]@);
        Some(names[0].clone())
    } else {
        None
    }
}

/// Index of the first name equal to `s`, or the length when none is.
pub open spec fn position_of(names: Seq<Seq<char>>, s: Seq<char>) -> nat
    decreases names.len(),
{
    if names.len() == 0 {
        0
    } else if names[0] == s {
        0
    } else {
        1 + position_of(names.drop_first(), s)
    }
}

fn find_name(names: &Vec<String>, s: &str) -> (r: usize)
    ensures
        r == position_of(string_views(names@), s@),
        r <= names@.len(),
{
    let ghost v = string_views(names@);
    let mut i: usize = 0;
    assert(v.skip(0) =~= v);
    while i < names.len()
        invariant
            i <= names.len(),
            v == string_views(names@),
            position_of(v, s@) == i + position_of(v.skip(i as int), s@),
        decreases names.len() - i,
    {
        assert(v.skip(i as int)[0] == names@[i as int]@);
        if str_eq(names[i].as_str(), s) {
            return i;
        }
        assert(v.skip(i as int).drop_first() =~= v.skip(i + 1));
        i = i + 1;
    }
    i
}

/// The places to swap when a display is dropped onto another: the first
/// display named `from` and the first named `to`, when both are connected.
pub fn swap_places(names: &Vec<String>, from: &str, to: &str) -> (r: Option<(usize, usize)>)
    ensures
        r matches Some((a, b)) ==> a == position_of(string_views(names@), from@) && b == position_of(
            string_views(names@),
            to@,
        ) && a < names@.len() && b < names@.len(),
        r is None ==> position_of(string_views(names@), from@) >= names@.len() || position_of(
            string_views(names@),
            to@,
        ) >= names@.len(),
{
    let a = find_name(names, from);
    let b = find_name(names, to);
    if a < names.len() && b < names.len() {
        Some((a, b))
    } else {
        None
    }
}

/// A display as the arrangement places it, in logical pixels.
pub struct DisplayPlace {
    pub name: String,
    pub x: i32,
    pub y: i32,
    pub width: i32,
    pub height: i32,
}

/// The view of a [`DisplayPlace`].
pub struct PlaceView {
    pub name: Seq<char>,
    pub x: int,
    pub y: int,
    pub width: int,
    pub height: int,
}

impl View for DisplayPlace {
    type V = PlaceView;

    open spec fn view(&self) -> PlaceView {
        PlaceView { name: self.name@, x: self.x as int, y: self.y as int, width: self.width as int, height: self.height as int }
    }
}

/// The places where a display `w` by `h` may sit next to `d`: right of it,
/// left of it, below it and above it, edges touching.
pub open spec fn touching(d: PlaceView, w: int, h: int) -> Seq<(int, int)> {
    seq![(d.x + d.width, d.y), (d.x - w, d.y), (d.x, d.y + d.height), (d.x, d.y - h)]
}

/// The places next to every display but the one named `name`, display by
/// display.
pub open spec fn snap_candidates(ds: Seq<PlaceView>, name: Seq<char>, w: int, h: int) -> Seq<(int, int)>
    decreases ds.len(),
{
    if ds.len() == 0 {
        seq![]
    } else if ds.last().name == name {
        snap_candidates(ds.drop_last(), name, w, h)
    } else {
        snap_candidates(ds.drop_last(), name, w, h) + touching(ds.last(), w, h)
    }
}

/// The square of the distance from `(x, y)` to `c`.
pub open spec fn dist2(x: int, y: int, c: (int, int)) -> int {
    (x - c.0) * (x - c.0) + (y - c.1) * (y - c.1)
}

/// The nearest of the places `cs` to `(x, y)`, with its distance; the first
/// of equally near ones.
pub open spec fn nearest(cs: Seq<(int, int)>, x: int, y: int) -> Option<(int, (int, int))>
    decreases cs.len(),
{
    if cs.len() == 0 {
        None
    } else {
        let prev = nearest(cs.drop_last(), x, y);
        let d = dist2(x, y, cs.last());
        if prev is None || d < (prev->0).0 {
            Some((d, cs.last()))
        } else {
            prev
        }
    }
}

/// `v` kept within `lo..=hi`.
pub open spec fn clamped(v: int, lo: int, hi: int) -> int {
    if v < lo {
        lo
    } else if v > hi {
        hi
    } else {
        v
    }
}

/// Where a display named `name`, `w` by `h`, dropped at `(x, y)` among the
/// displays `ds`, ends up: at the nearest place next to another display
/// (when there is more than one display; where it was dropped when none
/// is next to it), at the origin when it is the only display, kept within
/// ±3000 across and ±2000 down.
pub open spec fn snapped(ds: Seq<PlaceView>, name: Seq<char>, x: int, y: int, w: int, h: int) -> (int, int) {
    let best = if ds.len() > 1 {
        nearest(snap_candidates(ds, name, w, h), x, y)
    } else {
        None
    };
    let p = match best {
        Some((_, c)) => c,
        None => if ds.len() > 1 {
            (x, y)
        } else {
            (0, 0)
        },
    };
    (clamped(p.0, -3000, 3000), clamped(p.1, -2000, 2000))
}

fn clamp_i64(v: i64, lo: i64, hi: i64) -> (r: i32)
    requires
        lo <= hi,
        i32::MIN <= lo,
        hi <= i32::MAX,
    ensures
        r as int == clamped(v as int, lo as int, hi as int),
{
    if v < lo {
        lo as i32
    } else if v > hi {
        hi as i32
    } else {
        v as i32
    }
}

/// Where a dragged display ends up (see [`snapped`]). The arithmetic is
/// exact: positions and distances are computed in wider integers.
pub fn snap_position(ds: &Vec<DisplayPlace>, name: &str, x: i32, y: i32, w: i32, h: i32) -> (r: (i32, i32))
    ensures
        (r.0 as int, r.1 as int) == snapped(
            ds@.map_values(|d: DisplayPlace| d@),
            name@,
            x as int,
            y as int,
            w as int,
            h as int,
        ),
{
    let ghost all = ds@.map_values(|d: DisplayPlace| d@);
    let mut best: Option<(i128, i64, i64)> = None;
    if ds.len() > 1 {
        let mut i: usize = 0;
        while i < ds.len()
            invariant
                i <= ds.len(),
                all == ds@.map_values(|d: DisplayPlace| d@),
                match best {
                    Some((d, bx, by)) => nearest(snap_candidates(all.take(i as int), name@, w as int, h as int), x as int, y as int)
                        == Some((d as int, (bx as int, by as int))),
                    None => nearest(snap_candidates(all.take(i as int), name@, w as int, h as int), x as int, y as int) is None,
                },
            decreases ds.len() - i,
        {
            let d = &ds[i];
            assert(all.take(i + 1).drop_last() =~= all.take(i as int));
            assert(all.take(i + 1).last() == d@);
            if !str_eq(d.name.as_str(), name) {
                let ghost prev_cs = snap_candidates(all.take(i as int), name@, w as int, h as int);
                let cands: [(i64, i64); 4] = [
                    (d.x as i64 + d.width as i64, d.y as i64),
                    (d.x as i64 - w as i64, d.y as i64),
                    (d.x as i64, d.y as i64 + d.height as i64),
                    (d.x as i64, d.y as i64 - h as i64),
                ];
                let ghost tc = touching(d@, w as int, h as int);
                let mut k: usize = 0;
                while k < 4
                    invariant
                        k <= 4,
                        cands@.len() == 4,
                        forall|j: int| 0 <= j < 4 ==> (cands@[j].0 as int, cands@[j].1 as int) == tc[j],
                        forall|j: int|
                            0 <= j < 4 ==> -0x1_0000_0000i64 <= #[trigger] cands@[j].0 <= 0x1_0000_0000i64
                                && -0x1_0000_0000i64 <= cands@[j].1 <= 0x1_0000_0000i64,
                        tc.len() == 4,
                        match best {
                            Some((dd, bx, by)) => nearest(prev_cs + tc.take(k as int), x as int, y as int) == Some(
                                (dd as int, (bx as int, by as int)),
                            ),
                            None => nearest(prev_cs + tc.take(k as int), x as int, y as int) is None,
                        },
                    decreases 4 - k,
                {
                    let (cx, cy) = cands[k];
                    let dx = x as i128 - cx as i128;
                    let dy = y as i128 - cy as i128;
                    assert(-0x2_0000_0000i128 <= dx <= 0x2_0000_0000i128);
                    assert(-0x2_0000_0000i128 <= dy <= 0x2_0000_0000i128);
                    assert(dx * dx <= 0x4_0000_0000_0000_0000i128) by (nonlinear_arith)
                        requires
                            -0x2_0000_0000i128 <= dx <= 0x2_0000_0000i128,
                    ;
                    assert(dy * dy <= 0x4_0000_0000_0000_0000i128) by (nonlinear_arith)
                        requires
                            -0x2_0000_0000i128 <= dy <= 0x2_0000_0000i128,
                    ;
                    assert(0 <= dx * dx) by (nonlinear_arith);
                    assert(0 <= dy * dy) by (nonlinear_arith);
                    let dist = dx * dx + dy * dy;
                    let ghost seen = prev_cs + tc.take(k as int);
                    assert(prev_cs + tc.take(k + 1) =~= seen.push(tc[k as int]));
                    assert(seen.push(tc[k as int]).drop_last() =~= seen);
                    let closer = match best {
                        Some((bd, _, _)) => dist < bd,
                        None => true,
                    };
                    if closer {
                        best = Some((dist, cx, cy));
                    }
                    k = k + 1;
                }
                assert(tc.take(4) =~= tc);
            }
            i = i + 1;
        }
        assert(all.take(ds.len() as int) =~= all);
    }
    let (px, py): (i64, i64) = match best {
        Some((_, bx, by)) => (bx, by),
        None => if ds.len() > 1 {
            (x as i64, y as i64)
        } else {
            (0, 0)
        },
    };
    (clamp_i64(px, -3000, 3000), clamp_i64(py, -2000, 2000))
}

/// The resolution part of a mode such as `2560x1440@144.00Hz`: before the
/// first `@`, trimmed.
pub open spec fn mode_resolution(m: Seq<char>) -> Seq<char> {
    trimmed(split_on(m, '@')[0])
}

/// The distinct resolutions of some modes, in the order they first appear.
pub open spec fn distinct_resolutions(ms: Seq<Seq<char>>) -> Seq<Seq<char>>
    decreases ms.len(),
{
    if ms.len() == 0 {
        seq![]
    } else {
        let prev = distinct_resolutions(ms.drop_last());
        let r = mode_resolution(ms.last());
        if r.len() > 0 && !prev.contains(r) {
            prev.push(r)
        } else {
            prev
        }
    }
}

/// The resolutions offered when a display lists no modes.
pub open spec fn fallback_resolutions() -> Seq<Seq<char>> {
    seq!["1920x1080"@, "1600x900"@, "1280x1024"@, "1280x720"@]
}

/// The resolutions the page offers for a display with the modes `modes`:
/// the first five distinct ones (see [`distinct_resolutions`]), or the
/// fallback list when there are none.
pub fn offered_resolutions(modes: &Vec<String>) -> (r: Vec<String>)
    ensures
        string_views(r@) == if distinct_resolutions(string_views(modes@)).len() > 0 {
            distinct_resolutions(string_views(modes@)).take(
                if distinct_resolutions(string_views(modes@)).len() < 5 {
                    distinct_resolutions(string_views(modes@)).len() as int
                } else {
                    5
                },
            )
        } else {
            fallback_resolutions()
        },
{
    let ghost ms = string_views(modes@);
    let mut r: Vec<String> = Vec::new();
    let mut i: usize = 0;
    while i < modes.len()
        invariant
            i <= modes.len(),
            ms == string_views(modes@),
            string_views(r@) == distinct_resolutions(ms.take(i as int)),
        decreases modes.len() - i,
    {
        let c = to_chars(modes[i].as_str());
        assert(ms.take(i + 1).drop_last() =~= ms.take(i as int));
        assert(ms.take(i + 1).last() == c@);
        let parts = split_char(c.as_slice(), '@');
        proof {
            lemma_split_on_nonempty(c@, '@');
        }
        assert(views(parts@)[0] == parts@[0]@);
        let res = trim(parts[0]);
        if res.len() > 0 {
            let s = string_from_chars(res);
            if !holds_string(&r, s.as_str()) {
                let ghost before = string_views(r@);
                r.push(s);
                assert(string_views(r@) =~= before.push(res@));
            }
        }
        i = i + 1;
    }
    assert(ms.take(modes.len() as int) =~= ms);
    if r.len() == 0 {
        let v: Vec<String> = vec![
            String::from_str("1920x1080"),
            String::from_str("1600x900"),
            String::from_str("1280x1024"),
            String::from_str("1280x720"),
        ];
        assert(string_views(v@) =~= fallback_resolutions());
        return v;
    }
    let ghost all = string_views(r@);
    let n: usize = if r.len() < 5 { r.len() } else { 5 };
    let mut out: Vec<String> = Vec::new();
    let mut j: usize = 0;
    while j < n
        invariant
            j <= n,
            n <= r.len(),
            all == string_views(r@),
            string_views(out@) == all.take(j as int),
        decreases n - j,
    {
        let ghost before = string_views(out@);
        out.push(r[j].clone());
        assert(all[j as int] == r@[j as int]@);
        assert(string_views(out@) =~= before.push(all[j as int]));
        assert(all.take(j + 1) =~= all.take(j as int).push(all[j as int]));
        j = j + 1;
    }
    out
}

/// A resolution as the page labels it: each `x` shown as ` × `.
pub open spec fn resolution_label(r: Seq<char>) -> Seq<char>
    decreases r.len(),
{
    if r.len() == 0 {
        seq![]
    } else {
        resolution_label(r.drop_last()) + if r.last() == 'x' {
            " × "@
        } else {
            seq![r.last()]
        }
    }
}

/// Labels a resolution (see [`resolution_label`]).
pub fn label_resolution(r: &str) -> (l: String)
    ensures
        l@ == resolution_label(r@),
{
    let c = to_chars(r);
    let mut out = String::new();
    let mut i: usize = 0;
    while i < c.len()
        invariant
            i <= c.len(),
            out@ == resolution_label(c@.take(i as int)),
        decreases c.len() - i,
    {
        assert(c@.take(i + 1).drop_last() =~= c@.take(i as int));
        if c[i] == 'x' {
            out.append(" × ");
        } else {
            let one: Vec<char> = vec![c[i]];
            let s = string_from_chars(one.as_slice());
            assert(s@ =~= seq![c@[i as int]]);
            out.append(s.as_str());
        }
        i = i + 1;
    }
    assert(c@.take(c.len() as int) =~= c@);
    out
}

/// The first mode of `modes` that begins with `res`, if any.
pub open spec fn first_mode_with(modes: Seq<Seq<char>>, res: Seq<char>) -> Option<Seq<char>>
    decreases modes.len(),
{
    if modes.len() == 0 {
        None
    } else if has_prefix(modes[0], res) {
        Some(modes[0])
    } else {
        first_mode_with(modes.drop_first(), res)
    }
}

/// The mode to ask for when the resolution `res` is chosen: the first mode
/// that begins with it, else the resolution itself.
pub fn mode_for(modes: &Vec<String>, res: &str) -> (r: String)
    ensures
        r@ == match first_mode_with(string_views(modes@), res@) {
            Some(m) => m,
            None => res@,
        },
{
    let ghost ms = string_views(modes@);
    let rc = to_chars(res);
    let mut i: usize = 0;
    assert(ms.skip(0) =~= ms);
    while i < modes.len()
        invariant
            i <= modes.len(),
            ms == string_views(modes@),
            rc@ == res@,
            first_mode_with(ms, res@) == first_mode_with(ms.skip(i as int), res@),
        decreases modes.len() - i,
    {
        let c = to_chars(modes[i].as_str());
        assert(ms.skip(i as int)[0] == c@);
        if starts_with(c.as_slice(), rc.as_slice()) {
            return modes[i].clone();
        }
        assert(ms.skip(i as int).drop_first() =~= ms.skip(i + 1));
        i = i + 1;
    }
    String::from_str(res)
}

/// The heading of the selected display: its description with its name in
/// brackets, or its name alone when it has no description.
pub fn display_heading(description: &str, name: &str) -> (r: String)
    ensures
        r@ == if description@.len() > 0 {
            description@ + " ("@ + name@ + ")"@
        } else {
            name@
        },
{
    if !description.is_empty() {
        let mut s = join3(description, " (", name);
        s.append(")");
        s
    } else {
        String::from_str(name)
    }
}

} // verus!
