//! Decisions of the `finickctl` command line tool: accent colours, window
//! borders, setting arguments and notification messages.

use vstd::prelude::*;
use crate::text::{
    all_hex_digits, ascii_upper, ascii_uppercase, eq_chars, has_prefix, index_of, is_hex_digit,
    lemma_index_of, parse_u32, parse_unsigned, starts_with, string_from_chars, strip_leading,
    to_chars, to_lowercase, trim, trim_start_char, trimmed, trimmed_start, unicode_lower,
};

verus! {

/// The hex colour (six or eight upper case hex digits, no `#`) that an
/// accent name in lower case stands for; unknown names give Indigo.
pub open spec fn accent_hex_of_lower(l: Seq<char>) -> Seq<char> {
    if l == "indigo"@ {
        "5B5FE9"@
    } else if l == "coral"@ {
        "FF6952"@
    } else if l == "amber"@ {
        "E3A23D"@
    } else if l == "teal"@ {
        "2CA6A0"@
    } else if l == "rose"@ {
        "E85A88"@
    } else if l == "slate"@ {
        "7B7F87"@
    } else if (l.len() == 6 || l.len() == 8) && (forall|i: int| 0 <= i < l.len() ==> is_hex_digit(l[i])) {
        l.map_values(|c: char| ascii_upper(c))
    } else {
        "5B5FE9"@
    }
}

/// Whether `c` is a digit or an upper case hex letter.
pub open spec fn is_upper_hex(c: char) -> bool {
    ('0' <= c && c <= '9') || ('A' <= c && c <= 'F')
}

/// A colour of an accent is six or eight upper case hex digits; it is its
/// own cleaned text, it is ASCII, and looking its ASCII lower case up again
/// gives it back. So an accent's colour, given again as an accent, gives
/// the same colour.
pub proof fn law_accent_hex_stable(l: Seq<char>)
    ensures
        ({
            let h = accent_hex_of_lower(l);
            &&& h.len() == 6 || h.len() == 8
            &&& forall|i: int| 0 <= i < h.len() ==> is_upper_hex(#[trigger] h[i])
            &&& accent_clean(h) == h
            &&& crate::text::all_ascii(h)
            &&& accent_hex_of_lower(h.map_values(|c: char| crate::text::ascii_lower(c))) == h
        }),
{
    reveal_strlit("indigo");
    reveal_strlit("coral");
    reveal_strlit("amber");
    reveal_strlit("teal");
    reveal_strlit("rose");
    reveal_strlit("slate");
    reveal_strlit("5B5FE9");
    reveal_strlit("FF6952");
    reveal_strlit("E3A23D");
    reveal_strlit("2CA6A0");
    reveal_strlit("E85A88");
    reveal_strlit("7B7F87");
    let h = accent_hex_of_lower(l);
    if l != "indigo"@ && l != "coral"@ && l != "amber"@ && l != "teal"@ && l != "rose"@ && l != "slate"@
        && (l.len() == 6 || l.len() == 8) && (forall|i: int| 0 <= i < l.len() ==> is_hex_digit(l[i])) {
        assert forall|i: int| 0 <= i < h.len() implies is_upper_hex(#[trigger] h[i]) by {
            assert(is_hex_digit(l[i]));
            assert(h[i] == ascii_upper(l[i]));
        }
    }
    lemma_upper_hex_stable(h);
}

proof fn lemma_upper_hex_stable(h: Seq<char>)
    requires
        h.len() == 6 || h.len() == 8,
        forall|i: int| 0 <= i < h.len() ==> is_upper_hex(#[trigger] h[i]),
    ensures
        accent_clean(h) == h,
        crate::text::all_ascii(h),
        accent_hex_of_lower(h.map_values(|c: char| crate::text::ascii_lower(c))) == h,
{
    reveal_strlit("indigo");
    reveal_strlit("coral");
    reveal_strlit("amber");
    reveal_strlit("teal");
    reveal_strlit("rose");
    reveal_strlit("slate");
    assert(is_upper_hex(h[0]) && is_upper_hex(h[h.len() - 1]));
    assert(trimmed_start(h) == h);
    assert(crate::text::trimmed_end(h) == h);
    assert(trimmed(h) == h);
    assert(strip_leading(h, '#') == h);
    assert forall|i: int| 0 <= i < h.len() implies (#[trigger] h[i] as u32) < 128 by {
        assert(is_upper_hex(h[i]));
    }
    let lo = h.map_values(|c: char| crate::text::ascii_lower(c));
    assert forall|i: int| 0 <= i < lo.len() implies is_hex_digit(#[trigger] lo[i]) && ascii_upper(lo[i]) == h[i] by {
        assert(is_upper_hex(h[i]));
        assert(lo[i] == crate::text::ascii_lower(h[i]));
    }
    assert(lo != "indigo"@) by {
        if lo == "indigo"@ {
            assert(lo[0] == 'i');
            assert(is_hex_digit(lo[0]));
        }
    }
    assert(lo.map_values(|c: char| ascii_upper(c)) =~= h);
}

/// The accent text as it is looked up: trimmed, and without leading `#`.
pub open spec fn accent_clean(s: Seq<char>) -> Seq<char> {
    strip_leading(trimmed(s), '#')
}

/// The hex colour of an accent given in lower case (see [`accent_hex_of_lower`]).
pub fn accent_hex_from_lower(lower: &str) -> (r: String)
    ensures
        r@ == accent_hex_of_lower(lower@),
{
    let l = to_chars(lower);
    if eq_chars(l.as_slice(), to_chars("indigo").as_slice()) {
        return String::from_str("5B5FE9");
    }
    if eq_chars(l.as_slice(), to_chars("coral").as_slice()) {
        return String::from_str("FF6952");
    }
    if eq_chars(l.as_slice(), to_chars("amber").as_slice()) {
        return String::from_str("E3A23D");
    }
    if eq_chars(l.as_slice(), to_chars("teal").as_slice()) {
        return String::from_str("2CA6A0");
    }
    if eq_chars(l.as_slice(), to_chars("rose").as_slice()) {
        return String::from_str("E85A88");
    }
    if eq_chars(l.as_slice(), to_chars("slate").as_slice()) {
        return String::from_str("7B7F87");
    }
    if (l.len() == 6 || l.len() == 8) && all_hex_digits(l.as_slice()) {
        let u = ascii_uppercase(l.as_slice());
        string_from_chars(u.as_slice())
    } else {
        String::from_str("5B5FE9")
    }
}

/// The hex colour (no `#`) of an accent name such as `Teal` or a hex colour
/// such as `#5b5fe9`: the text is trimmed, leading `#` removed and put in
/// Unicode lower case before it is looked up.
pub fn accent_to_hex(s: &str) -> (r: String)
    ensures
        r@ == accent_hex_of_lower(unicode_lower(accent_clean(s@))),
        r@.len() == 6 || r@.len() == 8,
        forall|i: int| 0 <= i < r@.len() ==> is_upper_hex(#[trigger] r@[i]),
        accent_hex_of_lower(accent_clean(r@).map_values(|c: char| crate::text::ascii_lower(c))) == r@,
{
    proof {
        law_accent_hex_stable(unicode_lower(accent_clean(s@)));
    }
    let v = to_chars(s);
    let t = trim(v.as_slice());
    let clean = trim_start_char(t, '#');
    let clean_s = string_from_chars(clean);
    let lower = to_lowercase(clean_s.as_str());
    accent_hex_from_lower(lower.as_str())
}

} // verus!

verus! {

/// The Hyprland border colour for a hex colour: `0xff` followed by the hex digits.
pub fn hypr_border_color(hex: &str) -> (r: String)
    ensures
        r@ == "0xff"@ + hex@,
{
    let mut r = String::from_str("0xff");
    r.append(hex);
    r
}

/// What `finickctl border VALUE` applies.
pub enum BorderPlan {
    /// A border width in pixels.
    Size(u32),
    /// A border colour in Hyprland syntax.
    Color(String),
}

/// The colour that a border value that is no number stands for: the value
/// itself when it is already in Hyprland syntax (`0x…` or `rgb…`), else the
/// `0xff`-prefixed hex of the accent it names.
pub open spec fn border_color_of(val: Seq<char>) -> Seq<char> {
    if has_prefix(val, "0x"@) || has_prefix(val, "rgb"@) {
        val
    } else {
        "0xff"@ + accent_hex_of_lower(unicode_lower(accent_clean(val)))
    }
}

/// Decides what `finickctl border VALUE` applies: a width when the value
/// parses as a `u32`, else a colour.
pub fn border_plan(val: &str) -> (r: BorderPlan)
    ensures
        parse_unsigned(val@, u32::MAX as nat) matches Some(n) ==> r == BorderPlan::Size(n as u32),
        parse_unsigned(val@, u32::MAX as nat) is None ==> (r matches BorderPlan::Color(c) && c@
            == border_color_of(val@)),
{
    let v = to_chars(val);
    match parse_u32(v.as_slice()) {
        Some(n) => BorderPlan::Size(n),
        None => {
            let hex = accent_to_hex(val);
            if starts_with(v.as_slice(), to_chars("0x").as_slice()) || starts_with(
                v.as_slice(),
                to_chars("rgb").as_slice(),
            ) {
                BorderPlan::Color(String::from_str(val))
            } else {
                BorderPlan::Color(hypr_border_color(hex.as_str()))
            }
        },
    }
}

/// What `finickctl settings DATA` asks for.
pub enum SettingsArg {
    /// `key=value`: set a setting. `key` and `value` are trimmed; the raw
    /// parts are kept for the confirmation message.
    Assign { key: String, value: String, raw_key: String, raw_value: String },
    /// `key`: read a setting.
    Query { key: String },
}

/// Splits `DATA` at its first `=`, as `str::split_once('=')` does.
pub fn settings_arg(data: &str) -> (r: SettingsArg)
    ensures
        index_of(data@, '=') < data@.len() ==> {
            let i = index_of(data@, '=');
            r matches SettingsArg::Assign { key, value, raw_key, raw_value } && raw_key@ == data@.take(
                i as int,
            ) && raw_value@ == data@.skip(i + 1 as int) && key@ == trimmed(data@.take(i as int)) && value@
                == trimmed(data@.skip(i + 1 as int))
        },
        index_of(data@, '=') >= data@.len() ==> (r matches SettingsArg::Query { key } && key@ == trimmed(data@)),
{
    let v = to_chars(data);
    let mut i: usize = 0;
    while i < v.len() && v[i] != '='
        invariant
            i <= v.len(),
            forall|j: int| 0 <= j < i ==> v@[j] != '=',
        decreases v.len() - i,
    {
        i = i + 1;
    }
    proof {
        lemma_index_of(v@, '=', i as int);
    }
    if i < v.len() {
        let k = vstd::slice::slice_subrange(v.as_slice(), 0, i);
        let val = vstd::slice::slice_subrange(v.as_slice(), i + 1, v.len());
        assert(k@ =~= data@.take(i as int));
        assert(val@ =~= data@.skip(i + 1 as int));
        SettingsArg::Assign {
            key: string_from_chars(trim(k)),
            value: string_from_chars(trim(val)),
            raw_key: string_from_chars(k),
            raw_value: string_from_chars(val),
        }
    } else {
        SettingsArg::Query { key: string_from_chars(trim(v.as_slice())) }
    }
}

/// The summary and body of `finickctl notify MSG`: the text before the first
/// `|` and the text after it (empty when there is no `|`).
pub fn notify_parts(msg: &str) -> (r: (String, String))
    ensures
        index_of(msg@, '|') < msg@.len() ==> r.0@ == msg@.take(index_of(msg@, '|') as int) && r.1@
            == msg@.skip(index_of(msg@, '|') + 1 as int),
        index_of(msg@, '|') >= msg@.len() ==> r.0@ == msg@ && r.1@ == Seq::<char>::empty(),
{
    let v = to_chars(msg);
    let mut i: usize = 0;
    while i < v.len() && v[i] != '|'
        invariant
            i <= v.len(),
            forall|j: int| 0 <= j < i ==> v@[j] != '|',
        decreases v.len() - i,
    {
        i = i + 1;
    }
    proof {
        lemma_index_of(v@, '|', i as int);
    }
    if i < v.len() {
        let a = vstd::slice::slice_subrange(v.as_slice(), 0, i);
        let b = vstd::slice::slice_subrange(v.as_slice(), i + 1, v.len());
        assert(a@ =~= msg@.take(i as int));
        assert(b@ =~= msg@.skip(i + 1));
        (string_from_chars(a), string_from_chars(b))
    } else {
        (string_from_chars(v.as_slice()), String::new())
    }
}

/// The marker that `finickctl index` prints before a search hit: `/` for a
/// directory, `@` for a desktop entry, `*` for an executable, else nothing.
pub fn search_marker(is_dir: bool, is_desktop: bool, is_executable: bool) -> (r: &'static str)
    ensures
        r@ == if is_dir {
            "/"@
        } else if is_desktop {
            "@"@
        } else if is_executable {
            "*"@
        } else {
            ""@
        },
{
    if is_dir {
        "/"
    } else if is_desktop {
        "@"
    } else if is_executable {
        "*"
    } else {
        ""
    }
}

} // verus!
