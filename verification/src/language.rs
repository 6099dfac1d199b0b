//! The Language & Region page: the locale, keyboard layout and installed
//! locales, read from what `locale`, `localectl` and `date` report.

use vstd::prelude::*;
use crate::about::{nonblank, nonblank_output, opt_str};
use crate::text::{
    contains, contains_str, eq_chars, has_prefix, lines, split_char, split_lines, split_on, split_ws, strip_leading,
    strip_prefix, strip_trailing, string_from_chars, string_views, to_chars, trim, trim_char, trimmed, views, words,
    lemma_split_on_nonempty, join3, to_lowercase, unicode_lower,
};

verus! {

/// The name the page shows for a locale code such as `en_US.UTF-8`: looked
/// up by the code before its first `.`.
pub open spec fn friendly_name(code: Seq<char>) -> Seq<char> {
    let clean = split_on(code, '.')[0];
    if clean == "en_US"@ {
        "English (United States)"@
    } else if clean == "en_GB"@ {
        "English (United Kingdom)"@
    } else if clean == "en_AU"@ {
        "English (Australia)"@
    } else if clean == "en_CA"@ {
        "English (Canada)"@
    } else if clean == "es_ES"@ {
        "Spanish (Spain)"@
    } else if clean == "es_MX"@ {
        "Spanish (Mexico)"@
    } else if clean == "fr_FR"@ {
        "French (France)"@
    } else if clean == "fr_CA"@ {
        "French (Canada)"@
    } else if clean == "de_DE"@ {
        "German (Germany)"@
    } else if clean == "it_IT"@ {
        "Italian (Italy)"@
    } else if clean == "pt_BR"@ {
        "Portuguese (Brazil)"@
    } else if clean == "pt_PT"@ {
        "Portuguese (Portugal)"@
    } else if clean == "ja_JP"@ {
        "Japanese (Japan)"@
    } else if clean == "zh_CN"@ {
        "Chinese (Simplified)"@
    } else if clean == "zh_TW"@ {
        "Chinese (Traditional)"@
    } else if clean == "ko_KR"@ {
        "Korean (South Korea)"@
    } else if clean == "ru_RU"@ {
        "Russian (Russia)"@
    } else if clean == "nl_NL"@ {
        "Dutch (Netherlands)"@
    } else if clean == "sv_SE"@ {
        "Swedish (Sweden)"@
    } else if clean == "pl_PL"@ {
        "Polish (Poland)"@
    } else if clean == "C"@ || clean == "POSIX"@ {
        "POSIX / C (System Default)"@
    } else if clean.len() == 0 {
        "English (United States)"@
    } else {
        "Locale ("@ + clean + ")"@
    }
}

/// Whether `s` holds exactly the characters of `t`.
pub fn chars_are(s: &[char], t: &str) -> (r: bool)
    ensures
        r == (s@ == t@),
{
    let v = to_chars(t);
    eq_chars(s, v.as_slice())
}

/// The name the page shows for a locale code (see [`friendly_name`]).
pub fn locale_code_to_friendly_name(code: &str) -> (r: String)
    ensures
        r@ == friendly_name(code@),
{
    let c = to_chars(code);
    let pieces = split_char(c.as_slice(), '.');
    proof {
        lemma_split_on_nonempty(code@, '.');
    }
    assert(views(pieces@)[0] == pieces@[0]@);
    let clean = pieces[0];
    if chars_are(clean, "en_US") {
        String::from_str("English (United States)")
    } else if chars_are(clean, "en_GB") {
        String::from_str("English (United Kingdom)")
    } else if chars_are(clean, "en_AU") {
        String::from_str("English (Australia)")
    } else if chars_are(clean, "en_CA") {
        String::from_str("English (Canada)")
    } else if chars_are(clean, "es_ES") {
        String::from_str("Spanish (Spain)")
    } else if chars_are(clean, "es_MX") {
        String::from_str("Spanish (Mexico)")
    } else if chars_are(clean, "fr_FR") {
        String::from_str("French (France)")
    } else if chars_are(clean, "fr_CA") {
        String::from_str("French (Canada)")
    } else if chars_are(clean, "de_DE") {
        String::from_str("German (Germany)")
    } else if chars_are(clean, "it_IT") {
        String::from_str("Italian (Italy)")
    } else if chars_are(clean, "pt_BR") {
        String::from_str("Portuguese (Brazil)")
    } else if chars_are(clean, "pt_PT") {
        String::from_str("Portuguese (Portugal)")
    } else if chars_are(clean, "ja_JP") {
        String::from_str("Japanese (Japan)")
    } else if chars_are(clean, "zh_CN") {
        String::from_str("Chinese (Simplified)")
    } else if chars_are(clean, "zh_TW") {
        String::from_str("Chinese (Traditional)")
    } else if chars_are(clean, "ko_KR") {
        String::from_str("Korean (South Korea)")
    } else if chars_are(clean, "ru_RU") {
        String::from_str("Russian (Russia)")
    } else if chars_are(clean, "nl_NL") {
        String::from_str("Dutch (Netherlands)")
    } else if chars_are(clean, "sv_SE") {
        String::from_str("Swedish (Sweden)")
    } else if chars_are(clean, "pl_PL") {
        String::from_str("Polish (Poland)")
    } else if chars_are(clean, "C") || chars_are(clean, "POSIX") {
        String::from_str("POSIX / C (System Default)")
    } else if clean.len() == 0 {
        String::from_str("English (United States)")
    } else {
        let s = string_from_chars(clean);
        join3("Locale (", s.as_str(), ")")
    }
}

/// A value as `locale` prints it: without the double quotes round it, and
/// trimmed.
pub open spec fn dq_value(s: Seq<char>) -> Seq<char> {
    trimmed(strip_trailing(strip_leading(s, '"'), '"'))
}

fn dq_clean(s: &[char]) -> (r: &[char])
    ensures
        r@ == dq_value(s@),
{
    trim(trim_char(s, '"'))
}

/// What the page reads from `locale`: the language code, the region
/// (time) locale, and whether measurements are in US units.
pub struct LocaleView {
    pub lang: Seq<char>,
    pub region: Seq<char>,
    pub us_units: bool,
}

/// The locale settings after the lines of `locale`, starting from `init`:
/// a non-blank `LANG=` sets the language, a non-blank `LC_TIME=` the region,
/// and an `LC_MEASUREMENT=` that names `US` switches to US units.
pub open spec fn locale_scan(ls: Seq<Seq<char>>, init: LocaleView) -> LocaleView
    decreases ls.len(),
{
    if ls.len() == 0 {
        init
    } else {
        let prev = locale_scan(ls.drop_last(), init);
        let l = trimmed(ls.last());
        if has_prefix(l, "LANG="@) {
            let v = dq_value(l.skip("LANG="@.len() as int));
            if v.len() > 0 {
                LocaleView { lang: v, ..prev }
            } else {
                prev
            }
        } else if has_prefix(l, "LC_TIME="@) {
            let v = dq_value(l.skip("LC_TIME="@.len() as int));
            if v.len() > 0 {
                LocaleView { region: v, ..prev }
            } else {
                prev
            }
        } else if has_prefix(l, "LC_MEASUREMENT="@) {
            let v = dq_value(l.skip("LC_MEASUREMENT="@.len() as int));
            if contains(v, "US"@) || contains(v, "en_US"@) {
                LocaleView { us_units: true, ..prev }
            } else {
                prev
            }
        } else {
            prev
        }
    }
}

/// The language code `LANG=` sets among some words of `localectl`'s
/// `System Locale:` line: the last non-blank one, else `lang`.
pub open spec fn system_lang(ws: Seq<Seq<char>>, lang: Seq<char>) -> Seq<char>
    decreases ws.len(),
{
    if ws.len() == 0 {
        lang
    } else {
        let prev = system_lang(ws.drop_last(), lang);
        let w = ws.last();
        if has_prefix(w, "LANG="@) && dq_value(w.skip("LANG="@.len() as int)).len() > 0 {
            dq_value(w.skip("LANG="@.len() as int))
        } else {
            prev
        }
    }
}

/// The name of a keyboard layout code, or the code itself.
pub open spec fn layout_name(l: Seq<char>) -> Seq<char> {
    if l == "us"@ {
        "English US"@
    } else if l == "gb"@ || l == "uk"@ {
        "English UK"@
    } else if l == "es"@ {
        "Spanish"@
    } else if l == "fr"@ {
        "French"@
    } else if l == "de"@ {
        "German"@
    } else if l == "jp"@ {
        "Japanese"@
    } else {
        l
    }
}

/// What `localectl status` sets: the language code and the keyboard layout
/// as the page shows it (`CODE (NAME)`).
pub open spec fn localectl_scan(ls: Seq<Seq<char>>, lang: Seq<char>, keyboard: Seq<char>) -> (Seq<char>, Seq<char>)
    decreases ls.len(),
{
    if ls.len() == 0 {
        (lang, keyboard)
    } else {
        let prev = localectl_scan(ls.drop_last(), lang, keyboard);
        let l = trimmed(ls.last());
        if has_prefix(l, "System Locale:"@) {
            (system_lang(words(l.skip("System Locale:"@.len() as int)), prev.0), prev.1)
        } else if has_prefix(l, "X11 Layout:"@) && trimmed(l.skip("X11 Layout:"@.len() as int)).len() > 0 {
            let k = trimmed(l.skip("X11 Layout:"@.len() as int));
            (prev.0, k + " ("@ + layout_name(k) + ")"@)
        } else {
            prev
        }
    }
}

/// Reads the output of `locale` over `init` (see [`locale_scan`]).
pub fn read_locale(out: &str, init_lang: String, init_region: String) -> (r: (String, String, bool))
    ensures
        ({
            let v = locale_scan(lines(out@), LocaleView { lang: init_lang@, region: init_region@, us_units: false });
            r.0@ == v.lang && r.1@ == v.region && r.2 == v.us_units
        }),
{
    let c = to_chars(out);
    let ls = split_lines(c.as_slice());
    let ghost all = views(ls@);
    let ghost init = LocaleView { lang: init_lang@, region: init_region@, us_units: false };
    let lang_p = to_chars("LANG=");
    let time_p = to_chars("LC_TIME=");
    let meas_p = to_chars("LC_MEASUREMENT=");
    let us = to_chars("US");
    let en_us = to_chars("en_US");
    let mut lang = init_lang;
    let mut region = init_region;
    let mut us_units = false;
    let mut i: usize = 0;
    while i < ls.len()
        invariant
            i <= ls.len(),
            all == views(ls@),
            all == lines(out@),
            lang_p@ == "LANG="@,
            time_p@ == "LC_TIME="@,
            meas_p@ == "LC_MEASUREMENT="@,
            us@ == "US"@,
            en_us@ == "en_US"@,
            ({
                let v = locale_scan(all.take(i as int), init);
                lang@ == v.lang && region@ == v.region && us_units == v.us_units
            }),
        decreases ls.len() - i,
    {
        let l = trim(ls[i]);
        assert(all.take(i + 1).drop_last() =~= all.take(i as int));
        assert(all.take(i + 1).last() == ls@[i as int]@);
        if let Some(rest) = strip_prefix(l, lang_p.as_slice()) {
            let v = dq_clean(rest);
            if v.len() > 0 {
                lang = string_from_chars(v);
            }
        } else if let Some(rest) = strip_prefix(l, time_p.as_slice()) {
            let v = dq_clean(rest);
            if v.len() > 0 {
                region = string_from_chars(v);
            }
        } else if let Some(rest) = strip_prefix(l, meas_p.as_slice()) {
            let v = dq_clean(rest);
            if contains_str(v, us.as_slice()) || contains_str(v, en_us.as_slice()) {
                us_units = true;
            }
        }
        i = i + 1;
    }
    assert(all.take(ls.len() as int) =~= all);
    (lang, region, us_units)
}

/// The name of a keyboard layout code (see [`layout_name`]).
fn layout_name_of(l: &[char]) -> (r: String)
    ensures
        r@ == layout_name(l@),
{
    if chars_are(l, "us") {
        String::from_str("English US")
    } else if chars_are(l, "gb") || chars_are(l, "uk") {
        String::from_str("English UK")
    } else if chars_are(l, "es") {
        String::from_str("Spanish")
    } else if chars_are(l, "fr") {
        String::from_str("French")
    } else if chars_are(l, "de") {
        String::from_str("German")
    } else if chars_are(l, "jp") {
        String::from_str("Japanese")
    } else {
        string_from_chars(l)
    }
}

/// Reads the output of `localectl status` over the language code `lang` and
/// keyboard layout `keyboard` (see [`localectl_scan`]).
pub fn read_localectl(out: &str, lang: String, keyboard: String) -> (r: (String, String))
    ensures
        r.0@ == localectl_scan(lines(out@), lang@, keyboard@).0,
        r.1@ == localectl_scan(lines(out@), lang@, keyboard@).1,
{
    let c = to_chars(out);
    let ls = split_lines(c.as_slice());
    let ghost all = views(ls@);
    let ghost lang0 = lang@;
    let ghost kb0 = keyboard@;
    let sys_p = to_chars("System Locale:");
    let x11_p = to_chars("X11 Layout:");
    let lang_p = to_chars("LANG=");
    let mut lang = lang;
    let mut keyboard = keyboard;
    let mut i: usize = 0;
    while i < ls.len()
        invariant
            i <= ls.len(),
            all == views(ls@),
            all == lines(out@),
            sys_p@ == "System Locale:"@,
            x11_p@ == "X11 Layout:"@,
            lang_p@ == "LANG="@,
            lang@ == localectl_scan(all.take(i as int), lang0, kb0).0,
            keyboard@ == localectl_scan(all.take(i as int), lang0, kb0).1,
        decreases ls.len() - i,
    {
        let l = trim(ls[i]);
        assert(all.take(i + 1).drop_last() =~= all.take(i as int));
        assert(all.take(i + 1).last() == ls@[i as int]@);
        if let Some(rest) = strip_prefix(l, sys_p.as_slice()) {
            let ws = split_ws(rest);
            let ghost wv = views(ws@);
            let ghost before = lang@;
            let mut j: usize = 0;
            while j < ws.len()
                invariant
                    j <= ws.len(),
                    wv == views(ws@),
                    lang_p@ == "LANG="@,
                    lang@ == system_lang(wv.take(j as int), before),
                decreases ws.len() - j,
            {
                assert(wv.take(j + 1).drop_last() =~= wv.take(j as int));
                assert(wv.take(j + 1).last() == ws@[j as int]@);
                if let Some(v) = strip_prefix(ws[j], lang_p.as_slice()) {
                    let clean = dq_clean(v);
                    if clean.len() > 0 {
                        lang = string_from_chars(clean);
                    }
                }
                j = j + 1;
            }
            assert(wv.take(ws.len() as int) =~= wv);
        } else if let Some(rest) = strip_prefix(l, x11_p.as_slice()) {
            let k = trim(rest);
            if k.len() > 0 {
                let code = string_from_chars(k);
                let name = layout_name_of(k);
                let mut kb = join3(code.as_str(), " (", name.as_str());
                kb.append(")");
                keyboard = kb;
            }
        }
        i = i + 1;
    }
    assert(all.take(ls.len() as int) =~= all);
    (lang, keyboard)
}

/// The locales that `locale -a` lists in some lines: each trimmed line that
/// is not blank, `C` or `POSIX`.
pub open spec fn locales_in(ls: Seq<Seq<char>>) -> Seq<Seq<char>>
    decreases ls.len(),
{
    if ls.len() == 0 {
        seq![]
    } else {
        let t = trimmed(ls.last());
        if t.len() > 0 && t != "C"@ && t != "POSIX"@ {
            locales_in(ls.drop_last()).push(t)
        } else {
            locales_in(ls.drop_last())
        }
    }
}

/// Reads the installed locales from `locale -a` (see [`locales_in`]).
pub fn installed_locales(out: &str) -> (r: Vec<String>)
    ensures
        string_views(r@) == locales_in(lines(out@)),
{
    let c = to_chars(out);
    let ls = split_lines(c.as_slice());
    let ghost all = views(ls@);
    let mut r: Vec<String> = Vec::new();
    let mut i: usize = 0;
    while i < ls.len()
        invariant
            i <= ls.len(),
            all == views(ls@),
            all == lines(out@),
            string_views(r@) == locales_in(all.take(i as int)),
        decreases ls.len() - i,
    {
        let t = trim(ls[i]);
        assert(all.take(i + 1).drop_last() =~= all.take(i as int));
        assert(all.take(i + 1).last() == ls@[i as int]@);
        if t.len() > 0 && !chars_are(t, "C") && !chars_are(t, "POSIX") {
            let ghost before = string_views(r@);
            r.push(string_from_chars(t));
            assert(string_views(r@) =~= before.push(t@));
        }
        i = i + 1;
    }
    assert(all.take(ls.len() as int) =~= all);
    r
}

/// A language in the preferred-languages list.
pub struct LanguageItem {
    pub name: String,
    pub code: String,
    pub is_primary: bool,
}

/// Language, region and format settings, as the page shows them.
pub struct LanguageRegionInfo {
    pub display_language: String,
    pub display_code: String,
    pub region_locale: String,
    pub keyboard_layout: String,
    pub measurement_units: String,
    pub first_day_of_week: String,
    pub number_example: String,
    pub currency_example: String,
    pub date_example: String,
    pub installed_locales: Vec<String>,
    pub preferred_languages: Vec<LanguageItem>,
}

/// The fixed parts of the page: first day, number and currency examples,
/// and the second preferred language.
pub open spec fn fixed_parts(r: LanguageRegionInfo) -> bool {
    &&& r.first_day_of_week@ == "Monday"@
    &&& r.number_example@ == "1,234,567.89"@
    &&& r.currency_example@ == "$1,234.56 USD"@
    &&& r.preferred_languages@.len() == 2
    &&& r.preferred_languages@[0].name@ == r.display_language@
    &&& r.preferred_languages@[0].code@ == r.display_code@
    &&& r.preferred_languages@[0].is_primary
    &&& r.preferred_languages@[1].name@ == "English (United Kingdom)"@
    &&& r.preferred_languages@[1].code@ == "en_GB.UTF-8"@
    &&& !r.preferred_languages@[1].is_primary
}

fn preferred(name: String, code: String) -> (r: Vec<LanguageItem>)
    ensures
        r@.len() == 2,
        r@[0].name == name,
        r@[0].code == code,
        r@[0].is_primary,
        r@[1].name@ == "English (United Kingdom)"@,
        r@[1].code@ == "en_GB.UTF-8"@,
        !r@[1].is_primary,
{
    let mut v = Vec::new();
    v.push(LanguageItem { name, code, is_primary: true });
    v.push(
        LanguageItem {
            name: String::from_str("English (United Kingdom)"),
            code: String::from_str("en_GB.UTF-8"),
            is_primary: false,
        },
    );
    v
}

/// What the page shows at once, before the system has answered: US English
/// throughout, metric units, and no installed locales.
pub fn fast_initial_language_info() -> (r: LanguageRegionInfo)
    ensures
        fixed_parts(r),
        r.display_language@ == "English (United States)"@,
        r.display_code@ == "en_US.UTF-8"@,
        r.region_locale@ == "en_US.UTF-8"@,
        r.keyboard_layout@ == "us (English US)"@,
        r.measurement_units@ == "Metric (Celsius, km)"@,
        r.date_example@ == "Wednesday, September 2, 2026"@,
        r.installed_locales@.len() == 0,
{
    LanguageRegionInfo {
        display_language: String::from_str("English (United States)"),
        display_code: String::from_str("en_US.UTF-8"),
        region_locale: String::from_str("en_US.UTF-8"),
        keyboard_layout: String::from_str("us (English US)"),
        measurement_units: String::from_str("Metric (Celsius, km)"),
        first_day_of_week: String::from_str("Monday"),
        number_example: String::from_str("1,234,567.89"),
        currency_example: String::from_str("$1,234.56 USD"),
        date_example: String::from_str("Wednesday, September 2, 2026"),
        installed_locales: Vec::new(),
        preferred_languages: preferred(String::from_str("English (United States)"), String::from_str("en_US.UTF-8")),
    }
}

/// The locales offered when `locale -a` lists none.
pub open spec fn sample_locales() -> Seq<Seq<char>> {
    seq!["en_US.utf8"@, "en_GB.utf8"@, "es_ES.utf8"@, "de_DE.utf8"@, "fr_FR.utf8"@, "ja_JP.utf8"@]
}

/// The raw answers of the system for the Language & Region page; `None`
/// where a command could not be run.
pub struct LanguageSources<'a> {
    /// Output of `locale`.
    pub locale: Option<&'a str>,
    /// Output of `localectl status`.
    pub localectl: Option<&'a str>,
    /// Output of `date +"%A, %B %d, %Y"`.
    pub date: Option<&'a str>,
    /// Output of `locale -a`.
    pub locale_a: Option<&'a str>,
}

/// The lines of an optional output; none when the command could not be run.
pub open spec fn out_lines(o: Option<&str>) -> Seq<Seq<char>> {
    match o {
        Some(s) => lines(s@),
        None => seq![],
    }
}

/// What `locale` gives over the defaults (US English, metric).
pub open spec fn locale_read(src: LanguageSources) -> LocaleView {
    locale_scan(out_lines(src.locale), LocaleView { lang: "en_US.UTF-8"@, region: "en_US.UTF-8"@, us_units: false })
}

/// The page's language and region settings from the system's answers:
/// `locale`, then `localectl` (which wins for the language), the date
/// sample, and the installed locales (the sample list when none).
pub fn language_info(src: &LanguageSources) -> (r: LanguageRegionInfo)
    ensures
        fixed_parts(r),
        r.display_code@ == localectl_scan(out_lines(src.localectl), locale_read(*src).lang, "us (English US)"@).0,
        r.display_language@ == friendly_name(r.display_code@),
        r.region_locale@ == locale_read(*src).region,
        r.keyboard_layout@ == localectl_scan(out_lines(src.localectl), locale_read(*src).lang, "us (English US)"@).1,
        r.measurement_units@ == if locale_read(*src).us_units {
            "US Customary (Fahrenheit, miles)"@
        } else {
            "Metric (Celsius, km)"@
        },
        r.date_example@ == match nonblank(opt_str(src.date)) {
            Some(d) => d,
            None => "Wednesday, September 2, 2026"@,
        },
        string_views(r.installed_locales@) == if locales_in(out_lines(src.locale_a)).len() > 0 {
            locales_in(out_lines(src.locale_a))
        } else {
            sample_locales()
        },
{
    let (lang, region, us_units) = match src.locale {
        Some(o) => read_locale(o, String::from_str("en_US.UTF-8"), String::from_str("en_US.UTF-8")),
        None => (String::from_str("en_US.UTF-8"), String::from_str("en_US.UTF-8"), false),
    };
    let (lang, keyboard) = match src.localectl {
        Some(o) => read_localectl(o, lang, String::from_str("us (English US)")),
        None => (lang, String::from_str("us (English US)")),
    };
    let date_example = match nonblank_output(src.date) {
        Some(d) => d,
        None => String::from_str("Wednesday, September 2, 2026"),
    };
    let mut installed = match src.locale_a {
        Some(o) => installed_locales(o),
        None => Vec::new(),
    };
    assert(string_views(installed@) =~= locales_in(out_lines(src.locale_a)));
    if installed.len() == 0 {
        installed.push(String::from_str("en_US.utf8"));
        installed.push(String::from_str("en_GB.utf8"));
        installed.push(String::from_str("es_ES.utf8"));
        installed.push(String::from_str("de_DE.utf8"));
        installed.push(String::from_str("fr_FR.utf8"));
        installed.push(String::from_str("ja_JP.utf8"));
        assert(string_views(installed@) =~= sample_locales());
    }
    let display_language = locale_code_to_friendly_name(lang.as_str());
    let measurement_units = if us_units {
        String::from_str("US Customary (Fahrenheit, miles)")
    } else {
        String::from_str("Metric (Celsius, km)")
    };
    let preferred_languages = preferred(display_language.clone(), lang.clone());
    LanguageRegionInfo {
        display_language,
        display_code: lang,
        region_locale: region,
        keyboard_layout: keyboard,
        measurement_units,
        first_day_of_week: String::from_str("Monday"),
        number_example: String::from_str("1,234,567.89"),
        currency_example: String::from_str("$1,234.56 USD"),
        date_example,
        installed_locales: installed,
        preferred_languages,
    }
}

/// Whether the installed locale `code` matches the page's search `q`
/// (trimmed and lower-cased): any locale when `q` is empty, else one whose
/// code or name, lower-cased, contains `q`.
pub open spec fn locale_matches(code: Seq<char>, q: Seq<char>) -> bool {
    q.len() == 0 || contains(unicode_lower(code), q) || contains(unicode_lower(friendly_name(code)), q)
}

/// The installed locales that match `q`, each as its name and code, in the
/// installed order.
pub open spec fn matching_locales_of(codes: Seq<Seq<char>>, q: Seq<char>) -> Seq<(Seq<char>, Seq<char>)>
    decreases codes.len(),
{
    if codes.len() == 0 {
        seq![]
    } else if locale_matches(codes.last(), q) {
        matching_locales_of(codes.drop_last(), q).push((friendly_name(codes.last()), codes.last()))
    } else {
        matching_locales_of(codes.drop_last(), q)
    }
}

/// The views of name and code pairs.
pub open spec fn pair_views(s: Seq<(String, String)>) -> Seq<(Seq<char>, Seq<char>)> {
    s.map_values(|p: (String, String)| (p.0@, p.1@))
}

/// The installed locales that the page lists for the search text `query`
/// (see [`locale_matches`]), each as its name and code.
pub fn matching_locales(installed: &Vec<String>, query: &str) -> (r: Vec<(String, String)>)
    ensures
        pair_views(r@) == matching_locales_of(string_views(installed@), unicode_lower(trimmed(query@))),
{
    let qc0 = to_chars(query);
    let qt = string_from_chars(trim(qc0.as_slice()));
    let ql = to_lowercase(qt.as_str());
    let q = to_chars(ql.as_str());
    let ghost all = string_views(installed@);
    let mut r: Vec<(String, String)> = Vec::new();
    let mut i: usize = 0;
    while i < installed.len()
        invariant
            i <= installed.len(),
            all == string_views(installed@),
            q@ == unicode_lower(trimmed(query@)),
            pair_views(r@) == matching_locales_of(all.take(i as int), q@),
        decreases installed.len() - i,
    {
        let code = &installed[i];
        assert(all.take(i + 1).drop_last() =~= all.take(i as int));
        assert(all.take(i + 1).last() == code@);
        let name = locale_code_to_friendly_name(code.as_str());
        let keep = if q.len() == 0 {
            true
        } else {
            let lc = to_lowercase(code.as_str());
            let lcc = to_chars(lc.as_str());
            let ln = to_lowercase(name.as_str());
            let lnc = to_chars(ln.as_str());
            contains_str(lcc.as_slice(), q.as_slice()) || contains_str(lnc.as_slice(), q.as_slice())
        };
        if keep {
            let ghost before = pair_views(r@);
            r.push((name, code.clone()));
            assert(pair_views(r@) =~= before.push((friendly_name(code@), code@)));
        }
        i = i + 1;
    }
    assert(all.take(installed.len() as int) =~= all);
    r
}

/// Whether `c` is one of the locale codes the page knows by name.
pub open spec fn known_locale(c: Seq<char>) -> bool {
    c == "en_US"@ ||
        c == "en_GB"@ ||
        c == "en_AU"@ ||
        c == "en_CA"@ ||
        c == "es_ES"@ ||
        c == "es_MX"@ ||
        c == "fr_FR"@ ||
        c == "fr_CA"@ ||
        c == "de_DE"@ ||
        c == "it_IT"@ ||
        c == "pt_BR"@ ||
        c == "pt_PT"@ ||
        c == "ja_JP"@ ||
        c == "zh_CN"@ ||
        c == "zh_TW"@ ||
        c == "ko_KR"@ ||
        c == "ru_RU"@ ||
        c == "nl_NL"@ ||
        c == "sv_SE"@ ||
        c == "pl_PL"@ ||
        c == "POSIX"@
}

/// Two different known locale codes are shown under different names.
#[verifier::rlimit(100)]
pub proof fn law_known_locales_named_apart(a: Seq<char>, b: Seq<char>)
    requires
        known_locale(split_on(a, '.')[0]),
        known_locale(split_on(b, '.')[0]),
        split_on(a, '.')[0] != split_on(b, '.')[0],
    ensures
        friendly_name(a) != friendly_name(b),
{
    reveal_strlit("C");
    reveal_strlit("Chinese (Simplified)");
    reveal_strlit("Chinese (Traditional)");
    reveal_strlit("Dutch (Netherlands)");
    reveal_strlit("English (Australia)");
    reveal_strlit("English (Canada)");
    reveal_strlit("English (United Kingdom)");
    reveal_strlit("English (United States)");
    reveal_strlit("French (Canada)");
    reveal_strlit("French (France)");
    reveal_strlit("German (Germany)");
    reveal_strlit("Italian (Italy)");
    reveal_strlit("Japanese (Japan)");
    reveal_strlit("Korean (South Korea)");
    reveal_strlit("POSIX");
    reveal_strlit("POSIX / C (System Default)");
    reveal_strlit("Polish (Poland)");
    reveal_strlit("Portuguese (Brazil)");
    reveal_strlit("Portuguese (Portugal)");
    reveal_strlit("Russian (Russia)");
    reveal_strlit("Spanish (Mexico)");
    reveal_strlit("Spanish (Spain)");
    reveal_strlit("Swedish (Sweden)");
    reveal_strlit("de_DE");
    reveal_strlit("en_AU");
    reveal_strlit("en_CA");
    reveal_strlit("en_GB");
    reveal_strlit("en_US");
    reveal_strlit("es_ES");
    reveal_strlit("es_MX");
    reveal_strlit("fr_CA");
    reveal_strlit("fr_FR");
    reveal_strlit("it_IT");
    reveal_strlit("ja_JP");
    reveal_strlit("ko_KR");
    reveal_strlit("nl_NL");
    reveal_strlit("pl_PL");
    reveal_strlit("pt_BR");
    reveal_strlit("pt_PT");
    reveal_strlit("ru_RU");
    reveal_strlit("sv_SE");
    reveal_strlit("zh_CN");
    reveal_strlit("zh_TW");
    let ca = split_on(a, '.')[0];
    let cb = split_on(b, '.')[0];
    assert(ca.len() == 5 ==> ca[0] == ca[0] && ca[1] == ca[1] && ca[3] == ca[3] && ca[4] == ca[4]);
    assert(cb.len() == 5 ==> cb[0] == cb[0] && cb[1] == cb[1] && cb[3] == cb[3] && cb[4] == cb[4]);
    let na = friendly_name(a);
    let nb = friendly_name(b);
    if na == nb {
        assert(na.len() == nb.len() && na[0] == nb[0] && na[9] == nb[9]);
        if ca.len() == 5 && cb.len() == 5 {
            assert(ca[0] != cb[0] || ca[1] != cb[1] || ca[3] != cb[3] || ca[4] != cb[4]) by {
                if ca[0] == cb[0] && ca[1] == cb[1] && ca[3] == cb[3] && ca[4] == cb[4] {
                    assert(ca[2] == '_' && cb[2] == '_');
                    assert(ca =~= cb);
                }
            }
        }
    }
}

} // verus!
