//! The About page: host name, OS version, kernel, uptime, architecture and
//! memory, read from what `hostname`, `/etc/os-release`, `uname`, `uptime`
//! and `free` give.

use vstd::prelude::*;
use crate::text::{decimal, has_prefix, lines, split_lines, split_ws, string_from_chars, strip_leading, strip_leading_text, strip_prefix, strip_trailing, to_chars, trim, trim_char, trim_start_text, trimmed, u64_text, views, words, contains, contains_str};

verus! {

/// System and device specifications.
pub struct AboutInfo {
    pub os_version: String,
    pub hostname: String,
    pub kernel: String,
    pub uptime: String,
    pub architecture: String,
    pub memory: String,
}

/// The view of an [`AboutInfo`].
pub struct AboutView {
    pub os_version: Seq<char>,
    pub hostname: Seq<char>,
    pub kernel: Seq<char>,
    pub uptime: Seq<char>,
    pub architecture: Seq<char>,
    pub memory: Seq<char>,
}

impl View for AboutInfo {
    type V = AboutView;

    open spec fn view(&self) -> AboutView {
        AboutView {
            os_version: self.os_version@,
            hostname: self.hostname@,
            kernel: self.kernel@,
            uptime: self.uptime@,
            architecture: self.architecture@,
            memory: self.memory@,
        }
    }
}

impl AboutInfo {
    /// What the page shows before the system has answered.
    pub fn default() -> (r: AboutInfo)
        ensures
            r@ == (AboutView {
                os_version: "Finick OS (Linux)"@,
                hostname: "finick-station"@,
                kernel: "Linux 6.12.0"@,
                uptime: "Unknown"@,
                architecture: "x86_64"@,
                memory: "Unknown"@,
            }),
    {
        AboutInfo {
            os_version: String::from_str("Finick OS (Linux)"),
            hostname: String::from_str("finick-station"),
            kernel: String::from_str("Linux 6.12.0"),
            uptime: String::from_str("Unknown"),
            architecture: String::from_str("x86_64"),
            memory: String::from_str("Unknown"),
        }
    }
}

/// The contents of an optional text.
pub open spec fn opt_str(o: Option<&str>) -> Option<Seq<char>> {
    match o {
        Some(s) => Some(s@),
        None => None,
    }
}

/// What a command printed, trimmed, when it printed something besides
/// whitespace; `out` is `None` when the command failed.
pub open spec fn nonblank(out: Option<Seq<char>>) -> Option<Seq<char>> {
    match out {
        Some(o) => if trimmed(o).len() > 0 {
            Some(trimmed(o))
        } else {
            None
        },
        None => None,
    }
}

/// Executable form of [`nonblank`].
pub fn nonblank_output(out: Option<&str>) -> (r: Option<String>)
    ensures
        r matches Some(s) ==> nonblank(opt_str(out)) == Some(s@),
        r is None ==> nonblank(opt_str(out)) is None,
{
    match out {
        Some(o) => {
            let c = to_chars(o);
            let t = trim(c.as_slice());
            if t.len() > 0 {
                Some(string_from_chars(t))
            } else {
                None
            }
        },
        None => None,
    }
}

/// The host name: what `hostname` printed, else the contents of
/// `/etc/hostname` (trimmed), else `finick-station`.
pub open spec fn hostname_of(cmd: Option<Seq<char>>, file: Option<Seq<char>>) -> Seq<char> {
    match nonblank(cmd) {
        Some(h) => h,
        None => match file {
            Some(f) => trimmed(f),
            None => "finick-station"@,
        },
    }
}

/// The host name from the output of `hostname` and the contents of
/// `/etc/hostname` (see [`hostname_of`]).
pub fn hostname_text(cmd: Option<&str>, file: Option<&str>) -> (r: String)
    ensures
        r@ == hostname_of(opt_str(cmd), opt_str(file)),
{
    match nonblank_output(cmd) {
        Some(h) => h,
        None => match file {
            Some(f) => {
                let c = to_chars(f);
                string_from_chars(trim(c.as_slice()))
            },
            None => String::from_str("finick-station"),
        },
    }
}

/// The first of some lines that begins with `p`.
pub open spec fn first_line_with(ls: Seq<Seq<char>>, p: Seq<char>) -> Option<Seq<char>>
    decreases ls.len(),
{
    if ls.len() == 0 {
        None
    } else if has_prefix(ls[0], p) {
        Some(ls[0])
    } else {
        first_line_with(ls.drop_first(), p)
    }
}

/// The value of the `os-release` field `key` (with its `=`): the first line
/// that begins with it, without the key, the quotes round it and
/// surrounding whitespace.
pub open spec fn release_field(content: Seq<char>, key: Seq<char>) -> Option<Seq<char>> {
    match first_line_with(lines(content), key) {
        Some(l) => Some(trimmed(strip_trailing(strip_leading(strip_leading_text(l, key), '"'), '"'))),
        None => None,
    }
}

/// Reads the field `key` of `os-release` contents (see [`release_field`]).
fn release_field_of(content: &[char], key: &str) -> (r: Option<Vec<char>>)
    ensures
        r matches Some(v) ==> release_field(content@, key@) == Some(v@),
        r is None ==> release_field(content@, key@) is None,
{
    let k = to_chars(key);
    let ls = split_lines(content);
    let ghost all = views(ls@);
    let mut i: usize = 0;
    assert(all.skip(0) =~= all);
    while i < ls.len()
        invariant
            i <= ls.len(),
            all == views(ls@),
            all == lines(content@),
            k@ == key@,
            first_line_with(all, k@) == first_line_with(all.skip(i as int), k@),
        decreases ls.len() - i,
    {
        assert(all.skip(i as int)[0] == ls@[i as int]@);
        if strip_prefix(ls[i], k.as_slice()).is_some() {
            let rest = trim_start_text(ls[i], k.as_slice());
            let unq = trim_char(rest, '"');
            let t = trim(unq);
            let mut v: Vec<char> = Vec::new();
            let mut j: usize = 0;
            while j < t.len()
                invariant
                    j <= t.len(),
                    v@ == t@.take(j as int),
                decreases t.len() - j,
            {
                v.push(t[j]);
                assert(t@.take(j + 1) =~= t@.take(j as int).push(t@[j as int]));
                j = j + 1;
            }
            assert(t@.take(t.len() as int) =~= t@);
            return Some(v);
        }
        assert(all.skip(i as int).drop_first() =~= all.skip(i + 1));
        i = i + 1;
    }
    None
}

/// The OS version that `os-release` contents name: the pretty name, with
/// the version in brackets after it unless it already holds it; the version
/// alone as `Finick OS VERSION`; nothing when it names neither.
pub open spec fn release_version(content: Seq<char>) -> Option<Seq<char>> {
    let pretty = release_field(content, "PRETTY_NAME="@);
    let version = release_field(content, "VERSION="@);
    match pretty {
        Some(p) => match version {
            Some(v) => if !contains(p, v) {
                Some(p + " ("@ + v + ")"@)
            } else {
                Some(p)
            },
            None => Some(p),
        },
        None => match version {
            Some(v) => Some("Finick OS "@ + v),
            None => None,
        },
    }
}

/// The OS version: from `/etc/os-release` (see [`release_version`]), else
/// from what `uname -o` printed, else `Finick OS 1.0 (Rolling)`.
pub open spec fn os_version_of(release: Option<Seq<char>>, uname_o: Option<Seq<char>>) -> Seq<char> {
    let from_release = match release {
        Some(c) => release_version(c),
        None => None,
    };
    match from_release {
        Some(v) => v,
        None => match nonblank(uname_o) {
            Some(s) => "Finick OS ("@ + s + ")"@,
            None => "Finick OS 1.0 (Rolling)"@,
        },
    }
}

/// The OS version from the contents of `/etc/os-release` and the output of
/// `uname -o` (see [`os_version_of`]).
pub fn os_version_text(release: Option<&str>, uname_o: Option<&str>) -> (r: String)
    ensures
        r@ == os_version_of(opt_str(release), opt_str(uname_o)),
{
    if let Some(content) = release {
        let c = to_chars(content);
        let pretty = release_field_of(c.as_slice(), "PRETTY_NAME=");
        let version = release_field_of(c.as_slice(), "VERSION=");
        match (pretty, version) {
            (Some(p), Some(v)) => {
                let mut s = string_from_chars(p.as_slice());
                if !contains_str(p.as_slice(), v.as_slice()) {
                    s.append(" (");
                    let vs = string_from_chars(v.as_slice());
                    s.append(vs.as_str());
                    s.append(")");
                }
                return s;
            },
            (Some(p), None) => {
                return string_from_chars(p.as_slice());
            },
            (None, Some(v)) => {
                let mut s = String::from_str("Finick OS ");
                let vs = string_from_chars(v.as_slice());
                s.append(vs.as_str());
                return s;
            },
            (None, None) => {},
        }
    }
    match nonblank_output(uname_o) {
        Some(u) => {
            let mut s = String::from_str("Finick OS (");
            s.append(u.as_str());
            s.append(")");
            s
        },
        None => String::from_str("Finick OS 1.0 (Rolling)"),
    }
}

/// The kernel: what `uname -s -r` printed, else `Linux`.
pub fn kernel_text(out: Option<&str>) -> (r: String)
    ensures
        r@ == match nonblank(opt_str(out)) {
            Some(k) => k,
            None => "Linux"@,
        },
{
    match nonblank_output(out) {
        Some(k) => k,
        None => String::from_str("Linux"),
    }
}

/// The architecture: what `uname -m` printed, else `x86_64`.
pub fn architecture_text(out: Option<&str>) -> (r: String)
    ensures
        r@ == match nonblank(opt_str(out)) {
            Some(a) => a,
            None => "x86_64"@,
        },
{
    match nonblank_output(out) {
        Some(a) => a,
        None => String::from_str("x86_64"),
    }
}

/// The uptime that `uptime -p` printed, without its `up `, when something
/// is left.
pub open spec fn pretty_uptime(out: Seq<char>) -> Option<Seq<char>> {
    let s = trimmed(out);
    let clean = trimmed(
        if has_prefix(s, "up "@) {
            s.skip("up "@.len() as int)
        } else {
            s
        },
    );
    if clean.len() > 0 {
        Some(clean)
    } else {
        None
    }
}

/// An uptime of `total` seconds in words: days, hours and minutes, leaving
/// out leading zero units (minutes are always given).
pub open spec fn uptime_words(total: nat) -> Seq<char> {
    let days = total / 86400;
    let hours = (total % 86400) / 3600;
    let mins = (total % 3600) / 60;
    if days > 0 {
        decimal(days) + " days, "@ + decimal(hours) + " hours, "@ + decimal(mins) + " mins"@
    } else if hours > 0 {
        decimal(hours) + " hours, "@ + decimal(mins) + " mins"@
    } else {
        decimal(mins) + " mins"@
    }
}

/// An uptime of `total` seconds in words (see [`uptime_words`]).
pub fn uptime_from_secs(total: u64) -> (r: String)
    ensures
        r@ == uptime_words(total as nat),
{
    let days = total / 86400;
    let hours = (total % 86400) / 3600;
    let mins = (total % 3600) / 60;
    if days > 0 {
        let mut s = u64_text(days);
        s.append(" days, ");
        let h = u64_text(hours);
        s.append(h.as_str());
        s.append(" hours, ");
        let m = u64_text(mins);
        s.append(m.as_str());
        s.append(" mins");
        s
    } else if hours > 0 {
        let mut s = u64_text(hours);
        s.append(" hours, ");
        let m = u64_text(mins);
        s.append(m.as_str());
        s.append(" mins");
        s
    } else {
        let mut s = u64_text(mins);
        s.append(" mins");
        s
    }
}

/// The uptime: what `uptime -p` printed (see [`pretty_uptime`]), else the
/// seconds of `/proc/uptime` in words, else `Unknown`.
pub fn uptime_text(pretty: Option<&str>, secs: Option<u64>) -> (r: String)
    ensures
        r@ == match (
            match opt_str(pretty) {
                Some(p) => pretty_uptime(p),
                None => None,
            }
        ) {
            Some(u) => u,
            None => match secs {
                Some(t) => uptime_words(t as nat),
                None => "Unknown"@,
            },
        },
{
    if let Some(p) = pretty {
        let c = to_chars(p);
        let s = trim(c.as_slice());
        let up = to_chars("up ");
        let rest = match strip_prefix(s, up.as_slice()) {
            Some(r) => r,
            None => s,
        };
        let clean = trim(rest);
        if clean.len() > 0 {
            return string_from_chars(clean);
        }
    }
    match secs {
        Some(t) => uptime_from_secs(t),
        None => String::from_str("Unknown"),
    }
}

/// The memory that `free -h` printed: the second field of its second line,
/// followed by ` RAM`.
pub open spec fn memory_of(out: Seq<char>) -> Option<Seq<char>> {
    let ls = lines(out);
    if ls.len() >= 2 && words(ls[1]).len() >= 2 {
        Some(words(ls[1])[1] + " RAM"@)
    } else {
        None
    }
}

/// The memory from the output of `free -h` (see [`memory_of`]), else
/// `Unknown`.
pub fn memory_text(out: Option<&str>) -> (r: String)
    ensures
        r@ == match opt_str(out) {
            Some(o) => match memory_of(o) {
                Some(m) => m,
                None => "Unknown"@,
            },
            None => "Unknown"@,
        },
{
    if let Some(o) = out {
        let c = to_chars(o);
        let ls = split_lines(c.as_slice());
        if ls.len() >= 2 {
            assert(views(ls@)[1] == ls@[1]@);
            let w = split_ws(ls[1]);
            if w.len() >= 2 {
                assert(views(w@)[1] == w@[1]@);
                let mut s = string_from_chars(w[1]);
                s.append(" RAM");
                return s;
            }
        }
    }
    String::from_str("Unknown")
}

/// The raw answers of the system for the About page; `None` where a command
/// failed or a file could not be read.
pub struct AboutSources<'a> {
    /// Output of `hostname`.
    pub hostname: Option<&'a str>,
    /// Contents of `/etc/hostname`.
    pub hostname_file: Option<&'a str>,
    /// Contents of `/etc/os-release`.
    pub os_release: Option<&'a str>,
    /// Output of `uname -o`.
    pub uname_o: Option<&'a str>,
    /// Output of `uname -s -r`.
    pub uname_sr: Option<&'a str>,
    /// Output of `uptime -p`.
    pub uptime_p: Option<&'a str>,
    /// Whole seconds of `/proc/uptime`.
    pub uptime_secs: Option<u64>,
    /// Output of `uname -m`.
    pub uname_m: Option<&'a str>,
    /// Output of `free -h`.
    pub free_h: Option<&'a str>,
}

/// The About page's information from the system's answers.
pub fn about_info(src: &AboutSources) -> (r: AboutInfo)
    ensures
        r@.hostname == hostname_of(opt_str(src.hostname), opt_str(src.hostname_file)),
        r@.os_version == os_version_of(opt_str(src.os_release), opt_str(src.uname_o)),
        r@.kernel == match nonblank(opt_str(src.uname_sr)) {
            Some(k) => k,
            None => "Linux"@,
        },
        r@.uptime == match (
            match opt_str(src.uptime_p) {
                Some(p) => pretty_uptime(p),
                None => None,
            }
        ) {
            Some(u) => u,
            None => match src.uptime_secs {
                Some(t) => uptime_words(t as nat),
                None => "Unknown"@,
            },
        },
        r@.architecture == match nonblank(opt_str(src.uname_m)) {
            Some(a) => a,
            None => "x86_64"@,
        },
        r@.memory == match opt_str(src.free_h) {
            Some(o) => match memory_of(o) {
                Some(m) => m,
                None => "Unknown"@,
            },
            None => "Unknown"@,
        },
{
    AboutInfo {
        os_version: os_version_text(src.os_release, src.uname_o),
        hostname: hostname_text(src.hostname, src.hostname_file),
        kernel: kernel_text(src.uname_sr),
        uptime: uptime_text(src.uptime_p, src.uptime_secs),
        architecture: architecture_text(src.uname_m),
        memory: memory_text(src.free_h),
    }
}

} // verus!
