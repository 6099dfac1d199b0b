//! The Date & Time page: date, times, time zone and clock synchronisation,
//! read from what `date` and `timedatectl` report.

use vstd::prelude::*;
use crate::about::{nonblank, nonblank_output, opt_str};
use crate::text::{
    eq_ignore_ascii_case, eq_ignore_case, has_prefix, lines, split_lines, strip_prefix, string_from_chars, to_chars,
    trim, trimmed, views,
};

verus! {

/// Date and time settings, as the page shows them.
pub struct DateTimeInfo {
    pub date: String,
    pub time_12: String,
    pub time_24: String,
    pub timezone: String,
    pub universal_time: String,
    pub rtc_time: String,
    pub ntp_synced: bool,
}

/// What `timedatectl` reports that the page shows.
pub struct ClockView {
    pub timezone: Seq<char>,
    pub universal_time: Seq<char>,
    pub rtc_time: Seq<char>,
    pub ntp_synced: bool,
}

/// The clock settings after the lines of `timedatectl`, starting from
/// `init`: `Time zone:`, `Universal time:` and `RTC time:` set their fields
/// (trimmed); `System clock synchronized:` sets the synchronisation by
/// whether it says `yes`; `NTP service:` says so by `active`, but only while
/// the clock is not yet known to be synchronised.
pub open spec fn clock_scan(ls: Seq<Seq<char>>, init: ClockView) -> ClockView
    decreases ls.len(),
{
    if ls.len() == 0 {
        init
    } else {
        let prev = clock_scan(ls.drop_last(), init);
        let l = trimmed(ls.last());
        if has_prefix(l, "Time zone:"@) {
            ClockView { timezone: trimmed(l.skip("Time zone:"@.len() as int)), ..prev }
        } else if has_prefix(l, "Universal time:"@) {
            ClockView { universal_time: trimmed(l.skip("Universal time:"@.len() as int)), ..prev }
        } else if has_prefix(l, "RTC time:"@) {
            ClockView { rtc_time: trimmed(l.skip("RTC time:"@.len() as int)), ..prev }
        } else if has_prefix(l, "System clock synchronized:"@) {
            ClockView {
                ntp_synced: eq_ignore_case(trimmed(l.skip("System clock synchronized:"@.len() as int)), "yes"@),
                ..prev
            }
        } else if has_prefix(l, "NTP service:"@) && !prev.ntp_synced {
            ClockView {
                ntp_synced: eq_ignore_case(trimmed(l.skip("NTP service:"@.len() as int)), "active"@),
                ..prev
            }
        } else {
            prev
        }
    }
}

/// The view of the clock fields of a [`DateTimeInfo`].
pub open spec fn clock_of(d: DateTimeInfo) -> ClockView {
    ClockView {
        timezone: d.timezone@,
        universal_time: d.universal_time@,
        rtc_time: d.rtc_time@,
        ntp_synced: d.ntp_synced,
    }
}

/// Reads the output of `timedatectl` into `info` (see [`clock_scan`]).
pub fn read_timedatectl(info: &mut DateTimeInfo, out: &str)
    ensures
        clock_of(*final(info)) == clock_scan(lines(out@), clock_of(*old(info))),
        final(info).date == old(info).date,
        final(info).time_12 == old(info).time_12,
        final(info).time_24 == old(info).time_24,
{
    let c = to_chars(out);
    let ls = split_lines(c.as_slice());
    let ghost all = views(ls@);
    let ghost init = clock_of(*info);
    let ghost date = info.date;
    let ghost t12 = info.time_12;
    let ghost t24 = info.time_24;
    let tz = to_chars("Time zone:");
    let ut = to_chars("Universal time:");
    let rtc = to_chars("RTC time:");
    let sync = to_chars("System clock synchronized:");
    let ntp = to_chars("NTP service:");
    let yes = to_chars("yes");
    let active = to_chars("active");
    let mut i: usize = 0;
    while i < ls.len()
        invariant
            i <= ls.len(),
            all == views(ls@),
            all == lines(out@),
            tz@ == "Time zone:"@,
            ut@ == "Universal time:"@,
            rtc@ == "RTC time:"@,
            sync@ == "System clock synchronized:"@,
            ntp@ == "NTP service:"@,
            yes@ == "yes"@,
            active@ == "active"@,
            clock_of(*info) == clock_scan(all.take(i as int), init),
            info.date == date,
            info.time_12 == t12,
            info.time_24 == t24,
        decreases ls.len() - i,
    {
        let l = trim(ls[i]);
        assert(all.take(i + 1).drop_last() =~= all.take(i as int));
        assert(all.take(i + 1).last() == ls@[i as int]@);
        if let Some(rest) = strip_prefix(l, tz.as_slice()) {
            info.timezone = string_from_chars(trim(rest));
        } else if let Some(rest) = strip_prefix(l, ut.as_slice()) {
            info.universal_time = string_from_chars(trim(rest));
        } else if let Some(rest) = strip_prefix(l, rtc.as_slice()) {
            info.rtc_time = string_from_chars(trim(rest));
        } else if let Some(rest) = strip_prefix(l, sync.as_slice()) {
            info.ntp_synced = eq_ignore_ascii_case(trim(rest), yes.as_slice());
        } else if let Some(rest) = strip_prefix(l, ntp.as_slice()) {
            if !info.ntp_synced {
                info.ntp_synced = eq_ignore_ascii_case(trim(rest), active.as_slice());
            }
        }
        i = i + 1;
    }
    assert(all.take(ls.len() as int) =~= all);
}

/// Whether the page asks `date` for the zone offset: the time zone is
/// unknown or `UTC`.
pub open spec fn needs_zone_offset(tz: Seq<char>) -> bool {
    tz == "UTC"@ || tz.len() == 0
}

/// Decides [`needs_zone_offset`].
pub fn zone_offset_wanted(tz: &str) -> (r: bool)
    ensures
        r == needs_zone_offset(tz@),
{
    let c = to_chars(tz);
    let u = to_chars("UTC");
    crate::text::eq_chars(c.as_slice(), u.as_slice()) || c.len() == 0
}

/// The raw answers of the system for the Date & Time page; `None` where a
/// command could not be run (or, for the zone offset, was not asked).
pub struct DateTimeSources<'a> {
    /// Output of `date +"%A, %B %d, %Y"`.
    pub date: Option<&'a str>,
    /// Output of `date +%H:%M:%S`.
    pub time_24: Option<&'a str>,
    /// Output of `date +"%I:%M:%S %p"`.
    pub time_12: Option<&'a str>,
    /// Output of `timedatectl`.
    pub timedatectl: Option<&'a str>,
    /// Output of `date +"%:z (%Z)"`.
    pub zone_offset: Option<&'a str>,
}

/// The clock settings before `timedatectl` answers.
pub open spec fn clock_defaults() -> ClockView {
    ClockView { timezone: "UTC"@, universal_time: "Unknown"@, rtc_time: "Unknown"@, ntp_synced: false }
}

/// The clock settings after `timedatectl`.
pub open spec fn clock_reported(src: DateTimeSources) -> ClockView {
    match src.timedatectl {
        Some(o) => clock_scan(lines(o@), clock_defaults()),
        None => clock_defaults(),
    }
}

/// The page's date and time settings from the system's answers: each `date`
/// output that is not blank replaces its default; `timedatectl` sets the
/// clock fields (see [`clock_scan`]); and when the time zone is then unknown
/// or `UTC` (see [`needs_zone_offset`]), a zone offset that is not blank
/// replaces it.
pub fn date_time_info(src: &DateTimeSources) -> (r: DateTimeInfo)
    ensures
        r.date@ == match nonblank(opt_str(src.date)) {
            Some(d) => d,
            None => "Unknown Date"@,
        },
        r.time_24@ == match nonblank(opt_str(src.time_24)) {
            Some(t) => t,
            None => "12:00:00"@,
        },
        r.time_12@ == match nonblank(opt_str(src.time_12)) {
            Some(t) => t,
            None => "12:00:00 PM"@,
        },
        r.universal_time@ == clock_reported(*src).universal_time,
        r.rtc_time@ == clock_reported(*src).rtc_time,
        r.ntp_synced == clock_reported(*src).ntp_synced,
        r.timezone@ == if needs_zone_offset(clock_reported(*src).timezone) && nonblank(opt_str(src.zone_offset)) is Some {
            nonblank(opt_str(src.zone_offset))->0
        } else {
            clock_reported(*src).timezone
        },
{
    let mut info = DateTimeInfo {
        date: String::from_str("Unknown Date"),
        time_12: String::from_str("12:00:00 PM"),
        time_24: String::from_str("12:00:00"),
        timezone: String::from_str("UTC"),
        universal_time: String::from_str("Unknown"),
        rtc_time: String::from_str("Unknown"),
        ntp_synced: false,
    };
    if let Some(d) = nonblank_output(src.date) {
        info.date = d;
    }
    if let Some(t) = nonblank_output(src.time_24) {
        info.time_24 = t;
    }
    if let Some(t) = nonblank_output(src.time_12) {
        info.time_12 = t;
    }
    assert(clock_of(info) == clock_defaults());
    if let Some(o) = src.timedatectl {
        read_timedatectl(&mut info, o);
    }
    if zone_offset_wanted(info.timezone.as_str()) {
        if let Some(z) = nonblank_output(src.zone_offset) {
            info.timezone = z;
        }
    }
    info
}

/// The time the page shows: the 24-hour reading or the 12-hour one.
pub fn shown_time(info: &DateTimeInfo, use_24h: bool) -> (r: &str)
    ensures
        r@ == if use_24h {
            info.time_24@
        } else {
            info.time_12@
        },
{
    if use_24h {
        info.time_24.as_str()
    } else {
        info.time_12.as_str()
    }
}

/// The synchronisation line of the page.
pub fn sync_text(ntp: bool) -> (r: &'static str)
    ensures
        r@ == if ntp {
            "Clock synchronized via Network Time Protocol (NTP)"@
        } else {
            "Clock running locally (Not NTP synchronized)"@
        },
{
    if ntp {
        "Clock synchronized via Network Time Protocol (NTP)"
    } else {
        "Clock running locally (Not NTP synchronized)"
    }
}

/// What the automatic-time switch does when flipped while `auto_sync`: the
/// new setting, and the value handed to `timedatectl set-ntp` for it.
pub fn ntp_switch(auto_sync: bool) -> (r: (bool, &'static str))
    ensures
        r.0 == !auto_sync,
        r.1@ == if !auto_sync {
            "true"@
        } else {
            "false"@
        },
{
    let next = !auto_sync;
    (next, if next { "true" } else { "false" })
}

/// A line of `timedatectl` that begins with `NTP service:` (once trimmed)
/// begins with none of the other labels the page reads.
proof fn lemma_ntp_label_alone(l: Seq<char>)
    requires
        has_prefix(l, "NTP service:"@),
    ensures
        !has_prefix(l, "Time zone:"@),
        !has_prefix(l, "Universal time:"@),
        !has_prefix(l, "RTC time:"@),
        !has_prefix(l, "System clock synchronized:"@),
{
    reveal_strlit("NTP service:");
    reveal_strlit("Time zone:");
    reveal_strlit("Universal time:");
    reveal_strlit("RTC time:");
    reveal_strlit("System clock synchronized:");
    assert(l[0] == l.take(12)[0]);
    assert(l.take(12)[0] == 'N');
    if has_prefix(l, "Time zone:"@) {
        assert(l.take(10)[0] == l[0]);
    }
    if has_prefix(l, "Universal time:"@) {
        assert(l.take(15)[0] == l[0]);
    }
    if has_prefix(l, "RTC time:"@) {
        assert(l.take(9)[0] == l[0]);
    }
    if has_prefix(l, "System clock synchronized:"@) {
        assert(l.take(26)[0] == l[0]);
    }
}

/// An `NTP service:` line turns the synchronisation on exactly when its
/// value, trimmed, is `active` up to ASCII case, and never turns it off; it
/// changes nothing else. So `NTP service: inactive` leaves an unsynchronised
/// clock unsynchronised.
pub proof fn law_ntp_service_line(ls: Seq<Seq<char>>, init: ClockView, l: Seq<char>)
    requires
        has_prefix(trimmed(l), "NTP service:"@),
    ensures
        clock_scan(ls.push(l), init).ntp_synced == (clock_scan(ls, init).ntp_synced || eq_ignore_case(
            trimmed(trimmed(l).skip(12)),
            "active"@,
        )),
        clock_scan(ls.push(l), init).timezone == clock_scan(ls, init).timezone,
        clock_scan(ls.push(l), init).universal_time == clock_scan(ls, init).universal_time,
        clock_scan(ls.push(l), init).rtc_time == clock_scan(ls, init).rtc_time,
{
    reveal_strlit("NTP service:");
    lemma_ntp_label_alone(trimmed(l));
    assert(ls.push(l).drop_last() =~= ls);
    assert(ls.push(l).last() == l);
}

/// Whether a line of `timedatectl` says the clock is synchronised: a
/// `System clock synchronized:` line saying `yes`, or an `NTP service:`
/// line saying `active` (trimmed, up to ASCII case).
pub open spec fn says_synced(l: Seq<char>) -> bool {
    let t = trimmed(l);
    ||| has_prefix(t, "System clock synchronized:"@) && eq_ignore_case(
        trimmed(t.skip("System clock synchronized:"@.len() as int)),
        "yes"@,
    )
    ||| has_prefix(t, "NTP service:"@) && eq_ignore_case(trimmed(t.skip("NTP service:"@.len() as int)), "active"@)
}

/// A clock that was not synchronised is shown synchronised only when some
/// line says so (see [`says_synced`]).
pub proof fn law_synced_only_when_said(ls: Seq<Seq<char>>, init: ClockView)
    requires
        !init.ntp_synced,
        forall|i: int| 0 <= i < ls.len() ==> !says_synced(#[trigger] ls[i]),
    ensures
        !clock_scan(ls, init).ntp_synced,
    decreases ls.len(),
{
    if ls.len() > 0 {
        assert forall|i: int| 0 <= i < ls.drop_last().len() implies !says_synced(#[trigger] ls.drop_last()[i]) by {
            assert(ls.drop_last()[i] == ls[i]);
        }
        law_synced_only_when_said(ls.drop_last(), init);
        assert(!says_synced(ls[ls.len() - 1]));
    }
}

} // verus!
