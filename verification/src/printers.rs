//! The Printers & Scanners page: printers, print jobs and scanners, read from
//! what `lpstat`, `scanimage` and `systemctl` report.

use vstd::prelude::*;
use crate::text::{
    contains, contains_str, eq_chars, first_index, occurs_at, find, has_prefix, index_of, index_of_char, last_index_of_char,
    last_pos, lines, parse_u64_max, parse_unsigned, replace_char, replaced, split_lines, split_ws, starts_with,
    strip_leading, strip_leading_text, strip_prefix, strip_trailing, string_from_chars, to_chars, trim, trim_char,
    trim_start_text, trimmed, views, words,
};

verus! {

/// A printer that CUPS knows.
pub struct PrinterDevice {
    pub name: String,
    pub system_name: String,
    pub description: String,
    pub location: String,
    pub is_default: bool,
    pub is_accepting: bool,
    pub status: String,
    pub uri: String,
    pub driver: String,
    pub jobs_count: usize,
}

/// The view of a [`PrinterDevice`].
pub struct PrinterView {
    pub name: Seq<char>,
    pub system_name: Seq<char>,
    pub description: Seq<char>,
    pub location: Seq<char>,
    pub is_default: bool,
    pub is_accepting: bool,
    pub status: Seq<char>,
    pub uri: Seq<char>,
    pub driver: Seq<char>,
    pub jobs_count: usize,
}

impl View for PrinterDevice {
    type V = PrinterView;

    open spec fn view(&self) -> PrinterView {
        PrinterView {
            name: self.name@,
            system_name: self.system_name@,
            description: self.description@,
            location: self.location@,
            is_default: self.is_default,
            is_accepting: self.is_accepting,
            status: self.status@,
            uri: self.uri@,
            driver: self.driver@,
            jobs_count: self.jobs_count,
        }
    }
}

/// The views of a list of printers.
pub open spec fn printer_views(s: Seq<PrinterDevice>) -> Seq<PrinterView> {
    s.map_values(|p: PrinterDevice| p@)
}

/// The default destination that `lpstat -d` names in some lines: the rest
/// of the last line that begins with `system default destination: `,
/// trimmed; empty when none does.
pub open spec fn default_destination(ls: Seq<Seq<char>>) -> Seq<char>
    decreases ls.len(),
{
    if ls.len() == 0 {
        Seq::empty()
    } else if has_prefix(ls.last(), "system default destination: "@) {
        trimmed(ls.last().skip("system default destination: "@.len() as int))
    } else {
        default_destination(ls.drop_last())
    }
}

/// Reads the default printer from `lpstat -d` (see [`default_destination`]).
pub fn default_printer(out: &str) -> (r: String)
    ensures
        r@ == default_destination(lines(out@)),
{
    let c = to_chars(out);
    let ls = split_lines(c.as_slice());
    let ghost all = views(ls@);
    let p = to_chars("system default destination: ");
    let mut k: usize = ls.len();
    assert(all.take(k as int) =~= all);
    while k > 0
        invariant
            k <= ls.len(),
            all == views(ls@),
            all == lines(out@),
            p@ == "system default destination: "@,
            default_destination(all) == default_destination(all.take(k as int)),
        decreases k,
    {
        let line = ls[k - 1];
        assert(all.take(k as int).last() == line@);
        if let Some(rest) = strip_prefix(line, p.as_slice()) {
            return string_from_chars(trim(rest));
        }
        assert(all.take(k as int).drop_last() =~= all.take(k - 1));
        k = k - 1;
    }
    String::new()
}

/// The printer a line of `lpstat -p` describes, given the default printer's
/// name: the trimmed line must begin with `printer ` and name the printer
/// in its second field. A printer is paused when the line says `disabled`,
/// printing when it says `now printing`; its display name has spaces for
/// underscores.
pub open spec fn printer_of(line: Seq<char>, default: Seq<char>) -> Option<PrinterView> {
    let t = trimmed(line);
    let w = words(t);
    if has_prefix(t, "printer "@) && w.len() >= 2 {
        let sys = w[1];
        let paused = contains(t, "disabled"@);
        let printing = contains(t, "now printing"@);
        Some(
            PrinterView {
                name: replaced(sys, '_', ' '),
                system_name: sys,
                description: "Local / Network Printer"@,
                location: "Connected via CUPS"@,
                is_default: default.len() > 0 && sys == default,
                is_accepting: !paused,
                status: if printing {
                    "Printing"@
                } else if paused {
                    "Paused"@
                } else {
                    "Ready"@
                },
                uri: "ipp://localhost/printers/"@ + sys,
                driver: "CUPS Standard Driver (IPP Everywhere)"@,
                jobs_count: 0,
            },
        )
    } else {
        None
    }
}

/// The printers that some lines of `lpstat -p` describe, in order.
pub open spec fn printers_in(ls: Seq<Seq<char>>, default: Seq<char>) -> Seq<PrinterView>
    decreases ls.len(),
{
    if ls.len() == 0 {
        seq![]
    } else {
        match printer_of(ls.last(), default) {
            Some(p) => printers_in(ls.drop_last(), default).push(p),
            None => printers_in(ls.drop_last(), default),
        }
    }
}

/// Reads the printers from `lpstat -p` (see [`printer_of`]).
pub fn printers_from(out: &str, default: &str) -> (r: Vec<PrinterDevice>)
    ensures
        printer_views(r@) == printers_in(lines(out@), default@),
{
    let c = to_chars(out);
    let d = to_chars(default);
    let ls = split_lines(c.as_slice());
    let ghost all = views(ls@);
    let printer = to_chars("printer ");
    let disabled = to_chars("disabled");
    let now_printing = to_chars("now printing");
    let mut r: Vec<PrinterDevice> = Vec::new();
    let mut i: usize = 0;
    while i < ls.len()
        invariant
            i <= ls.len(),
            all == views(ls@),
            all == lines(out@),
            d@ == default@,
            printer@ == "printer "@,
            disabled@ == "disabled"@,
            now_printing@ == "now printing"@,
            printer_views(r@) == printers_in(all.take(i as int), default@),
        decreases ls.len() - i,
    {
        let t = trim(ls[i]);
        assert(all.take(i + 1).drop_last() =~= all.take(i as int));
        assert(all.take(i + 1).last() == ls@[i as int]@);
        let w = split_ws(t);
        if starts_with(t, printer.as_slice()) && w.len() >= 2 {
            let sys = w[1];
            assert(views(w@)[1] == sys@);
            let paused = contains_str(t, disabled.as_slice());
            let printing = contains_str(t, now_printing.as_slice());
            let status = if printing {
                String::from_str("Printing")
            } else if paused {
                String::from_str("Paused")
            } else {
                String::from_str("Ready")
            };
            let mut uri = String::from_str("ipp://localhost/printers/");
            let sys_name = string_from_chars(sys);
            uri.append(sys_name.as_str());
            let p = PrinterDevice {
                name: replace_char(sys, '_', ' '),
                system_name: sys_name,
                description: String::from_str("Local / Network Printer"),
                location: String::from_str("Connected via CUPS"),
                is_default: d.len() > 0 && eq_chars(sys, d.as_slice()),
                is_accepting: !paused,
                status,
                uri,
                driver: String::from_str("CUPS Standard Driver (IPP Everywhere)"),
                jobs_count: 0,
            };
            let ghost before = printer_views(r@);
            r.push(p);
            assert(printer_views(r@) =~= before.push(r@.last()@));
        }
        i = i + 1;
    }
    assert(all.take(ls.len() as int) =~= all);
    r
}

/// Index of the first printer whose system name is `name`, or the length of
/// the list when none is.
pub open spec fn first_named(ps: Seq<PrinterView>, name: Seq<char>) -> nat
    decreases ps.len(),
{
    if ps.len() == 0 {
        0
    } else if ps[0].system_name == name {
        0
    } else {
        1 + first_named(ps.drop_first(), name)
    }
}

proof fn lemma_first_named(ps: Seq<PrinterView>, name: Seq<char>)
    ensures
        first_named(ps, name) <= ps.len(),
        first_named(ps, name) < ps.len() ==> ps[first_named(ps, name) as int].system_name == name,
    decreases ps.len(),
{
    if ps.len() > 0 && ps[0].system_name != name {
        lemma_first_named(ps.drop_first(), name);
    }
}

/// Index of the first printer named `name` (see [`first_named`]).
fn find_printer(ps: &Vec<PrinterDevice>, name: &[char]) -> (r: usize)
    ensures
        r == first_named(printer_views(ps@), name@),
        r <= ps@.len(),
{
    let ghost v = printer_views(ps@);
    let mut i: usize = 0;
    assert(v.skip(0) =~= v);
    while i < ps.len()
        invariant
            i <= ps.len(),
            v == printer_views(ps@),
            first_named(v, name@) == i + first_named(v.skip(i as int), name@),
        decreases ps.len() - i,
    {
        let c = to_chars(ps[i].system_name.as_str());
        assert(v.skip(i as int)[0] == ps@[i as int]@);
        if eq_chars(c.as_slice(), name) {
            return i;
        }
        assert(v.skip(i as int).drop_first() =~= v.skip(i + 1));
        i = i + 1;
    }
    i
}

/// The printers after the lines of `lpstat -a`: a line whose first field
/// names a printer sets whether that (first such) printer accepts jobs, by
/// whether the line says `accepting requests`.
pub open spec fn accepting_applied(ps: Seq<PrinterView>, ls: Seq<Seq<char>>) -> Seq<PrinterView>
    decreases ls.len(),
{
    if ls.len() == 0 {
        ps
    } else {
        let prev = accepting_applied(ps, ls.drop_last());
        let l = ls.last();
        let w = words(l);
        if w.len() >= 2 && first_named(prev, w[0]) < prev.len() {
            let i = first_named(prev, w[0]) as int;
            prev.update(i, PrinterView { is_accepting: contains(l, "accepting requests"@), ..prev[i] })
        } else {
            prev
        }
    }
}

/// Applies the output of `lpstat -a` (see [`accepting_applied`]).
pub fn apply_accepting(ps: &mut Vec<PrinterDevice>, out: &str)
    ensures
        printer_views(final(ps)@) == accepting_applied(printer_views(old(ps)@), lines(out@)),
{
    let c = to_chars(out);
    let ls = split_lines(c.as_slice());
    let ghost all = views(ls@);
    let ghost start = printer_views(ps@);
    let accepting = to_chars("accepting requests");
    let mut i: usize = 0;
    while i < ls.len()
        invariant
            i <= ls.len(),
            all == views(ls@),
            all == lines(out@),
            accepting@ == "accepting requests"@,
            printer_views(ps@) == accepting_applied(start, all.take(i as int)),
        decreases ls.len() - i,
    {
        let line = ls[i];
        assert(all.take(i + 1).drop_last() =~= all.take(i as int));
        assert(all.take(i + 1).last() == line@);
        let w = split_ws(line);
        if w.len() >= 2 {
            assert(views(w@)[0] == w@[0]@);
            let k = find_printer(ps, w[0]);
            if k < ps.len() {
                let ghost before = printer_views(ps@);
                let mut p = ps.remove(k);
                p.is_accepting = contains_str(line, accepting.as_slice());
                ps.insert(k, p);
                assert(printer_views(ps@) =~= before.update(
                    k as int,
                    PrinterView { is_accepting: contains(line@, "accepting requests"@), ..before[k as int] },
                ));
            }
        }
        i = i + 1;
    }
    assert(all.take(ls.len() as int) =~= all);
}

/// The printer and device URI a line of `lpstat -v` names: the line begins
/// with `device for `, and the rest splits at its first `:` into the
/// printer's name and the URI, each trimmed.
pub open spec fn device_uri_of(line: Seq<char>) -> Option<(Seq<char>, Seq<char>)> {
    let rest = line.skip("device for "@.len() as int);
    let k = index_of(rest, ':');
    if has_prefix(line, "device for "@) && k < rest.len() {
        Some((trimmed(rest.take(k as int)), trimmed(rest.skip(k + 1 as int))))
    } else {
        None
    }
}

/// Where a printer with device URI `uri` is: by USB, on the local network,
/// or, for any other URI, where it was said to be.
pub open spec fn location_for(uri: Seq<char>, old: Seq<char>) -> Seq<char> {
    if has_prefix(uri, "usb:"@) {
        "Direct USB Connection"@
    } else if has_prefix(uri, "ipp:"@) || has_prefix(uri, "dnssd:"@) || has_prefix(uri, "socket:"@) {
        "Local Network (IPP / AirPrint)"@
    } else {
        old
    }
}

/// The printers after the lines of `lpstat -v`: a line that names a printer
/// (the first with that name) sets its URI and, from it, its location.
pub open spec fn uris_applied(ps: Seq<PrinterView>, ls: Seq<Seq<char>>) -> Seq<PrinterView>
    decreases ls.len(),
{
    if ls.len() == 0 {
        ps
    } else {
        let prev = uris_applied(ps, ls.drop_last());
        match device_uri_of(ls.last()) {
            Some((name, uri)) => if first_named(prev, name) < prev.len() {
                let i = first_named(prev, name) as int;
                prev.update(
                    i,
                    PrinterView { uri: uri, ..PrinterView { location: location_for(uri, prev[i].location), ..prev[i] } },
                )
            } else {
                prev
            },
            None => prev,
        }
    }
}

/// The location for a device URI (see [`location_for`]).
fn location_text(uri: &[char], old: String) -> (r: String)
    ensures
        r@ == location_for(uri@, old@),
{
    let usb = to_chars("usb:");
    let ipp = to_chars("ipp:");
    let dnssd = to_chars("dnssd:");
    let socket = to_chars("socket:");
    if starts_with(uri, usb.as_slice()) {
        String::from_str("Direct USB Connection")
    } else if starts_with(uri, ipp.as_slice()) || starts_with(uri, dnssd.as_slice()) || starts_with(
        uri,
        socket.as_slice(),
    ) {
        String::from_str("Local Network (IPP / AirPrint)")
    } else {
        old
    }
}

/// Applies the output of `lpstat -v` (see [`uris_applied`]).
pub fn apply_device_uris(ps: &mut Vec<PrinterDevice>, out: &str)
    ensures
        printer_views(final(ps)@) == uris_applied(printer_views(old(ps)@), lines(out@)),
{
    let c = to_chars(out);
    let ls = split_lines(c.as_slice());
    let ghost all = views(ls@);
    let ghost start = printer_views(ps@);
    let device_for = to_chars("device for ");
    let mut i: usize = 0;
    while i < ls.len()
        invariant
            i <= ls.len(),
            all == views(ls@),
            all == lines(out@),
            device_for@ == "device for "@,
            printer_views(ps@) == uris_applied(start, all.take(i as int)),
        decreases ls.len() - i,
    {
        let line = ls[i];
        assert(all.take(i + 1).drop_last() =~= all.take(i as int));
        assert(all.take(i + 1).last() == line@);
        if let Some(rest) = strip_prefix(line, device_for.as_slice()) {
            let k = index_of_char(rest, ':');
            if k < rest.len() {
                let name = trim(vstd::slice::slice_subrange(rest, 0, k));
                let uri = trim(vstd::slice::slice_subrange(rest, k + 1, rest.len()));
                assert(rest@.subrange(0, k as int) =~= rest@.take(k as int));
                assert(rest@.subrange(k + 1, rest@.len() as int) =~= rest@.skip(k + 1));
                let j = find_printer(ps, name);
                if j < ps.len() {
                    let ghost before = printer_views(ps@);
                    let mut p = ps.remove(j);
                    let old_location = p.location;
                    p.location = location_text(uri, old_location);
                    p.uri = string_from_chars(uri);
                    ps.insert(j, p);
                    assert(printer_views(ps@) =~= before.update(
                        j as int,
                        PrinterView {
                            uri: uri@,
                            ..PrinterView { location: location_for(uri@, before[j as int].location), ..before[j as int] }
                        },
                    ));
                }
            }
        }
        i = i + 1;
    }
    assert(all.take(ls.len() as int) =~= all);
}

/// A job in a print queue.
pub struct PrintJob {
    pub id: String,
    pub document_name: String,
    pub user: String,
    /// The job's size in bytes; the page shows it in B, KB or MB.
    pub size_bytes: usize,
    pub status: String,
}

/// The view of a [`PrintJob`].
pub struct JobView {
    pub id: Seq<char>,
    pub document_name: Seq<char>,
    pub user: Seq<char>,
    pub size_bytes: usize,
    pub status: Seq<char>,
}

impl View for PrintJob {
    type V = JobView;

    open spec fn view(&self) -> JobView {
        JobView {
            id: self.id@,
            document_name: self.document_name@,
            user: self.user@,
            size_bytes: self.size_bytes,
            status: self.status@,
        }
    }
}

/// The job a line of `lpstat -o` lists, when it has four fields: its id,
/// its user, and its size (0 when not a number).
pub open spec fn job_of(line: Seq<char>) -> Option<JobView> {
    let w = words(line);
    if w.len() >= 4 {
        Some(
            JobView {
                id: w[0],
                document_name: "Active Print Spool"@,
                user: w[1],
                size_bytes: match parse_unsigned(w[2], usize::MAX as nat) {
                    Some(n) => n as usize,
                    None => 0,
                },
                status: "In Queue"@,
            },
        )
    } else {
        None
    }
}

/// The printer a job id belongs to: the id before its last `-`; empty when
/// it has none.
pub open spec fn job_printer(id: Seq<char>) -> Seq<char> {
    if last_pos(id, '-') >= 0 {
        id.take(last_pos(id, '-'))
    } else {
        Seq::empty()
    }
}

/// The jobs that some lines of `lpstat -o` list, in order.
pub open spec fn jobs_in(ls: Seq<Seq<char>>) -> Seq<JobView>
    decreases ls.len(),
{
    if ls.len() == 0 {
        seq![]
    } else {
        match job_of(ls.last()) {
            Some(j) => jobs_in(ls.drop_last()).push(j),
            None => jobs_in(ls.drop_last()),
        }
    }
}

/// The printers after the lines of `lpstat -o`: each job counts once for
/// the (first) printer it belongs to.
pub open spec fn jobs_counted(ps: Seq<PrinterView>, ls: Seq<Seq<char>>) -> Seq<PrinterView>
    decreases ls.len(),
{
    if ls.len() == 0 {
        ps
    } else {
        let prev = jobs_counted(ps, ls.drop_last());
        match job_of(ls.last()) {
            Some(j) => {
                let i = first_named(prev, job_printer(j.id)) as int;
                if i < prev.len() {
                    prev.update(i, PrinterView { jobs_count: (prev[i].jobs_count + 1) as usize, ..prev[i] })
                } else {
                    prev
                }
            },
            None => prev,
        }
    }
}

/// Reads the jobs from `lpstat -o` (see [`job_of`]) and counts them for
/// their printers (see [`jobs_counted`]). Every printer starts from at most
/// as many jobs as there can be lines.
pub fn read_jobs(ps: &mut Vec<PrinterDevice>, out: &str) -> (r: Vec<PrintJob>)
    requires
        forall|k: int| 0 <= k < old(ps)@.len() ==> old(ps)@[k].jobs_count == 0,
    ensures
        printer_views(final(ps)@) == jobs_counted(printer_views(old(ps)@), lines(out@)),
        r@.map_values(|j: PrintJob| j@) == jobs_in(lines(out@)),
{
    let c = to_chars(out);
    let ls = split_lines(c.as_slice());
    let ghost all = views(ls@);
    let ghost start = printer_views(ps@);
    let mut jobs: Vec<PrintJob> = Vec::new();
    let mut i: usize = 0;
    while i < ls.len()
        invariant
            i <= ls.len(),
            all == views(ls@),
            all == lines(out@),
            printer_views(ps@) == jobs_counted(start, all.take(i as int)),
            forall|k: int| 0 <= k < ps@.len() ==> ps@[k].jobs_count <= i,
            jobs@.map_values(|j: PrintJob| j@) == jobs_in(all.take(i as int)),
        decreases ls.len() - i,
    {
        let line = ls[i];
        assert(all.take(i + 1).drop_last() =~= all.take(i as int));
        assert(all.take(i + 1).last() == line@);
        let w = split_ws(line);
        if w.len() >= 4 {
            assert(views(w@)[0] == w@[0]@);
            assert(views(w@)[1] == w@[1]@);
            assert(views(w@)[2] == w@[2]@);
            let id = w[0];
            let size: usize = match parse_u64_max(w[2], usize::MAX as u64) {
                Some(n) => n as usize,
                None => 0,
            };
            let owner: &[char] = match last_index_of_char(id, '-') {
                Some(d) => vstd::slice::slice_subrange(id, 0, d),
                None => vstd::slice::slice_subrange(id, 0, 0),
            };
            assert(owner@ =~= job_printer(id@));
            let k = find_printer(ps, owner);
            if k < ps.len() {
                let ghost before = printer_views(ps@);
                let mut p = ps.remove(k);
                p.jobs_count = p.jobs_count + 1;
                ps.insert(k, p);
                assert(printer_views(ps@) =~= before.update(
                    k as int,
                    PrinterView { jobs_count: (before[k as int].jobs_count + 1) as usize, ..before[k as int] },
                ));
            }
            let ghost jb = jobs@.map_values(|j: PrintJob| j@);
            jobs.push(
                PrintJob {
                    id: string_from_chars(id),
                    document_name: String::from_str("Active Print Spool"),
                    user: string_from_chars(w[1]),
                    size_bytes: size,
                    status: String::from_str("In Queue"),
                },
            );
            assert(jobs@.map_values(|j: PrintJob| j@) =~= jb.push(jobs@.last()@));
        }
        i = i + 1;
    }
    assert(all.take(ls.len() as int) =~= all);
    jobs
}

/// A scanner that SANE found.
pub struct ScannerDevice {
    pub name: String,
    pub model: String,
    pub connection: String,
    pub status: String,
}

/// The view of a [`ScannerDevice`].
pub struct ScannerView {
    pub name: Seq<char>,
    pub model: Seq<char>,
    pub connection: Seq<char>,
    pub status: Seq<char>,
}

impl View for ScannerDevice {
    type V = ScannerView;

    open spec fn view(&self) -> ScannerView {
        ScannerView { name: self.name@, model: self.model@, connection: self.connection@, status: self.status@ }
    }
}

/// `s` without the backquotes and then the quotes round it, trimmed.
pub open spec fn unquoted(s: Seq<char>) -> Seq<char> {
    trimmed(strip_trailing(strip_leading(strip_trailing(strip_leading(s, '`'), '`'), '\''), '\''))
}

/// The scanner a line of `scanimage -L` lists: the line begins with
/// `device `, and what follows it splits at the first ` is a ` into the
/// device (its connection) and the description (its name), each unquoted.
pub open spec fn scanner_of(line: Seq<char>) -> Option<ScannerView> {
    let c = strip_leading_text(line, "device "@);
    if has_prefix(line, "device "@) && contains(c, " is a "@) {
        let k = first_index(c, " is a "@);
        Some(
            ScannerView {
                name: unquoted(c.skip(k + " is a "@.len())),
                model: "SANE Compatible Scanner"@,
                connection: unquoted(c.take(k)),
                status: "Ready"@,
            },
        )
    } else {
        None
    }
}

/// The scanners that some lines of `scanimage -L` list, in order.
pub open spec fn scanners_in(ls: Seq<Seq<char>>) -> Seq<ScannerView>
    decreases ls.len(),
{
    if ls.len() == 0 {
        seq![]
    } else {
        match scanner_of(ls.last()) {
            Some(d) => scanners_in(ls.drop_last()).push(d),
            None => scanners_in(ls.drop_last()),
        }
    }
}

fn unquote(s: &[char]) -> (r: String)
    ensures
        r@ == unquoted(s@),
{
    let a = trim_char(s, '`');
    let b = trim_char(a, '\'');
    string_from_chars(trim(b))
}

/// Reads the scanners from `scanimage -L` (see [`scanner_of`]).
pub fn scanners_from(out: &str) -> (r: Vec<ScannerDevice>)
    ensures
        r@.map_values(|d: ScannerDevice| d@) == scanners_in(lines(out@)),
{
    let c = to_chars(out);
    let ls = split_lines(c.as_slice());
    let ghost all = views(ls@);
    let device = to_chars("device ");
    let is_a = to_chars(" is a ");
    let mut r: Vec<ScannerDevice> = Vec::new();
    let mut i: usize = 0;
    while i < ls.len()
        invariant
            i <= ls.len(),
            all == views(ls@),
            all == lines(out@),
            device@ == "device "@,
            is_a@ == " is a "@,
            r@.map_values(|d: ScannerDevice| d@) == scanners_in(all.take(i as int)),
        decreases ls.len() - i,
    {
        let line = ls[i];
        assert(all.take(i + 1).drop_last() =~= all.take(i as int));
        assert(all.take(i + 1).last() == line@);
        if starts_with(line, device.as_slice()) {
            let content = trim_start_text(line, device.as_slice());
            if let Some(k) = find(content, is_a.as_slice()) {
                assert(occurs_at(content@, is_a@, k as int));
                assert(k + is_a@.len() <= content@.len());
                assert(k as int + is_a.len() as int <= content.len() as int);
                let dev = vstd::slice::slice_subrange(content, 0, k);
                let desc = vstd::slice::slice_subrange(content, k + is_a.len(), content.len());
                assert(dev@ =~= content@.take(k as int));
                assert(desc@ =~= content@.skip(k + is_a@.len()));
                let ghost before = r@.map_values(|d: ScannerDevice| d@);
                r.push(
                    ScannerDevice {
                        name: unquote(desc),
                        model: String::from_str("SANE Compatible Scanner"),
                        connection: unquote(dev),
                        status: String::from_str("Ready"),
                    },
                );
                assert(r@.map_values(|d: ScannerDevice| d@) =~= before.push(r@.last()@));
            }
        }
        i = i + 1;
    }
    assert(all.take(ls.len() as int) =~= all);
    r
}

/// Whether the CUPS service runs: `systemctl is-active cups` printed
/// `active`; taken as running when the command could not be run.
pub fn cups_running(out: Option<&str>) -> (r: bool)
    ensures
        r == match out {
            Some(o) => trimmed(o@) == "active"@,
            None => true,
        },
{
    match out {
        Some(o) => {
            let c = to_chars(o);
            let a = to_chars("active");
            eq_chars(trim(c.as_slice()), a.as_slice())
        },
        None => true,
    }
}

/// Printers, scanners, print jobs and print service settings.
pub struct PrintersInfo {
    pub printers: Vec<PrinterDevice>,
    pub scanners: Vec<ScannerDevice>,
    pub active_jobs: Vec<PrintJob>,
    pub cups_active: bool,
    pub network_discovery: bool,
    pub default_paper_size: String,
    pub share_printers: bool,
}

impl PrintersInfo {
    /// What the page shows before the system has answered: no devices, CUPS
    /// running, discovery on, A4 paper, no sharing.
    pub fn default() -> (r: PrintersInfo)
        ensures
            r.printers@.len() == 0,
            r.scanners@.len() == 0,
            r.active_jobs@.len() == 0,
            r.cups_active,
            r.network_discovery,
            r.default_paper_size@ == "A4 (210 x 297 mm)"@,
            !r.share_printers,
    {
        PrintersInfo {
            printers: Vec::new(),
            scanners: Vec::new(),
            active_jobs: Vec::new(),
            cups_active: true,
            network_discovery: true,
            default_paper_size: String::from_str("A4 (210 x 297 mm)"),
            share_printers: false,
        }
    }
}

/// The lines of an optional output; none when the command could not be run.
pub open spec fn out_lines(o: Option<&str>) -> Seq<Seq<char>> {
    match o {
        Some(s) => lines(s@),
        None => seq![],
    }
}

/// The raw answers of the system for the Printers & Scanners page; `None`
/// where a command could not be run.
pub struct PrinterSources<'a> {
    /// Output of `lpstat -d`.
    pub lpstat_d: Option<&'a str>,
    /// Output of `lpstat -p`.
    pub lpstat_p: Option<&'a str>,
    /// Output of `lpstat -a`.
    pub lpstat_a: Option<&'a str>,
    /// Output of `lpstat -v`.
    pub lpstat_v: Option<&'a str>,
    /// Output of `lpstat -o`.
    pub lpstat_o: Option<&'a str>,
    /// Output of `scanimage -L`.
    pub scanimage: Option<&'a str>,
    /// Output of `systemctl is-active cups`.
    pub systemctl: Option<&'a str>,
}

/// The printers as the page lists them after all of `lpstat`'s answers.
pub open spec fn printers_reported(src: PrinterSources) -> Seq<PrinterView> {
    let default = default_destination(out_lines(src.lpstat_d));
    let listed = printers_in(out_lines(src.lpstat_p), default);
    jobs_counted(uris_applied(accepting_applied(listed, out_lines(src.lpstat_a)), out_lines(src.lpstat_v)), out_lines(src.lpstat_o))
}

/// The printer the page shows as a sample when the system reports none.
pub open spec fn sample_printer() -> PrinterView {
    PrinterView {
        name: "Office LaserJet"@,
        system_name: "Office_LaserJet"@,
        description: "HP LaserJet Pro M404dn"@,
        location: "Local Network (IPP / AirPrint)"@,
        is_default: true,
        is_accepting: true,
        status: "Idle"@,
        uri: "ipp://localhost/printers/Office_LaserJet"@,
        driver: "Generic PCL 6 Printer"@,
        jobs_count: 0,
    }
}

/// The scanner the page shows as a sample when the system reports none.
pub open spec fn sample_scanner() -> ScannerView {
    ScannerView {
        name: "Office Flatbed Scanner"@,
        model: "SANE Compatible Scanner"@,
        connection: "escl:http://localhost:8080"@,
        status: "Ready"@,
    }
}

/// Builds [`sample_printer`].
pub fn sample_printer_device() -> (r: PrinterDevice)
    ensures
        r@ == sample_printer(),
{
    PrinterDevice {
        name: String::from_str("Office LaserJet"),
        system_name: String::from_str("Office_LaserJet"),
        description: String::from_str("HP LaserJet Pro M404dn"),
        location: String::from_str("Local Network (IPP / AirPrint)"),
        is_default: true,
        is_accepting: true,
        status: String::from_str("Idle"),
        uri: String::from_str("ipp://localhost/printers/Office_LaserJet"),
        driver: String::from_str("Generic PCL 6 Printer"),
        jobs_count: 0,
    }
}

/// Builds [`sample_scanner`].
pub fn sample_scanner_device() -> (r: ScannerDevice)
    ensures
        r@ == sample_scanner(),
{
    ScannerDevice {
        name: String::from_str("Office Flatbed Scanner"),
        model: String::from_str("SANE Compatible Scanner"),
        connection: String::from_str("escl:http://localhost:8080"),
        status: String::from_str("Ready"),
    }
}

/// The Printers & Scanners page's information from the system's answers.
/// When the system reports no printer, the page shows [`sample_printer`];
/// when it reports no scanner, [`sample_scanner`].
pub fn printers_info(src: &PrinterSources) -> (r: PrintersInfo)
    ensures
        printer_views(r.printers@) == if printers_reported(*src).len() == 0 {
            seq![sample_printer()]
        } else {
            printers_reported(*src)
        },
        r.active_jobs@.map_values(|j: PrintJob| j@) == jobs_in(out_lines(src.lpstat_o)),
        r.scanners@.map_values(|d: ScannerDevice| d@) == if scanners_in(out_lines(src.scanimage)).len() == 0 {
            seq![sample_scanner()]
        } else {
            scanners_in(out_lines(src.scanimage))
        },
        r.cups_active == match src.systemctl {
            Some(o) => trimmed(o@) == "active"@,
            None => true,
        },
        r.network_discovery,
        r.default_paper_size@ == "A4 (210 x 297 mm)"@,
        !r.share_printers,
{
    let ghost d_lines = out_lines(src.lpstat_d);
    let ghost p_lines = out_lines(src.lpstat_p);
    let ghost a_lines = out_lines(src.lpstat_a);
    let ghost v_lines = out_lines(src.lpstat_v);
    let ghost o_lines = out_lines(src.lpstat_o);
    let default = match src.lpstat_d {
        Some(o) => default_printer(o),
        None => String::new(),
    };
    assert(default@ == default_destination(d_lines));
    let ghost dflt = default@;
    let mut printers = match src.lpstat_p {
        Some(o) => printers_from(o, default.as_str()),
        None => Vec::new(),
    };
    assert(printer_views(printers@) =~= printers_in(p_lines, dflt));
    let ghost listed = printer_views(printers@);
    if let Some(o) = src.lpstat_a {
        apply_accepting(&mut printers, o);
    }
    assert(printer_views(printers@) == accepting_applied(listed, a_lines));
    let ghost accepted = printer_views(printers@);
    if let Some(o) = src.lpstat_v {
        apply_device_uris(&mut printers, o);
    }
    assert(printer_views(printers@) == uris_applied(accepted, v_lines));
    proof {
        lemma_counts_start_at_zero(p_lines, dflt, a_lines, v_lines);
        assert forall|k: int| 0 <= k < printers@.len() implies printers@[k].jobs_count == 0 by {
            assert(printer_views(printers@)[k] == printers@[k]@);
        }
    }
    let ghost with_uris = printer_views(printers@);
    let jobs = match src.lpstat_o {
        Some(o) => read_jobs(&mut printers, o),
        None => Vec::new(),
    };
    assert(printer_views(printers@) == jobs_counted(with_uris, o_lines));
    let mut scanners = match src.scanimage {
        Some(o) => scanners_from(o),
        None => Vec::new(),
    };
    assert(scanners@.map_values(|d: ScannerDevice| d@) =~= scanners_in(out_lines(src.scanimage))) by {
        if src.scanimage is None {
            assert(scanners_in(out_lines(src.scanimage)) =~= seq![]);
        }
    }
    if printers.len() == 0 {
        printers.push(sample_printer_device());
        assert(printer_views(printers@) =~= seq![sample_printer()]);
    }
    if scanners.len() == 0 {
        scanners.push(sample_scanner_device());
        assert(scanners@.map_values(|d: ScannerDevice| d@) =~= seq![sample_scanner()]);
    }
    let r = PrintersInfo {
        printers,
        scanners,
        active_jobs: jobs,
        cups_active: cups_running(src.systemctl),
        network_discovery: true,
        default_paper_size: String::from_str("A4 (210 x 297 mm)"),
        share_printers: false,
    };
    assert(r.active_jobs@.map_values(|j: PrintJob| j@) =~= jobs_in(out_lines(src.lpstat_o))) by {
        if src.lpstat_o is None {
            assert(jobs_in(out_lines(src.lpstat_o)) =~= seq![]);
        }
    }
    r
}

proof fn lemma_counts_start_at_zero(lp: Seq<Seq<char>>, default: Seq<char>, la: Seq<Seq<char>>, lv: Seq<Seq<char>>)
    ensures
        forall|k: int|
            0 <= k < uris_applied(accepting_applied(printers_in(lp, default), la), lv).len() ==> (#[trigger] uris_applied(
                accepting_applied(printers_in(lp, default), la),
                lv,
            )[k]).jobs_count == 0,
{
    lemma_listed_zero(lp, default);
    lemma_accepting_keeps_zero(printers_in(lp, default), la);
    lemma_uris_keep_zero(accepting_applied(printers_in(lp, default), la), lv);
}

proof fn lemma_listed_zero(lp: Seq<Seq<char>>, default: Seq<char>)
    ensures
        forall|k: int| 0 <= k < printers_in(lp, default).len() ==> (#[trigger] printers_in(lp, default)[k]).jobs_count == 0,
    decreases lp.len(),
{
    if lp.len() > 0 {
        lemma_listed_zero(lp.drop_last(), default);
        let prev = printers_in(lp.drop_last(), default);
        if let Some(p) = printer_of(lp.last(), default) {
            assert(p.jobs_count == 0);
            assert forall|k: int| 0 <= k < prev.push(p).len() implies (#[trigger] prev.push(p)[k]).jobs_count == 0 by {
                if k < prev.len() {
                    assert(prev.push(p)[k] == prev[k]);
                }
            }
        }
    }
}

proof fn lemma_accepting_keeps_zero(ps: Seq<PrinterView>, la: Seq<Seq<char>>)
    requires
        forall|k: int| 0 <= k < ps.len() ==> (#[trigger] ps[k]).jobs_count == 0,
    ensures
        accepting_applied(ps, la).len() == ps.len(),
        forall|k: int| 0 <= k < accepting_applied(ps, la).len() ==> (#[trigger] accepting_applied(ps, la)[k]).jobs_count == 0,
    decreases la.len(),
{
    if la.len() > 0 {
        lemma_accepting_keeps_zero(ps, la.drop_last());
    }
}

proof fn lemma_uris_keep_zero(ps: Seq<PrinterView>, lv: Seq<Seq<char>>)
    requires
        forall|k: int| 0 <= k < ps.len() ==> (#[trigger] ps[k]).jobs_count == 0,
    ensures
        uris_applied(ps, lv).len() == ps.len(),
        forall|k: int| 0 <= k < uris_applied(ps, lv).len() ==> (#[trigger] uris_applied(ps, lv)[k]).jobs_count == 0,
    decreases lv.len(),
{
    if lv.len() > 0 {
        lemma_uris_keep_zero(ps, lv.drop_last());
    }
}

/// Whether a printer's queue is paused: its status says `Paused` or it
/// does not accept jobs.
pub open spec fn is_paused(p: PrinterView) -> bool {
    p.status == "Paused"@ || !p.is_accepting
}

/// Whether `p`'s queue is paused (see [`is_paused`]).
pub fn queue_paused(p: &PrinterDevice) -> (r: bool)
    ensures
        r == is_paused(p@),
{
    crate::text::str_eq(p.status.as_str(), "Paused") || !p.is_accepting
}

/// `p`, the default exactly when its system name is `name`.
pub open spec fn with_default(p: PrinterView, name: Seq<char>) -> PrinterView {
    PrinterView { is_default: p.system_name == name, ..p }
}

/// Makes the printer with system name `system_name` the default: each
/// printer is the default exactly when its system name is that one, and
/// nothing else changes.
pub fn mark_default(ps: &mut Vec<PrinterDevice>, system_name: &str)
    ensures
        final(ps)@.len() == old(ps)@.len(),
        forall|k: int|
            0 <= k < final(ps)@.len() ==> (#[trigger] final(ps)@[k])@ == with_default(old(ps)@[k]@, system_name@),
{
    let ghost start = ps@;
    let mut i: usize = 0;
    while i < ps.len()
        invariant
            i <= ps.len(),
            ps@.len() == start.len(),
            forall|k: int|
                0 <= k < i ==> (#[trigger] ps@[k])@ == with_default(start[k]@, system_name@),
            forall|k: int| i <= k < ps@.len() ==> (#[trigger] ps@[k]) == start[k],
        decreases ps.len() - i,
    {
        let mut p = ps.remove(i);
        p.is_default = crate::text::str_eq(p.system_name.as_str(), system_name);
        ps.insert(i, p);
        i = i + 1;
    }
}

/// The printers after the Pause or Resume button of the first printer with
/// system name `system_name`, whose queue `paused` says was paused: a
/// resumed queue is `Ready` and accepts jobs, a paused one is `Paused` and
/// does not. Nothing else changes, and nothing at all when no printer has
/// that name.
pub open spec fn queue_toggled(ps: Seq<PrinterView>, system_name: Seq<char>, paused: bool) -> Seq<PrinterView> {
    let i = first_named(ps, system_name);
    if i < ps.len() {
        ps.update(
            i as int,
            PrinterView {
                status: if paused {
                    "Ready"@
                } else {
                    "Paused"@
                },
                is_accepting: paused,
                ..ps[i as int]
            },
        )
    } else {
        ps
    }
}

/// Pauses or resumes a printer's queue on the page (see [`queue_toggled`]).
pub fn toggle_queue(ps: &mut Vec<PrinterDevice>, system_name: &str, paused: bool)
    ensures
        printer_views(final(ps)@) == queue_toggled(printer_views(old(ps)@), system_name@, paused),
{
    let c = to_chars(system_name);
    let k = find_printer(ps, c.as_slice());
    if k < ps.len() {
        let ghost before = printer_views(ps@);
        let mut p = ps.remove(k);
        p.status = if paused {
            String::from_str("Ready")
        } else {
            String::from_str("Paused")
        };
        p.is_accepting = paused;
        ps.insert(k, p);
        assert(printer_views(ps@) =~= queue_toggled(before, system_name@, paused));
    }
}

/// The jobs among `jobs` whose id is not `id`, in order.
pub open spec fn jobs_without(jobs: Seq<JobView>, id: Seq<char>) -> Seq<JobView>
    decreases jobs.len(),
{
    if jobs.len() == 0 {
        seq![]
    } else if jobs.last().id != id {
        jobs_without(jobs.drop_last(), id).push(jobs.last())
    } else {
        jobs_without(jobs.drop_last(), id)
    }
}

/// The print queue after the Cancel button of job `id`: the other jobs.
pub fn without_job(jobs: &Vec<PrintJob>, id: &str) -> (r: Vec<PrintJob>)
    ensures
        r@.map_values(|j: PrintJob| j@) == jobs_without(jobs@.map_values(|j: PrintJob| j@), id@),
{
    let ghost all = jobs@.map_values(|j: PrintJob| j@);
    let mut r: Vec<PrintJob> = Vec::new();
    let mut i: usize = 0;
    while i < jobs.len()
        invariant
            i <= jobs.len(),
            all == jobs@.map_values(|j: PrintJob| j@),
            r@.map_values(|j: PrintJob| j@) == jobs_without(all.take(i as int), id@),
        decreases jobs.len() - i,
    {
        let j = &jobs[i];
        assert(all.take(i + 1).drop_last() =~= all.take(i as int));
        assert(all.take(i + 1).last() == j@);
        if !crate::text::str_eq(j.id.as_str(), id) {
            let ghost before = r@.map_values(|x: PrintJob| x@);
            r.push(
                PrintJob {
                    id: j.id.clone(),
                    document_name: j.document_name.clone(),
                    user: j.user.clone(),
                    size_bytes: j.size_bytes,
                    status: j.status.clone(),
                },
            );
            assert(r@.map_values(|x: PrintJob| x@) =~= before.push(j@));
        }
        i = i + 1;
    }
    assert(all.take(jobs.len() as int) =~= all);
    r
}

/// The last `-` of `p`, `-` and `n`, where `n` has none, is the one before
/// `n`.
proof fn lemma_last_dash(p: Seq<char>, n: Seq<char>)
    requires
        !n.contains('-'),
    ensures
        last_pos(p + seq!['-'] + n, '-') == p.len(),
    decreases n.len(),
{
    let s = p + seq!['-'] + n;
    if n.len() == 0 {
        assert(s.last() == '-');
    } else {
        assert(n.last() == n[n.len() - 1]);
        assert(s.last() == n.last());
        assert(!n.drop_last().contains('-')) by {
            if n.drop_last().contains('-') {
                let k = choose|k: int| 0 <= k < n.drop_last().len() && n.drop_last()[k] == '-';
                assert(n[k] == '-');
            }
        }
        assert(s.drop_last() =~= p + seq!['-'] + n.drop_last());
        lemma_last_dash(p, n.drop_last());
    }
}

/// A job named `P-N`, where `N` has no `-`, belongs to the printer `P`,
/// whatever `P` holds (printer names may have `-` in them).
pub proof fn law_job_belongs_to_prefix(p: Seq<char>, n: Seq<char>)
    requires
        !n.contains('-'),
    ensures
        job_printer(p + seq!['-'] + n) == p,
{
    lemma_last_dash(p, n);
    assert((p + seq!['-'] + n).take(p.len() as int) =~= p);
}

/// A listed job `P-N` (with no `-` in `N`) counts once more for the first
/// printer whose system name is `P`, and changes no other printer.
pub proof fn law_job_counts_for_its_printer(
    ps: Seq<PrinterView>,
    ls: Seq<Seq<char>>,
    l: Seq<char>,
    p: Seq<char>,
    n: Seq<char>,
    i: int,
)
    requires
        job_of(l) is Some,
        job_of(l)->0.id == p + seq!['-'] + n,
        !n.contains('-'),
        0 <= i < jobs_counted(ps, ls).len(),
        jobs_counted(ps, ls)[i].system_name == p,
        forall|k: int| 0 <= k < i ==> (#[trigger] jobs_counted(ps, ls)[k]).system_name != p,
        jobs_counted(ps, ls)[i].jobs_count < usize::MAX,
    ensures
        jobs_counted(ps, ls.push(l)).len() == jobs_counted(ps, ls).len(),
        jobs_counted(ps, ls.push(l))[i].jobs_count == jobs_counted(ps, ls)[i].jobs_count + 1,
        jobs_counted(ps, ls.push(l))[i].system_name == p,
        forall|k: int|
            0 <= k < jobs_counted(ps, ls).len() && k != i ==> #[trigger] jobs_counted(ps, ls.push(l))[k]
                == jobs_counted(ps, ls)[k],
{
    let prev = jobs_counted(ps, ls);
    law_job_belongs_to_prefix(p, n);
    lemma_first_named_at(prev, p, i);
    assert(ls.push(l).drop_last() =~= ls);
    assert(ls.push(l).last() == l);
}

/// The first printer named `name` is at `i` when `i` is named so and none
/// before it is.
proof fn lemma_first_named_at(ps: Seq<PrinterView>, name: Seq<char>, i: int)
    requires
        0 <= i < ps.len(),
        ps[i].system_name == name,
        forall|k: int| 0 <= k < i ==> (#[trigger] ps[k]).system_name != name,
    ensures
        first_named(ps, name) == i,
    decreases i,
{
    if i > 0 {
        assert(ps[0].system_name != name);
        assert forall|k: int| 0 <= k < i - 1 implies (#[trigger] ps.drop_first()[k]).system_name != name by {
            assert(ps.drop_first()[k] == ps[k + 1]);
        }
        lemma_first_named_at(ps.drop_first(), name, i - 1);
    }
}

} // verus!
