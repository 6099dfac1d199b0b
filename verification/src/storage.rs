//! The storage pages: the disks that `df` reports, and the sizes that the
//! file index holds.

use vstd::prelude::*;
use crate::text::{
    below_header, has_prefix, lines, parse_u64, parse_unsigned, split_char, split_lines, split_on, split_ws, starts_with,
    strip_trailing, string_from_chars, to_chars, trim, trim_end_char, trimmed, views, words,
};

verus! {

/// A mounted disk.
pub struct DiskInfo {
    pub filesystem: String,
    pub mount_point: String,
    pub total: String,
    pub used: String,
    pub available: String,
    /// How full the disk is, in percent, as `df` printed it (without `%`);
    /// the page reads it as a number.
    pub use_percent: String,
}

/// The view of a [`DiskInfo`].
pub struct DiskView {
    pub filesystem: Seq<char>,
    pub mount_point: Seq<char>,
    pub total: Seq<char>,
    pub used: Seq<char>,
    pub available: Seq<char>,
    pub use_percent: Seq<char>,
}

impl View for DiskInfo {
    type V = DiskView;

    open spec fn view(&self) -> DiskView {
        DiskView {
            filesystem: self.filesystem@,
            mount_point: self.mount_point@,
            total: self.total@,
            used: self.used@,
            available: self.available@,
            use_percent: self.use_percent@,
        }
    }
}

/// Storage as the page shows it: the root disk's figures and every disk.
pub struct StorageInfo {
    pub total: String,
    pub used: String,
    pub available: String,
    pub use_percent: String,
    pub disks: Vec<DiskInfo>,
}

/// Whether a disk is a system or virtual one that the page leaves out.
pub open spec fn hidden_disk(fs: Seq<char>, mount: Seq<char>) -> bool {
    has_prefix(fs, "tmpfs"@) || has_prefix(fs, "devtmpfs"@) || has_prefix(fs, "efivarfs"@) || has_prefix(fs, "none"@)
        || has_prefix(fs, "overlay"@) || has_prefix(fs, "udev"@) || has_prefix(mount, "/run"@) || has_prefix(
        mount,
        "/sys"@,
    ) || has_prefix(mount, "/dev"@)
}

/// The disk a line of `df -hP` shows, when it has six fields and is not
/// hidden (see [`hidden_disk`]).
pub open spec fn disk_of(line: Seq<char>) -> Option<DiskView> {
    let w = words(line);
    if w.len() >= 6 && !hidden_disk(w[0], w[5]) {
        Some(
            DiskView {
                filesystem: w[0],
                mount_point: w[5],
                total: w[1],
                used: w[2],
                available: w[3],
                use_percent: strip_trailing(w[4], '%'),
            },
        )
    } else {
        None
    }
}

/// The disks that some lines of `df -hP` show, in order.
pub open spec fn disks_in(ls: Seq<Seq<char>>) -> Seq<DiskView>
    decreases ls.len(),
{
    if ls.len() == 0 {
        seq![]
    } else {
        match disk_of(ls.last()) {
            Some(d) => disks_in(ls.drop_last()).push(d),
            None => disks_in(ls.drop_last()),
        }
    }
}

/// The root disk the page assumes when `df` shows none.
pub open spec fn sample_root() -> DiskView {
    DiskView {
        filesystem: "/dev/root"@,
        mount_point: "/"@,
        total: "512 GB"@,
        used: "128 GB"@,
        available: "384 GB"@,
        use_percent: "25"@,
    }
}

/// The root disk among `ds`: the last one mounted at `/`, else `dflt`.
pub open spec fn root_among(ds: Seq<DiskView>, dflt: DiskView) -> DiskView
    decreases ds.len(),
{
    if ds.len() == 0 {
        dflt
    } else if ds.last().mount_point == "/"@ {
        ds.last()
    } else {
        root_among(ds.drop_last(), dflt)
    }
}

fn sample_root_disk() -> (r: DiskInfo)
    ensures
        r@ == sample_root(),
{
    DiskInfo {
        filesystem: String::from_str("/dev/root"),
        mount_point: String::from_str("/"),
        total: String::from_str("512 GB"),
        used: String::from_str("128 GB"),
        available: String::from_str("384 GB"),
        use_percent: String::from_str("25"),
    }
}

fn copy_disk(d: &DiskInfo) -> (r: DiskInfo)
    ensures
        r@ == d@,
{
    DiskInfo {
        filesystem: d.filesystem.clone(),
        mount_point: d.mount_point.clone(),
        total: d.total.clone(),
        used: d.used.clone(),
        available: d.available.clone(),
        use_percent: d.use_percent.clone(),
    }
}

/// The storage page's figures from the output of `df -hP` (`None` when it
/// could not be run): the disks below its header line; the sample root disk
/// alone when there are none; the root disk's figures on top.
pub fn storage_info(df: Option<&str>) -> (r: StorageInfo)
    ensures
        ({
            let shown = match df {
                Some(o) => disks_in(below_header(lines(o@))),
                None => seq![],
            };
            let root = root_among(shown, sample_root());
            &&& r.disks@.map_values(|d: DiskInfo| d@) == if shown.len() > 0 {
                shown
            } else {
                seq![sample_root()]
            }
            &&& r.total@ == root.total
            &&& r.used@ == root.used
            &&& r.available@ == root.available
            &&& r.use_percent@ == root.use_percent
        }),
{
    let mut disks: Vec<DiskInfo> = Vec::new();
    let mut root = sample_root_disk();
    if let Some(o) = df {
        let c = to_chars(o);
        let ls = split_lines(c.as_slice());
        let ghost all = below_header(views(ls@));
        let tmpfs = to_chars("tmpfs");
        let devtmpfs = to_chars("devtmpfs");
        let efivarfs = to_chars("efivarfs");
        let none = to_chars("none");
        let overlay = to_chars("overlay");
        let udev = to_chars("udev");
        let run = to_chars("/run");
        let sys = to_chars("/sys");
        let dev = to_chars("/dev");
        let slash = to_chars("/");
        let mut i: usize = 1;
        assert(all.take(0) =~= seq![]);
        while i < ls.len()
            invariant
                1 <= i <= ls.len() || (i == 1 && ls.len() == 0),
                all == below_header(views(ls@)),
                views(ls@) == lines(o@),
                tmpfs@ == "tmpfs"@,
                devtmpfs@ == "devtmpfs"@,
                efivarfs@ == "efivarfs"@,
                none@ == "none"@,
                overlay@ == "overlay"@,
                udev@ == "udev"@,
                run@ == "/run"@,
                sys@ == "/sys"@,
                dev@ == "/dev"@,
                slash@ == "/"@,
                disks@.map_values(|d: DiskInfo| d@) == disks_in(all.take(i - 1)),
                root@ == root_among(disks_in(all.take(i - 1)), sample_root()),
            decreases ls.len() - i,
        {
            let line = ls[i];
            assert(all.take(i as int).drop_last() =~= all.take(i - 1));
            assert(all.take(i as int).last() == line@);
            let w = split_ws(line);
            if w.len() >= 6 {
                assert(views(w@)[0] == w@[0]@);
                assert(views(w@)[1] == w@[1]@);
                assert(views(w@)[2] == w@[2]@);
                assert(views(w@)[3] == w@[3]@);
                assert(views(w@)[4] == w@[4]@);
                assert(views(w@)[5] == w@[5]@);
                let fs = w[0];
                let mount = w[5];
                let hidden = starts_with(fs, tmpfs.as_slice()) || starts_with(fs, devtmpfs.as_slice()) || starts_with(
                    fs,
                    efivarfs.as_slice(),
                ) || starts_with(fs, none.as_slice()) || starts_with(fs, overlay.as_slice()) || starts_with(
                    fs,
                    udev.as_slice(),
                ) || starts_with(mount, run.as_slice()) || starts_with(mount, sys.as_slice()) || starts_with(
                    mount,
                    dev.as_slice(),
                );
                if !hidden {
                    let disk = DiskInfo {
                        filesystem: string_from_chars(fs),
                        mount_point: string_from_chars(mount),
                        total: string_from_chars(w[1]),
                        used: string_from_chars(w[2]),
                        available: string_from_chars(w[3]),
                        use_percent: string_from_chars(trim_end_char(w[4], '%')),
                    };
                    if crate::text::eq_chars(mount, slash.as_slice()) {
                        root = copy_disk(&disk);
                    }
                    let ghost before = disks@.map_values(|d: DiskInfo| d@);
                    let ghost dv = disk@;
                    disks.push(disk);
                    assert(disks@.map_values(|d: DiskInfo| d@) =~= before.push(dv));
                    assert(before.push(dv).drop_last() =~= before);
                }
            }
            i = i + 1;
        }
        if ls.len() > 0 {
            assert(all.take(ls.len() - 1) =~= all);
        } else {
            assert(all =~= seq![]);
        }
    }
    if disks.len() == 0 {
        disks.push(copy_disk(&root));
        assert(disks@.map_values(|d: DiskInfo| d@) =~= seq![sample_root()]);
    }
    let total = root.total.clone();
    let used = root.used.clone();
    let available = root.available.clone();
    let use_percent = root.use_percent.clone();
    StorageInfo { total, used, available, use_percent, disks }
}

/// The sizes in bytes of the root file system that `df -B1 /` prints: total,
/// used and available, from the first line below the header that has four
/// fields (a size that is not a number reads as 1 for the total, else 0).
pub open spec fn df_sizes(ls: Seq<Seq<char>>) -> Option<(u64, u64, u64)>
    decreases ls.len(),
{
    if ls.len() == 0 {
        None
    } else if words(ls[0]).len() >= 4 {
        let w = words(ls[0]);
        Some(
            (
                match parse_unsigned(w[1], u64::MAX as nat) {
                    Some(n) => n as u64,
                    None => 1,
                },
                match parse_unsigned(w[2], u64::MAX as nat) {
                    Some(n) => n as u64,
                    None => 0,
                },
                match parse_unsigned(w[3], u64::MAX as nat) {
                    Some(n) => n as u64,
                    None => 0,
                },
            ),
        )
    } else {
        df_sizes(ls.drop_first())
    }
}

/// A size field, or `dflt` when it is not a number.
fn size_or(s: &[char], dflt: u64) -> (r: u64)
    ensures
        r == match parse_unsigned(s@, u64::MAX as nat) {
            Some(n) => n as u64,
            None => dflt,
        },
{
    match parse_u64(s) {
        Some(n) => n,
        None => dflt,
    }
}

/// Reads the root file system's sizes from `df -B1 /` (see [`df_sizes`]).
pub fn root_sizes(out: &str) -> (r: Option<(u64, u64, u64)>)
    ensures
        r == df_sizes(below_header(lines(out@))),
{
    let c = to_chars(out);
    let ls = split_lines(c.as_slice());
    let ghost all = views(ls@);
    if ls.len() == 0 {
        return None;
    }
    let mut i: usize = 1;
    while i < ls.len()
        invariant
            1 <= i <= ls.len(),
            all == views(ls@),
            all == lines(out@),
            df_sizes(below_header(all)) == df_sizes(all.skip(i as int)),
        decreases ls.len() - i,
    {
        let w = split_ws(ls[i]);
        assert(all.skip(i as int)[0] == ls@[i as int]@);
        if w.len() >= 4 {
            assert(views(w@)[1] == w@[1]@);
            assert(views(w@)[2] == w@[2]@);
            assert(views(w@)[3] == w@[3]@);
            return Some((size_or(w[1], 1), size_or(w[2], 0), size_or(w[3], 0)));
        }
        assert(all.skip(i as int).drop_first() =~= all.skip(i + 1));
        i = i + 1;
    }
    assert(all.skip(i as int) =~= seq![]);
    None
}

/// The sizes that the file index's query printed: applications, photos and
/// documents, when the trimmed output has exactly three `|`-separated
/// fields (a field that is not a number reads as 0).
pub open spec fn index_sizes(out: Seq<char>) -> Option<(u64, u64, u64)> {
    let parts = split_on(trimmed(out), '|');
    if parts.len() == 3 {
        Some(
            (
                match parse_unsigned(trimmed(parts[0]), u64::MAX as nat) {
                    Some(n) => n as u64,
                    None => 0,
                },
                match parse_unsigned(trimmed(parts[1]), u64::MAX as nat) {
                    Some(n) => n as u64,
                    None => 0,
                },
                match parse_unsigned(trimmed(parts[2]), u64::MAX as nat) {
                    Some(n) => n as u64,
                    None => 0,
                },
            ),
        )
    } else {
        None
    }
}

/// Reads the sizes the file index's query printed (see [`index_sizes`]).
pub fn category_sizes(out: &str) -> (r: Option<(u64, u64, u64)>)
    ensures
        r == index_sizes(out@),
{
    let c = to_chars(out);
    let parts = split_char(trim(c.as_slice()), '|');
    if parts.len() == 3 {
        assert(views(parts@)[0] == parts@[0]@);
        assert(views(parts@)[1] == parts@[1]@);
        assert(views(parts@)[2] == parts@[2]@);
        Some((size_or(trim(parts[0]), 0), size_or(trim(parts[1]), 0), size_or(trim(parts[2]), 0)))
    } else {
        None
    }
}

/// The bytes the system takes: what is used beyond the applications,
/// photos and documents, or nothing when they take more.
pub fn system_bytes(used: u64, apps: u64, photos: u64, docs: u64) -> (r: u64)
    requires
        apps + photos + docs <= u64::MAX,
    ensures
        r == if used >= apps + photos + docs {
            used - (apps + photos + docs)
        } else {
            0
        },
{
    used.saturating_sub(apps + photos + docs)
}

} // verus!
