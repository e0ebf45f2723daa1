//! Platform metadata extraction and normalization.
//!
//! Raw filesystem metadata comes in two native shapes: POSIX timestamps
//! with numeric owner ids, or Windows FILETIME ticks with no ownership
//! concept. Extraction turns either into one platform-independent
//! [`PlatformStat`]; normalization resolves owner ids to names and builds
//! the emitted [`FileRecord`], or signals a skip when identity resolution
//! fails.

use vstd::prelude::*;
use crate::record::{FileRecord, Timestamp, NANOS_PER_SEC};

verus! {

/// FILETIME ticks per second (one tick is 100 ns).
pub const TICKS_PER_SEC: u64 = 10_000_000;

/// Seconds between 1601-01-01 (the FILETIME epoch) and 1970-01-01.
pub const FILETIME_EPOCH_OFFSET_SECS: i64 = 11_644_473_600;

/// Mode bits substituted on platforms without POSIX modes, matching the
/// conventional read-write file permission value.
pub const ANONYMOUS_PERMS: u32 = 644;

/// Metadata as a POSIX stat reports it: three (seconds, nanoseconds)
/// timestamp pairs, numeric owner ids, mode bits and a size.
#[derive(Clone, Copy, PartialEq, Eq, Structural, Debug)]
pub struct PosixMetadata {
    pub atime_sec: i64,
    pub atime_nsec: u32,
    pub mtime_sec: i64,
    pub mtime_nsec: u32,
    pub ctime_sec: i64,
    pub ctime_nsec: u32,
    pub uid: u32,
    pub gid: u32,
    pub mode: u32,
    pub size: u64,
}

impl PosixMetadata {
    /// Nanosecond fields stay below one second.
    pub open spec fn wf(self) -> bool {
        self.atime_nsec < NANOS_PER_SEC && self.mtime_nsec < NANOS_PER_SEC
            && self.ctime_nsec < NANOS_PER_SEC
    }
}

/// Metadata as Windows reports it: three 100-nanosecond tick counts since
/// 1601-01-01 (zero meaning "unknown") and a size. No ownership or mode
/// bits exist.
#[derive(Clone, Copy, PartialEq, Eq, Structural, Debug)]
pub struct WindowsMetadata {
    pub access_ticks: u64,
    pub write_ticks: u64,
    pub creation_ticks: u64,
    pub size: u64,
}

/// One raw metadata snapshot, in whichever native shape the platform
/// produced. Selected once at startup and never mixed within a run.
#[derive(Clone, Copy, PartialEq, Eq, Structural, Debug)]
pub enum RawMetadata {
    Posix(PosixMetadata),
    Windows(WindowsMetadata),
}

impl RawMetadata {
    pub open spec fn wf(self) -> bool {
        match self {
            RawMetadata::Posix(p) => p.wf(),
            RawMetadata::Windows(_) => true,
        }
    }
}

/// Whether a platform reports file ownership, and as what.
#[derive(Clone, Copy, PartialEq, Eq, Structural, Debug)]
pub enum Ownership {
    /// POSIX numeric owner and group ids, still to be resolved to names.
    Posix { uid: u32, gid: u32 },
    /// No ownership concept; `user` and `group` are emitted empty.
    Anonymous,
}

/// The platform-independent intermediate form: normalized timestamps,
/// size, permission bits and the platform's ownership information.
#[derive(Clone, Copy, PartialEq, Eq, Structural, Debug)]
pub struct PlatformStat {
    pub atime: Timestamp,
    pub mtime: Timestamp,
    pub ctime: Timestamp,
    pub size: u64,
    pub perms: u32,
    pub ownership: Ownership,
}

impl PlatformStat {
    pub open spec fn wf(self) -> bool {
        self.atime.wf() && self.mtime.wf() && self.ctime.wf()
    }
}

/// The timestamp a FILETIME tick count denotes: the sentinel for zero
/// ticks, otherwise seconds and nanoseconds relative to the Unix epoch.
pub open spec fn spec_timestamp_of_ticks(ticks: u64) -> Timestamp {
    if ticks == 0 {
        Timestamp { sec: 0, nsec: 0 }
    } else {
        Timestamp {
            sec: ((ticks / (TICKS_PER_SEC as u64)) as i64 - FILETIME_EPOCH_OFFSET_SECS) as i64,
            nsec: ((ticks % (TICKS_PER_SEC as u64)) * 100) as u32,
        }
    }
}

/// Converts Windows FILETIME ticks (100 ns units since 1601-01-01) to a
/// Unix-epoch timestamp. A raw tick value of exactly zero means the
/// filesystem does not know the time; it maps to the `0.0` sentinel, not
/// to the computed 1601 date, and this check comes before the conversion.
pub fn timestamp_of_ticks(ticks: u64) -> (r: Timestamp)
    ensures
        r == spec_timestamp_of_ticks(ticks),
        r.wf(),
        ticks == 0 ==> r.is_sentinel(),
{
    if ticks == 0 {
        Timestamp::unknown()
    } else {
        let whole: u64 = ticks / TICKS_PER_SEC;
        let frac: u64 = (ticks % TICKS_PER_SEC) * 100;
        Timestamp { sec: (whole as i64) - FILETIME_EPOCH_OFFSET_SECS, nsec: frac as u32 }
    }
}

/// The platform-independent stat a raw metadata snapshot extracts to.
pub open spec fn spec_extract(raw: RawMetadata) -> PlatformStat {
    match raw {
        RawMetadata::Posix(p) => PlatformStat {
            atime: Timestamp { sec: p.atime_sec, nsec: p.atime_nsec },
            mtime: Timestamp { sec: p.mtime_sec, nsec: p.mtime_nsec },
            ctime: Timestamp { sec: p.ctime_sec, nsec: p.ctime_nsec },
            size: p.size,
            perms: p.mode,
            ownership: Ownership::Posix { uid: p.uid, gid: p.gid },
        },
        RawMetadata::Windows(w) => PlatformStat {
            atime: spec_timestamp_of_ticks(w.access_ticks),
            mtime: spec_timestamp_of_ticks(w.write_ticks),
            ctime: spec_timestamp_of_ticks(w.creation_ticks),
            size: w.size,
            perms: ANONYMOUS_PERMS,
            ownership: Ownership::Anonymous,
        },
    }
}

/// Extracts a raw snapshot into the platform-independent form: POSIX
/// timestamp pairs pass through exactly; Windows ticks are converted with
/// the zero-tick sentinel rule; mode bits come from the stat on POSIX and
/// are the fixed conventional value on Windows.
pub fn extract(raw: &RawMetadata) -> (r: PlatformStat)
    requires
        raw.wf(),
    ensures
        r == spec_extract(*raw),
        r.wf(),
{
    match raw {
        RawMetadata::Posix(p) => PlatformStat {
            atime: Timestamp { sec: p.atime_sec, nsec: p.atime_nsec },
            mtime: Timestamp { sec: p.mtime_sec, nsec: p.mtime_nsec },
            ctime: Timestamp { sec: p.ctime_sec, nsec: p.ctime_nsec },
            size: p.size,
            perms: p.mode,
            ownership: Ownership::Posix { uid: p.uid, gid: p.gid },
        },
        RawMetadata::Windows(w) => PlatformStat {
            atime: timestamp_of_ticks(w.access_ticks),
            mtime: timestamp_of_ticks(w.write_ticks),
            ctime: timestamp_of_ticks(w.creation_ticks),
            size: w.size,
            perms: ANONYMOUS_PERMS,
            ownership: Ownership::Anonymous,
        },
    }
}

/// Relies on users::get_user_by_uid (getpwuid_r) to look up the user
/// database entry for a numeric id, and on users::User::name for its
/// name. The result depends on the machine's user database, so nothing
/// is promised of it; a name that is not valid Unicode becomes empty.
#[verifier::external_body]
fn user_name_for_uid(uid: u32) -> (r: Option<String>) {
    users::get_user_by_uid(uid).map(|u| u.name().to_str().unwrap_or("").to_string())
}

/// Relies on users::get_group_by_gid (getgrgid_r) to look up the group
/// database entry for a numeric id, and on users::Group::name for its
/// name. The result depends on the machine's group database, so nothing
/// is promised of it; a name that is not valid Unicode becomes empty.
#[verifier::external_body]
fn group_name_for_gid(gid: u32) -> (r: Option<String>) {
    users::get_group_by_gid(gid).map(|g| g.name().to_str().unwrap_or("").to_string())
}

/// The record `r` is the one a file at `path` with stat `stat` normalizes
/// to in a run marked `host`/`fetched`, given owner and group names
/// `user` and `group`.
pub open spec fn is_record_for(
    r: FileRecord,
    path: Seq<char>,
    host: Seq<char>,
    fetched: Seq<char>,
    stat: PlatformStat,
    user: Seq<char>,
    group: Seq<char>,
) -> bool {
    r.file@ == path && r.host@ == host && r.fetched@ == fetched && r.atime == stat.atime
        && r.mtime == stat.mtime && r.ctime == stat.ctime && r.size == stat.size
        && r.perms == stat.perms && r.user@ == user && r.group@ == group
}

/// Builds the record for one file from its extracted stat and the outcome
/// of identity resolution. Where the platform has ownership, both the
/// owner and the group id must have resolved to names, or the whole entry
/// is skipped: partial records are never produced. Where it has none,
/// the record always exists, with empty owner and group names.
pub fn build_record(
    path: String,
    host: String,
    fetched: String,
    stat: PlatformStat,
    user: Option<String>,
    group: Option<String>,
) -> (r: Option<FileRecord>)
    requires
        stat.wf(),
    ensures
        match stat.ownership {
            Ownership::Posix { .. } => match r {
                Some(rec) => user is Some && group is Some && rec.wf() && is_record_for(
                    rec,
                    path@,
                    host@,
                    fetched@,
                    stat,
                    user->0@,
                    group->0@,
                ),
                None => user is None || group is None,
            },
            Ownership::Anonymous => match r {
                Some(rec) => rec.wf() && is_record_for(
                    rec,
                    path@,
                    host@,
                    fetched@,
                    stat,
                    Seq::<char>::empty(),
                    Seq::<char>::empty(),
                ),
                None => false,
            },
        },
{
    match stat.ownership {
        Ownership::Posix { .. } => match (user, group) {
            (Some(u), Some(g)) => Some(
                FileRecord {
                    file: path,
                    host,
                    fetched,
                    atime: stat.atime,
                    mtime: stat.mtime,
                    ctime: stat.ctime,
                    size: stat.size,
                    perms: stat.perms,
                    user: u,
                    group: g,
                },
            ),
            _ => None,
        },
        Ownership::Anonymous => Some(
            FileRecord {
                file: path,
                host,
                fetched,
                atime: stat.atime,
                mtime: stat.mtime,
                ctime: stat.ctime,
                size: stat.size,
                perms: stat.perms,
                user: String::new(),
                group: String::new(),
            },
        ),
    }
}

/// Normalizes one raw filesystem entry: extracts the platform stat,
/// resolves POSIX owner ids to names through the machine's identity
/// database, and builds the record. Returns `None` exactly when an
/// identity fails to resolve, which can only happen for POSIX metadata;
/// whatever the lookups return, an emitted record carries the given path,
/// run constants and extracted stat, never partially filled fields.
pub fn normalize(path: String, host: String, fetched: String, raw: &RawMetadata) -> (r: Option<
    FileRecord,
>)
    requires
        raw.wf(),
    ensures
        match r {
            Some(rec) => rec.wf() && exists|user: Seq<char>, group: Seq<char>|
                is_record_for(rec, path@, host@, fetched@, spec_extract(*raw), user, group),
            None => raw is Posix,
        },
        raw is Windows ==> r is Some,
        raw is Windows && r is Some ==> is_record_for(
            r->0,
            path@,
            host@,
            fetched@,
            spec_extract(*raw),
            Seq::<char>::empty(),
            Seq::<char>::empty(),
        ),
{
    let stat = extract(raw);
    match stat.ownership {
        Ownership::Posix { uid, gid } => {
            let user = user_name_for_uid(uid);
            let group = group_name_for_gid(gid);
            let r = build_record(path, host, fetched, stat, user, group);
            proof {
                if r is Some {
                    let rec = r->0;
                    assert(is_record_for(
                        rec,
                        path@,
                        host@,
                        fetched@,
                        spec_extract(*raw),
                        rec.user@,
                        rec.group@,
                    ));
                }
            }
            r
        },
        Ownership::Anonymous => {
            let r = build_record(path, host, fetched, stat, None, None);
            proof {
                let rec = r->0;
                assert(is_record_for(
                    rec,
                    path@,
                    host@,
                    fetched@,
                    spec_extract(*raw),
                    Seq::<char>::empty(),
                    Seq::<char>::empty(),
                ));
            }
            r
        },
    }
}

/// Emitting is idempotent with respect to input state: two records
/// normalized from the same path and the same extracted stat — a rerun
/// over an unmodified tree — agree on their `file`, `size` and `perms`
/// fields, whatever the run constants were and however identity
/// resolution turned out each time.
pub proof fn lemma_rerun_stable(
    r1: FileRecord,
    r2: FileRecord,
    path: Seq<char>,
    stat: PlatformStat,
    host1: Seq<char>,
    fetched1: Seq<char>,
    user1: Seq<char>,
    group1: Seq<char>,
    host2: Seq<char>,
    fetched2: Seq<char>,
    user2: Seq<char>,
    group2: Seq<char>,
)
    requires
        is_record_for(r1, path, host1, fetched1, stat, user1, group1),
        is_record_for(r2, path, host2, fetched2, stat, user2, group2),
    ensures
        r1.file@ == r2.file@,
        r1.size == r2.size,
        r1.perms == r2.perms,
{
}

} // verus!
