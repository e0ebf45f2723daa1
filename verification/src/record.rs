//! The normalized, platform-independent metadata unit emitted per regular
//! file, and the exact timestamp representation it carries.

use vstd::prelude::*;

verus! {

/// Nanoseconds per second; fractional parts of a timestamp lie below this.
pub const NANOS_PER_SEC: u32 = 1_000_000_000;

/// A point in time as exact integer seconds and nanoseconds since the Unix
/// epoch. Seconds may be negative for pre-1970 dates; the all-zero value
/// doubles as the sentinel for "timestamp unknown to the filesystem", which
/// serializes as `0.0`.
#[derive(Clone, Copy, PartialEq, Eq, Structural, Debug)]
pub struct Timestamp {
    pub sec: i64,
    pub nsec: u32,
}

impl Timestamp {
    /// The nanosecond field stays below one second.
    pub open spec fn wf(self) -> bool {
        self.nsec < NANOS_PER_SEC
    }

    /// The represented instant, in whole nanoseconds since the epoch.
    pub open spec fn total_nanos(self) -> int {
        self.sec * (NANOS_PER_SEC as int) + self.nsec
    }

    /// The sentinel for "the filesystem does not record this timestamp".
    pub open spec fn is_sentinel(self) -> bool {
        self.sec == 0 && self.nsec == 0
    }

    /// The sentinel timestamp, serialized as `0.0`.
    pub fn unknown() -> (r: Timestamp)
        ensures
            r.is_sentinel(),
            r.wf(),
    {
        Timestamp { sec: 0, nsec: 0 }
    }
}

/// The unit of output: one fully populated record per emitted regular file.
/// Directories and the `.`/`..` pseudo-entries are never emitted.
pub struct FileRecord {
    /// Path of the file, as discovered under the given roots.
    pub file: String,
    /// Hostname of the scanning machine; identical across one run.
    pub host: String,
    /// Timestamp string marking when the scan began; identical across one run.
    pub fetched: String,
    /// Last access time.
    pub atime: Timestamp,
    /// Last modification time.
    pub mtime: Timestamp,
    /// Change (POSIX) or creation (Windows) time.
    pub ctime: Timestamp,
    /// File size in bytes.
    pub size: u64,
    /// Permission/mode bits; a fixed conventional value on platforms
    /// without POSIX modes.
    pub perms: u32,
    /// Owner name; empty where the platform has no ownership concept.
    pub user: String,
    /// Group name; empty where the platform has no ownership concept.
    pub group: String,
}

impl FileRecord {
    /// All timestamps carried by the record are well formed.
    pub open spec fn wf(self) -> bool {
        self.atime.wf() && self.mtime.wf() && self.ctime.wf()
    }
}

} // verus!
