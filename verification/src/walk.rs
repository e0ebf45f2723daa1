//! The traversal engine's state machine.
//!
//! A [`Walker`] owns the work queue of pending directory paths and the
//! run constants. The caller performs the filesystem work it cannot:
//! it pops one directory at a time, lists its children, and hands each
//! child back to [`Walker::process_child`], which decides whether the
//! child is filtered, enqueued for later expansion, or normalized into
//! an emitted record.
//!
//! The queue is a double-ended sequence used with push-back and
//! pop-back, a stack discipline, so traversal order is depth-first-like
//! and deterministic. A directory whose listing fails is simply never
//! fed back, and the walk continues with the next queued path; a child
//! whose metadata cannot be read is skipped by not being handed in at
//! all. Both are silent, per-entry best-effort policies.

use vstd::prelude::*;
use crate::meta::{is_record_for, normalize, spec_extract, RawMetadata};
use crate::record::FileRecord;

verus! {

/// A child's metadata snapshot: whether it is a directory, and the raw
/// platform stat, fetched once and reused for both the directory check
/// and the record fields.
#[derive(Clone, Copy, PartialEq, Eq, Structural, Debug)]
pub struct EntryMeta {
    pub is_dir: bool,
    pub stat: RawMetadata,
}

/// What the traversal engine did with one child entry.
pub enum ChildAction {
    /// Filtered (a `.`/`..` pseudo-entry), failed identity resolution,
    /// or otherwise dropped; nothing was emitted or enqueued.
    Skipped,
    /// A subdirectory: its path went onto the work queue, to be expanded
    /// later; directories themselves are never emitted.
    Enqueued,
    /// A regular file that normalized fully: the record to emit.
    Emit(FileRecord),
}

/// An entry name is the `.` or `..` pseudo-entry.
pub open spec fn is_dot_name(name: Seq<char>) -> bool {
    (name.len() == 1 && name[0] == '.') || (name.len() == 2 && name[0] == '.' && name[1] == '.')
}

/// Tests a child's name against the `.`/`..` filter.
pub fn dot_name(name: &str) -> (r: bool)
    ensures
        r == is_dot_name(name@),
{
    let len = name.unicode_len();
    if len == 1 {
        name.get_char(0) == '.'
    } else if len == 2 {
        name.get_char(0) == '.' && name.get_char(1) == '.'
    } else {
        false
    }
}

/// The traversal engine's state: the work queue of pending directory
/// paths and the run constants stamped into every record.
pub struct Walker {
    queue: Vec<String>,
    host: String,
    fetched: String,
}

impl Walker {
    /// The pending directory paths, oldest first; the back is both the
    /// push and the pop end.
    pub closed spec fn queue(self) -> Seq<String> {
        self.queue@
    }

    /// The run's hostname, identical across all its records.
    pub closed spec fn host(self) -> Seq<char> {
        self.host@
    }

    /// The run's scan-start timestamp string, identical across all its
    /// records.
    pub closed spec fn fetched(self) -> Seq<char> {
        self.fetched@
    }

    /// Starts a walk over the given roots. Duplicate or overlapping
    /// roots are kept as given: each is processed independently.
    pub fn new(roots: Vec<String>, host: String, fetched: String) -> (w: Walker)
        ensures
            w.queue() == roots@,
            w.host() == host@,
            w.fetched() == fetched@,
    {
        Walker { queue: roots, host, fetched }
    }

    /// Takes the next directory to list, from the back of the queue;
    /// `None` once the queue has drained, which ends the walk.
    pub fn next_directory(&mut self) -> (r: Option<String>)
        ensures
            final(self).host() == old(self).host(),
            final(self).fetched() == old(self).fetched(),
            old(self).queue().len() == 0 ==> r is None && final(self).queue() == old(self).queue(),
            old(self).queue().len() > 0 ==> r == Some(old(self).queue().last())
                && final(self).queue() == old(self).queue().drop_last(),
    {
        self.queue.pop()
    }

    /// Decides one child entry. The `.`/`..` pseudo-entries are filtered
    /// before anything else, so they are never emitted and never
    /// requeued. A directory is enqueued at the back, never emitted. A
    /// regular file is normalized: it is emitted exactly when it builds
    /// a full record, which for POSIX metadata requires both identities
    /// to resolve, and an emitted record carries this walk's run
    /// constants, the child's path and its extracted stat.
    pub fn process_child(&mut self, name: &str, path: String, meta: &EntryMeta) -> (a: ChildAction)
        requires
            meta.stat.wf(),
        ensures
            final(self).host() == old(self).host(),
            final(self).fetched() == old(self).fetched(),
            is_dot_name(name@) ==> a is Skipped && final(self).queue() == old(self).queue(),
            !is_dot_name(name@) && meta.is_dir ==> a is Enqueued
                && final(self).queue() == old(self).queue().push(path),
            !is_dot_name(name@) && !meta.is_dir ==> final(self).queue() == old(self).queue()
                && !(a is Enqueued),
            !is_dot_name(name@) && !meta.is_dir ==> match a {
                ChildAction::Emit(rec) => rec.wf() && exists|user: Seq<char>, group: Seq<char>|
                    is_record_for(
                        rec,
                        path@,
                        old(self).host(),
                        old(self).fetched(),
                        spec_extract(meta.stat),
                        user,
                        group,
                    ),
                ChildAction::Skipped => meta.stat is Posix,
                ChildAction::Enqueued => false,
            },
            !is_dot_name(name@) && !meta.is_dir && meta.stat is Windows ==> a is Emit,
    {
        if dot_name(name) {
            ChildAction::Skipped
        } else if meta.is_dir {
            self.queue.push(path);
            ChildAction::Enqueued
        } else {
            let host = self.host.clone();
            let fetched = self.fetched.clone();
            match normalize(path, host, fetched, &meta.stat) {
                Some(rec) => ChildAction::Emit(rec),
                None => ChildAction::Skipped,
            }
        }
    }
}

/// One child entry of a run, summarized for counting: its name, whether
/// its metadata marks a directory, and how identity resolution went for
/// it, mirroring what [`Walker::process_child`]'s contract decides on.
pub struct ChildSummary {
    pub name: Seq<char>,
    pub is_dir: bool,
    pub posix_ownership: bool,
    pub user_resolves: bool,
    pub group_resolves: bool,
}

impl ChildSummary {
    /// A child that is neither a `.`/`..` pseudo-entry nor a directory.
    pub open spec fn is_regular_file(self) -> bool {
        !is_dot_name(self.name) && !self.is_dir
    }

    /// Identity resolution succeeds: either the platform has no
    /// ownership, or both the owner and the group id resolve to names.
    pub open spec fn resolves(self) -> bool {
        self.posix_ownership ==> (self.user_resolves && self.group_resolves)
    }

    /// The child is emitted: a regular file whose identities resolve,
    /// exactly as [`Walker::process_child`] decides.
    pub open spec fn emits(self) -> bool {
        self.is_regular_file() && self.resolves()
    }
}

/// How many of the children handed to a walk are emitted.
pub open spec fn emit_count(s: Seq<ChildSummary>) -> nat
    decreases s.len(),
{
    if s.len() == 0 {
        0
    } else {
        emit_count(s.drop_last()) + if s.last().emits() {
            1nat
        } else {
            0nat
        }
    }
}

/// How many of the children handed to a walk are regular files.
pub open spec fn regular_file_count(s: Seq<ChildSummary>) -> nat
    decreases s.len(),
{
    if s.len() == 0 {
        0
    } else {
        regular_file_count(s.drop_last()) + if s.last().is_regular_file() {
            1nat
        } else {
            0nat
        }
    }
}

/// For any well-formed tree holding only regular files and directories,
/// when every identity resolves successfully, the number of emitted
/// records equals the number of regular files the traversal reaches:
/// each reachable regular file is handed to `process_child` exactly
/// once, and each emits exactly one record.
pub proof fn lemma_emit_count_complete(s: Seq<ChildSummary>)
    requires
        forall|i: int| 0 <= i < s.len() ==> (#[trigger] s[i]).resolves(),
    ensures
        emit_count(s) == regular_file_count(s),
    decreases s.len(),
{
    if s.len() > 0 {
        let pre = s.drop_last();
        assert(forall|i: int| 0 <= i < pre.len() ==> pre[i] == s[i]);
        lemma_emit_count_complete(pre);
        assert(s.last().resolves());
    }
}

} // verus!
