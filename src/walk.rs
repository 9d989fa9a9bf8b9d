//! The tree walker's decisions: what to do with each directory entry, and
//! what one scan has observed so far.

use vstd::prelude::*;
use crate::keyset::KeySet;

verus! {

/// What a directory entry is, as the filesystem reports it (a symbolic link
/// is reported by what it points to).
#[derive(Clone, Copy, Debug, PartialEq, Eq, Structural)]
pub enum EntryKind {
    Directory,
    SymlinkToDirectory,
    SymlinkToOther,
    RegularFile,
    Other,
}

/// What the walker does with an entry.
#[derive(Clone, Copy, Debug, PartialEq, Eq, Structural)]
pub enum EntryAction {
    /// Walk into it.
    Descend,
    /// Hand it to the extractor.
    Extract,
    /// Leave it alone.
    Skip,
}

/// The extension of description files, with its dot: `.txt`.
pub open spec fn description_suffix() -> Seq<u8> {
    seq![46u8, 116u8, 120u8, 116u8]
}

/// Whether a file name has the extension `txt`: it ends with `.txt` and has
/// something before that dot (a name such as `.txt` has no extension).
pub open spec fn is_description_name(name: Seq<u8>) -> bool {
    name.len() > 4 && name.subrange(name.len() - 4, name.len() as int) == description_suffix()
}

/// The walker's decision for an entry with the given kind and file name.
pub open spec fn entry_action_spec(kind: EntryKind, name: Seq<u8>) -> EntryAction {
    match kind {
        EntryKind::Directory | EntryKind::SymlinkToDirectory => EntryAction::Descend,
        EntryKind::RegularFile => if is_description_name(name) {
            EntryAction::Extract
        } else {
            EntryAction::Skip
        },
        _ => EntryAction::Skip,
    }
}

/// Whether a file name marks a song description file.
pub fn is_description_file_name(name: &Vec<u8>) -> (r: bool)
    ensures
        r == is_description_name(name@),
{
    let n = name.len();
    if n <= 4 {
        return false;
    }
    let r = name[n - 4] == 46u8 && name[n - 3] == 116u8 && name[n - 2] == 120u8 && name[n - 1]
        == 116u8;
    assert(r == (name@.subrange(n - 4, n as int) =~= description_suffix()));
    r
}

/// Decides what to do with a directory entry: directories, and links to
/// directories, are walked into; regular files named `*.txt` are extracted;
/// everything else is skipped.
pub fn entry_action(kind: EntryKind, name: &Vec<u8>) -> (r: EntryAction)
    ensures
        r == entry_action_spec(kind, name@),
{
    match kind {
        EntryKind::Directory | EntryKind::SymlinkToDirectory => EntryAction::Descend,
        EntryKind::RegularFile => if is_description_file_name(name) {
            EntryAction::Extract
        } else {
            EntryAction::Skip
        },
        _ => EntryAction::Skip,
    }
}

/// What one scan has gathered: the keys whose record was extracted and
/// written, the number of files that failed extraction, and the number of
/// writes that did not report exactly one affected row.
pub struct ScanState {
    observed: KeySet,
    failures: usize,
    write_warnings: usize,
}

impl ScanState {
    /// The keys observed so far.
    pub closed spec fn observed_keys(&self) -> Set<Seq<u8>> {
        self.observed@
    }

    /// The number of failed extractions so far.
    pub closed spec fn failure_count(&self) -> nat {
        self.failures as nat
    }

    /// The number of writes that went wrong so far.
    pub closed spec fn warning_count(&self) -> nat {
        self.write_warnings as nat
    }

    /// The observed key set is well formed.
    pub closed spec fn wf(&self) -> bool {
        self.observed.wf()
    }

    /// A scan that has seen nothing.
    pub fn new() -> (r: ScanState)
        ensures
            r.wf(),
            r.observed_keys() == Set::<Seq<u8>>::empty(),
            r.failure_count() == 0,
            r.warning_count() == 0,
    {
        ScanState { observed: KeySet::new(), failures: 0, write_warnings: 0 }
    }

    /// Notes a file whose extraction failed: it adds no key. The count stops
    /// at the largest `usize`.
    pub fn record_failure(&mut self)
        requires
            old(self).wf(),
        ensures
            final(self).wf(),
            final(self).observed_keys() == old(self).observed_keys(),
            final(self).warning_count() == old(self).warning_count(),
            final(self).failure_count() == if old(self).failure_count() < usize::MAX {
                old(self).failure_count() + 1
            } else {
                old(self).failure_count()
            },
    {
        if self.failures < usize::MAX {
            self.failures = self.failures + 1;
        }
    }

    /// Notes the write of the record stored under `key`, which affected
    /// `changes` rows. The key is observed only when exactly one row was
    /// written; otherwise a warning is counted (stopping at the largest
    /// `usize`). Returns whether the key was observed.
    pub fn record_write(&mut self, key: Vec<u8>, changes: usize) -> (r: bool)
        requires
            old(self).wf(),
        ensures
            final(self).wf(),
            r == (changes == 1),
            final(self).failure_count() == old(self).failure_count(),
            r ==> final(self).observed_keys() == old(self).observed_keys().insert(key@),
            r ==> final(self).warning_count() == old(self).warning_count(),
            !r ==> final(self).observed_keys() == old(self).observed_keys(),
            !r ==> final(self).warning_count() == if old(self).warning_count() < usize::MAX {
                old(self).warning_count() + 1
            } else {
                old(self).warning_count()
            },
    {
        if changes == 1 {
            self.observed.insert(key);
            true
        } else {
            if self.write_warnings < usize::MAX {
                self.write_warnings = self.write_warnings + 1;
            }
            false
        }
    }

    /// The keys observed so far.
    pub fn observed(&self) -> (r: &KeySet)
        requires
            self.wf(),
        ensures
            r.wf(),
            r@ == self.observed_keys(),
    {
        &self.observed
    }

    /// The number of failed extractions so far.
    pub fn failures(&self) -> (r: usize)
        ensures
            r == self.failure_count(),
    {
        self.failures
    }

    /// The number of writes that went wrong so far.
    pub fn write_warnings(&self) -> (r: usize)
        ensures
            r == self.warning_count(),
    {
        self.write_warnings
    }
}

} // verus!
