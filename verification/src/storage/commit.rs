//! The atomic commit.
//!
//! A commit writes the whole dataset to a temporary file beside the target
//! and then renames the temporary file over the target. The rename is one
//! step for the file system, so the target always holds a complete
//! snapshot: the previous one until the rename, the new one after it. A
//! crash while the temporary file is written leaves a partial temporary
//! file and an untouched target.

use vstd::prelude::*;

verus! {

/// Where a commit writes: first to the temporary path, then, by renaming,
/// to the file itself.
#[derive(Debug, PartialEq, Eq)]
pub struct CommitPlan {
    pub temp_path: String,
    pub file_path: String,
}

impl CommitPlan {
    /// Whether the commit is atomic: the temporary file is another file
    /// than the target.
    pub open spec fn atomic(self) -> bool {
        self.temp_path@ != self.file_path@
    }

    /// Whether the commit is atomic.
    pub fn is_atomic(&self) -> (atomic: bool)
        ensures
            atomic == self.atomic(),
    {
        self.temp_path != self.file_path
    }
}

/// What is on disk, by path.
pub type Disk = Map<Seq<char>, Seq<char>>;

/// How far a commit got.
pub enum CommitProgress {
    /// Nothing was written yet.
    NotStarted,
    /// The temporary file is being written and holds `written` so far.
    WritingTemp { written: Seq<char> },
    /// The temporary file is complete; the rename has not happened.
    TempWritten,
    /// The temporary file was renamed over the target.
    Renamed,
}

/// The disk when a commit of `contents` from `disk` got as far as
/// `progress`.
pub open spec fn disk_at(
    disk: Disk,
    temp_path: Seq<char>,
    file_path: Seq<char>,
    contents: Seq<char>,
    progress: CommitProgress,
) -> Disk {
    match progress {
        CommitProgress::NotStarted => disk,
        CommitProgress::WritingTemp { written } => disk.insert(temp_path, written),
        CommitProgress::TempWritten => disk.insert(temp_path, contents),
        CommitProgress::Renamed => disk.insert(temp_path, contents).remove(temp_path).insert(
            file_path,
            contents,
        ),
    }
}

/// A commit interrupted at any point before the rename leaves the target
/// as it was; after the rename the target holds the new snapshot whole.
/// This needs the temporary path to differ from the target.
pub proof fn lemma_commit_is_atomic(
    disk: Disk,
    temp_path: Seq<char>,
    file_path: Seq<char>,
    contents: Seq<char>,
    progress: CommitProgress,
)
    requires
        temp_path != file_path,
    ensures
        ({
            let now = disk_at(disk, temp_path, file_path, contents, progress);
            if progress is Renamed {
                now.contains_key(file_path) && now[file_path] == contents
            } else {
                now.contains_key(file_path) == disk.contains_key(file_path) && (disk.contains_key(
                    file_path,
                ) ==> now[file_path] == disk[file_path])
            }
        }),
{
}

} // verus!
