//! The store behind the JSON file: the whole dataset in memory and a dirty
//! flag.
//!
//! Every mutating operation changes the dataset in memory and marks the
//! store dirty. The owner of the store then commits: it asks for the
//! [`CommitPlan`], writes the document of the dataset to the plan's
//! temporary path, renames that file over the target, and reports the
//! outcome. A store that is not dirty has nothing to commit.

use crate::document::Json;
use crate::domain::error::ZessionizerError;
use crate::storage::backend::Storage;
use crate::storage::commit::CommitPlan;
use crate::storage::format::{dataset_of, decode, document_of, encode, lemma_round_trip, Flaw};
use crate::storage::models::{
    clone_records, clone_sessions, ProjectRecord, ProjectRecordView, SessionRecord,
    SessionRecordView,
};
use crate::text::{clone_optional, optional_view};
use vstd::prelude::*;
use vstd::string::StringExecFns;

verus! {

/// The version tag written to a new file.
pub const FORMAT_VERSION: u32 = 1;

/// The dataset as the file holds it.
#[derive(Debug, PartialEq, Eq)]
pub struct StorageData {
    /// Version tag of the format.
    pub version: u32,
    /// The projects, in the order of first insertion.
    pub projects: Vec<ProjectRecord>,
    /// The sessions, in the order of the last synchronisation.
    pub sessions: Vec<SessionRecord>,
}

/// The mathematical value of a [`StorageData`].
pub struct StorageDataView {
    pub version: u32,
    pub projects: Seq<ProjectRecordView>,
    pub sessions: Seq<SessionRecordView>,
}

impl View for StorageData {
    type V = StorageDataView;

    open spec fn view(&self) -> StorageDataView {
        StorageDataView {
            version: self.version,
            projects: self.projects.deep_view(),
            sessions: self.sessions.deep_view(),
        }
    }
}

impl Default for StorageData {
    fn default() -> (data: StorageData)
        ensures
            data@ == (StorageDataView {
                version: FORMAT_VERSION,
                projects: Seq::empty(),
                sessions: Seq::empty(),
            }),
    {
        let data = StorageData { version: 1, projects: Vec::new(), sessions: Vec::new() };
        assert(data.projects.deep_view() =~= Seq::<ProjectRecordView>::empty());
        assert(data.sessions.deep_view() =~= Seq::<SessionRecordView>::empty());
        data
    }
}

impl Clone for StorageData {
    fn clone(&self) -> (copy: Self)
        ensures
            copy@ == self@,
    {
        StorageData {
            version: self.version,
            projects: clone_records(&self.projects),
            sessions: clone_sessions(&self.sessions),
        }
    }
}

/// What reading the file gave.
#[derive(Debug, PartialEq, Eq)]
pub enum LoadOutcome {
    /// There is no file yet.
    Absent,
    /// The file held this JSON document.
    Parsed(Json),
    /// The file or its directory could not be read or created; the text
    /// says why.
    Unreadable(String),
    /// The file does not hold JSON; the text says why.
    Malformed(String),
}

/// The index of the first project with this path.
pub open spec fn position_of(projects: Seq<ProjectRecordView>, path: Seq<char>) -> Option<int>
    decreases projects.len(),
{
    if projects.len() == 0 {
        None
    } else {
        match position_of(projects.drop_last(), path) {
            Some(index) => Some(index),
            None => if projects.last().path == path {
                Some(projects.len() - 1)
            } else {
                None
            },
        }
    }
}

/// The index of the first project with this name.
pub open spec fn first_named(projects: Seq<ProjectRecordView>, name: Seq<char>) -> Option<int>
    decreases projects.len(),
{
    if projects.len() == 0 {
        None
    } else {
        match first_named(projects.drop_last(), name) {
            Some(index) => Some(index),
            None => if projects.last().name == name {
                Some(projects.len() - 1)
            } else {
                None
            },
        }
    }
}

/// Whether no two projects share a path.
pub open spec fn distinct_paths(projects: Seq<ProjectRecordView>) -> bool {
    forall|a: int, b: int|
        0 <= a < b < projects.len() ==> (#[trigger] projects[a]).path != (
        #[trigger] projects[b]).path
}

/// The projects without those whose path occurred before.
pub open spec fn first_of_each_path(projects: Seq<ProjectRecordView>) -> Seq<ProjectRecordView>
    decreases projects.len(),
{
    if projects.len() == 0 {
        Seq::empty()
    } else {
        let before = first_of_each_path(projects.drop_last());
        if position_of(before, projects.last().path) is Some {
            before
        } else {
            before.push(projects.last())
        }
    }
}

/// The identifier of the project at `index`: its position counted from 1,
/// at most `i64::MAX`.
pub open spec fn positional_id(index: int) -> i64 {
    if index < i64::MAX {
        (index + 1) as i64
    } else {
        i64::MAX
    }
}

/// `existing` with name, last access and access count taken from
/// `incoming`.
pub open spec fn overwritten(
    existing: ProjectRecordView,
    incoming: ProjectRecordView,
) -> ProjectRecordView {
    ProjectRecordView {
        name: incoming.name,
        last_accessed: incoming.last_accessed,
        access_count: incoming.access_count,
        ..existing
    }
}

/// `existing` with name and last access taken from `incoming`, and the
/// larger of the two access counts.
pub open spec fn merged(
    existing: ProjectRecordView,
    incoming: ProjectRecordView,
) -> ProjectRecordView {
    ProjectRecordView {
        name: incoming.name,
        last_accessed: incoming.last_accessed,
        access_count: if existing.access_count >= incoming.access_count {
            existing.access_count
        } else {
            incoming.access_count
        },
        ..existing
    }
}

/// The projects after adding `record`: it replaces parts of the project
/// with its path, or comes last.
pub open spec fn with_project(
    projects: Seq<ProjectRecordView>,
    record: ProjectRecordView,
) -> Seq<ProjectRecordView> {
    match position_of(projects, record.path) {
        Some(index) => projects.update(index, overwritten(projects[index], record)),
        None => projects.push(record),
    }
}

/// The record that is stored for `record` of a batch.
pub open spec fn stored_for(
    projects: Seq<ProjectRecordView>,
    record: ProjectRecordView,
) -> ProjectRecordView {
    match position_of(projects, record.path) {
        Some(index) => merged(projects[index], record),
        None => record,
    }
}

/// The projects after one record of a batch.
pub open spec fn with_merged(
    projects: Seq<ProjectRecordView>,
    record: ProjectRecordView,
) -> Seq<ProjectRecordView> {
    match position_of(projects, record.path) {
        Some(index) => projects.update(index, merged(projects[index], record)),
        None => projects.push(record),
    }
}

/// The projects after a whole batch, taken record by record.
pub open spec fn after_batch(
    projects: Seq<ProjectRecordView>,
    batch: Seq<ProjectRecordView>,
) -> Seq<ProjectRecordView>
    decreases batch.len(),
{
    if batch.len() == 0 {
        projects
    } else {
        with_merged(after_batch(projects, batch.drop_last()), batch.last())
    }
}

/// The stored records that a batch reports, one for each of its records,
/// as each was stored at its turn.
pub open spec fn batch_report(
    projects: Seq<ProjectRecordView>,
    batch: Seq<ProjectRecordView>,
) -> Seq<ProjectRecordView>
    decreases batch.len(),
{
    if batch.len() == 0 {
        Seq::empty()
    } else {
        batch_report(projects, batch.drop_last()).push(
            stored_for(after_batch(projects, batch.drop_last()), batch.last()),
        )
    }
}

/// The access count after one more access; it stops at `i32::MAX`.
pub open spec fn one_more(count: i32) -> i32 {
    if count < i32::MAX {
        (count + 1) as i32
    } else {
        i32::MAX
    }
}

/// `record` after an access at `timestamp`.
pub open spec fn accessed(record: ProjectRecordView, timestamp: i64) -> ProjectRecordView {
    ProjectRecordView {
        last_accessed: Some(timestamp),
        access_count: one_more(record.access_count),
        ..record
    }
}

/// The sessions of the live names: for each name, in order, the first
/// project of that name; a name that no project has gives no session.
pub open spec fn paired_sessions(
    projects: Seq<ProjectRecordView>,
    names: Seq<Seq<char>>,
) -> Seq<SessionRecordView>
    decreases names.len(),
{
    if names.len() == 0 {
        Seq::empty()
    } else {
        let before = paired_sessions(projects, names.drop_last());
        match first_named(projects, names.last()) {
            Some(index) => before.push(
                SessionRecordView { name: names.last(), project_path: projects[index].path },
            ),
            None => before,
        }
    }
}

/// The text of the error for a path that is not stored.
pub open spec fn not_found(path: Seq<char>) -> Seq<char> {
    "project not found: "@ + path
}

/// The text of the error for a file that does not hold a dataset.
pub open spec fn parse_failure(reason: Seq<char>) -> Seq<char> {
    "failed to parse JSON: "@ + reason
}

/// Whether a character separates the parts of a path on some system.
pub open spec fn is_path_separator(c: char) -> bool {
    c == '/' || c == '\\'
}

/// Trusted: calls `Path::with_extension` on the path and renders the result
/// as text. Nothing is promised of the result. The function panics for an
/// extension that holds a path separator.
#[verifier::external_body]
fn with_extension(file_path: &str, extension: &str) -> (path: String)
    requires
        forall|k: int| 0 <= k < extension@.len() ==> !is_path_separator(#[trigger] extension@[k]),
{
    std::path::Path::new(file_path).with_extension(extension).to_string_lossy().into_owned()
}

/// The two paths of a store: the file, and the temporary file of its
/// commits, which is always another file.
#[derive(Debug)]
struct StorePaths {
    file_path: String,
    temp_path: String,
}

impl StorePaths {
    #[verifier::type_invariant]
    closed spec fn differ(&self) -> bool {
        self.temp_path@ != self.file_path@
    }

    /// The paths of the store of the file at `file_path`. The temporary
    /// file has the extension `tmp` in place of the file's own; where that
    /// names the file itself, it has `.tmp` behind the whole name.
    fn of(file_path: String) -> (paths: StorePaths)
        ensures
            paths.file_path@ == file_path@,
            paths.temp_path@ != file_path@,
    {
        proof {
            reveal_strlit("tmp");
            reveal_strlit(".tmp");
        }
        let candidate = with_extension(file_path.as_str(), "tmp");
        if candidate == file_path {
            let behind = file_path.clone().concat(".tmp");
            assert(behind@.len() == file_path@.len() + 4);
            StorePaths { file_path, temp_path: behind }
        } else {
            StorePaths { file_path, temp_path: candidate }
        }
    }
}

/// The store: the dataset in memory and whether it has changes that are
/// not on disk.
#[derive(Debug)]
pub struct JsonStorage {
    paths: StorePaths,
    data: StorageData,
    dirty: bool,
}

/// The mathematical value of a [`JsonStorage`].
pub struct JsonStorageView {
    pub file_path: Seq<char>,
    pub temp_path: Seq<char>,
    pub version: u32,
    pub projects: Seq<ProjectRecordView>,
    pub sessions: Seq<SessionRecordView>,
    pub dirty: bool,
}

impl View for JsonStorage {
    type V = JsonStorageView;

    closed spec fn view(&self) -> JsonStorageView {
        JsonStorageView {
            file_path: self.paths.file_path@,
            temp_path: self.paths.temp_path@,
            version: self.data.version,
            projects: self.data.projects.deep_view(),
            sessions: self.data.sessions.deep_view(),
            dirty: self.dirty,
        }
    }
}

/// The identifier of the project at `index`.
fn id_at(index: usize) -> (id: i64)
    ensures
        id == positional_id(index as int),
{
    let position = index as u64;
    if position < 0x7fff_ffff_ffff_ffff {
        (position + 1) as i64
    } else {
        i64::MAX
    }
}

/// What [`position_of`] finds: the first project with the path, or nothing
/// where no project has it.
pub proof fn lemma_position_of(projects: Seq<ProjectRecordView>, path: Seq<char>)
    ensures
        match position_of(projects, path) {
            Some(index) => {
                &&& 0 <= index < projects.len()
                &&& projects[index].path == path
                &&& forall|k: int| 0 <= k < index ==> (#[trigger] projects[k]).path != path
            },
            None => forall|k: int| 0 <= k < projects.len() ==> (#[trigger] projects[k]).path != path,
        },
    decreases projects.len(),
{
    if projects.len() > 0 {
        lemma_position_of(projects.drop_last(), path);
        assert forall|k: int| 0 <= k < projects.len() - 1 implies projects.drop_last()[k]
            == projects[k] by {}
        match position_of(projects.drop_last(), path) {
            Some(index) => {
                assert(projects.drop_last()[index] == projects[index]);
                assert forall|k: int| 0 <= k < index implies (#[trigger] projects[k]).path
                    != path by {
                    assert(projects.drop_last()[k] == projects[k]);
                }
            },
            None => {
                assert forall|k: int| 0 <= k < projects.len() - 1 implies (
                #[trigger] projects[k]).path != path by {
                    assert(projects.drop_last()[k] == projects[k]);
                }
            },
        }
    }
}

/// Where the first project of a name is, if there is one.
pub proof fn lemma_first_named(projects: Seq<ProjectRecordView>, name: Seq<char>)
    ensures
        match first_named(projects, name) {
            Some(index) => {
                &&& 0 <= index < projects.len()
                &&& projects[index].name == name
                &&& forall|k: int| 0 <= k < index ==> (#[trigger] projects[k]).name != name
            },
            None => forall|k: int| 0 <= k < projects.len() ==> (#[trigger] projects[k]).name != name,
        },
    decreases projects.len(),
{
    if projects.len() > 0 {
        lemma_first_named(projects.drop_last(), name);
        match first_named(projects.drop_last(), name) {
            Some(index) => {
                assert(projects.drop_last()[index] == projects[index]);
                assert forall|k: int| 0 <= k < index implies (#[trigger] projects[k]).name
                    != name by {
                    assert(projects.drop_last()[k] == projects[k]);
                }
            },
            None => {
                assert forall|k: int| 0 <= k < projects.len() - 1 implies (
                #[trigger] projects[k]).name != name by {
                    assert(projects.drop_last()[k] == projects[k]);
                }
            },
        }
    }
}

/// The index with the given property is the one that [`position_of`]
/// names.
pub proof fn lemma_position_is(projects: Seq<ProjectRecordView>, path: Seq<char>, index: int)
    requires
        0 <= index < projects.len(),
        projects[index].path == path,
        forall|k: int| 0 <= k < index ==> (#[trigger] projects[k]).path != path,
    ensures
        position_of(projects, path) == Some(index),
{
    lemma_position_of(projects, path);
}

/// No project of the list has the path.
pub proof fn lemma_position_none(projects: Seq<ProjectRecordView>, path: Seq<char>)
    requires
        forall|k: int| 0 <= k < projects.len() ==> (#[trigger] projects[k]).path != path,
    ensures
        position_of(projects, path) is None,
{
    lemma_position_of(projects, path);
}

/// Adding or merging a record keeps the paths distinct: a record with a
/// stored path changes that project in place and adds none.
pub proof fn lemma_upsert_keeps_paths_distinct(
    projects: Seq<ProjectRecordView>,
    record: ProjectRecordView,
)
    requires
        distinct_paths(projects),
    ensures
        distinct_paths(with_project(projects, record)),
        distinct_paths(with_merged(projects, record)),
        position_of(projects, record.path) is Some ==> with_project(projects, record).len()
            == projects.len() && with_merged(projects, record).len() == projects.len(),
        position_of(projects, record.path) is None ==> with_project(projects, record).len()
            == projects.len() + 1 && with_merged(projects, record).len() == projects.len() + 1,
{
    lemma_position_of(projects, record.path);
}

/// Whether every project was accessed at least once.
pub open spec fn counts_positive(projects: Seq<ProjectRecordView>) -> bool {
    forall|k: int| 0 <= k < projects.len() ==> (#[trigger] projects[k]).access_count >= 1
}

/// An access count of at least 1 stays at least 1: adding or merging a
/// record that has one, and recording an access, keep it so.
pub proof fn lemma_counts_stay_positive(
    projects: Seq<ProjectRecordView>,
    record: ProjectRecordView,
    timestamp: i64,
)
    requires
        counts_positive(projects),
        record.access_count >= 1,
    ensures
        counts_positive(with_project(projects, record)),
        counts_positive(with_merged(projects, record)),
        stored_for(projects, record).access_count >= 1,
        forall|index: int|
            0 <= index < projects.len() ==> counts_positive(
                #[trigger] projects.update(index, accessed(projects[index], timestamp)),
            ),
{
    lemma_position_of(projects, record.path);
}

/// A batch of records that were each accessed at least once keeps every
/// access count at least 1, in the store and in what it reports.
pub proof fn lemma_batch_keeps_counts_positive(
    projects: Seq<ProjectRecordView>,
    batch: Seq<ProjectRecordView>,
)
    requires
        counts_positive(projects),
        counts_positive(batch),
    ensures
        counts_positive(after_batch(projects, batch)),
        counts_positive(batch_report(projects, batch)),
    decreases batch.len(),
{
    if batch.len() > 0 {
        let front = batch.drop_last();
        assert forall|k: int| 0 <= k < front.len() implies (#[trigger] front[k]).access_count
            >= 1 by {
            assert(front[k] == batch[k]);
        }
        lemma_batch_keeps_counts_positive(projects, front);
        lemma_counts_stay_positive(after_batch(projects, front), batch.last(), 0);
        let report = batch_report(projects, batch);
        assert forall|k: int| 0 <= k < report.len() implies (#[trigger] report[k]).access_count
            >= 1 by {
            if k < report.len() - 1 {
                assert(report[k] == batch_report(projects, front)[k]);
            }
        }
    }
}

/// A batch keeps the paths distinct.
pub proof fn lemma_batch_keeps_paths_distinct(
    projects: Seq<ProjectRecordView>,
    batch: Seq<ProjectRecordView>,
)
    requires
        distinct_paths(projects),
    ensures
        distinct_paths(after_batch(projects, batch)),
        batch_report(projects, batch).len() == batch.len(),
    decreases batch.len(),
{
    if batch.len() > 0 {
        lemma_batch_keeps_paths_distinct(projects, batch.drop_last());
        lemma_upsert_keeps_paths_distinct(after_batch(projects, batch.drop_last()), batch.last());
    }
}

/// Dropping repeated paths leaves distinct paths.
pub proof fn lemma_first_of_each_path(projects: Seq<ProjectRecordView>)
    ensures
        distinct_paths(first_of_each_path(projects)),
        distinct_paths(projects) ==> first_of_each_path(projects) == projects,
    decreases projects.len(),
{
    if projects.len() > 0 {
        let front = projects.drop_last();
        lemma_first_of_each_path(front);
        let before = first_of_each_path(front);
        lemma_position_of(before, projects.last().path);
        if distinct_paths(projects) {
            assert forall|a: int, b: int| 0 <= a < b < front.len() implies (
            #[trigger] front[a]).path != (#[trigger] front[b]).path by {
                assert(front[a] == projects[a] && front[b] == projects[b]);
            }
            assert(before == front);
            assert forall|k: int| 0 <= k < front.len() implies (#[trigger] front[k]).path
                != projects.last().path by {
                assert(front[k] == projects[k]);
                assert(projects[projects.len() - 1] == projects.last());
            }
            lemma_position_none(before, projects.last().path);
            assert(front.push(projects.last()) =~= projects);
        }
    }
}

/// A store that is written and opened again holds what it held: the
/// document of a dataset without repeated paths reads back as that
/// dataset, record by record and in the same order.
pub proof fn lemma_store_survives_reload(data: StorageDataView)
    requires
        distinct_paths(data.projects),
    ensures
        dataset_of(document_of(data)) == Ok::<StorageDataView, Flaw>(data),
        first_of_each_path(data.projects) == data.projects,
{
    lemma_round_trip(data);
    lemma_first_of_each_path(data.projects);
}

fn find_path(projects: &Vec<ProjectRecord>, path: &str) -> (found: Option<usize>)
    ensures
        match found {
            Some(index) => position_of(projects.deep_view(), path@) == Some(index as int) && index
                < projects.len(),
            None => position_of(projects.deep_view(), path@) is None,
        },
{
    let wanted = String::from_str(path);
    let mut i: usize = 0;
    while i < projects.len()
        invariant
            i <= projects.len(),
            wanted@ == path@,
            forall|k: int| 0 <= k < i ==> (#[trigger] projects.deep_view()[k]).path != path@,
        decreases projects.len() - i,
    {
        if projects[i].path == wanted {
            proof {
                lemma_position_is(projects.deep_view(), path@, i as int);
            }
            return Some(i);
        }
        i += 1;
    }
    proof {
        lemma_position_none(projects.deep_view(), path@);
    }
    None
}

fn find_name(projects: &Vec<ProjectRecord>, name: &String) -> (found: Option<usize>)
    ensures
        match found {
            Some(index) => first_named(projects.deep_view(), name@) == Some(index as int) && index
                < projects.len(),
            None => first_named(projects.deep_view(), name@) is None,
        },
{
    let mut i: usize = 0;
    while i < projects.len()
        invariant
            i <= projects.len(),
            forall|k: int| 0 <= k < i ==> (#[trigger] projects.deep_view()[k]).name != name@,
        decreases projects.len() - i,
    {
        if projects[i].name == *name {
            proof {
                lemma_first_named(projects.deep_view(), name@);
                assert(projects.deep_view()[i as int].name == name@);
            }
            return Some(i);
        }
        i += 1;
    }
    proof {
        lemma_first_named(projects.deep_view(), name@);
    }
    None
}

/// The records without those whose path occurred before.
fn keep_first_of_each_path(records: Vec<ProjectRecord>) -> (kept: Vec<ProjectRecord>)
    ensures
        kept.deep_view() == first_of_each_path(records.deep_view()),
{
    let mut kept: Vec<ProjectRecord> = Vec::new();
    let mut i: usize = 0;
    assert(records.deep_view().take(0) =~= Seq::<ProjectRecordView>::empty());
    assert(kept.deep_view() =~= Seq::<ProjectRecordView>::empty());
    while i < records.len()
        invariant
            i <= records.len(),
            kept.deep_view() == first_of_each_path(records.deep_view().take(i as int)),
        decreases records.len() - i,
    {
        let ghost before = kept.deep_view();
        assert(records.deep_view().take(i + 1).drop_last() =~= records.deep_view().take(i as int));
        assert(records.deep_view().take(i + 1).last() == records@[i as int]@);
        if find_path(&kept, records[i].path.as_str()).is_none() {
            kept.push(records[i].clone());
            assert(kept.deep_view() =~= before.push(records@[i as int]@));
        }
        i += 1;
    }
    assert(records.deep_view().take(records.len() as int) =~= records.deep_view());
    kept
}

impl JsonStorage {
    /// Whether no two stored projects share a path.
    pub open spec fn wf(&self) -> bool {
        distinct_paths(self@.projects)
    }

    /// The path of the temporary file of a commit. It is never the path of
    /// the file itself.
    pub fn temp_path(&self) -> (path: &String)
        ensures
            path@ == self@.temp_path,
            self@.temp_path != self@.file_path,
    {
        proof {
            use_type_invariant(&self.paths);
        }
        &self.paths.temp_path
    }

    /// Opens the store of the file at `file_path` from what reading the
    /// file gave. A missing file gives an empty store. A document gives the
    /// dataset that it holds, and of several projects with one path the
    /// first. A store is clean when it is opened. What cannot be read, is
    /// no JSON or is no dataset is an error.
    pub fn new(file_path: String, outcome: LoadOutcome) -> (result: Result<
        JsonStorage,
        ZessionizerError,
    >)
        ensures
            match outcome {
                LoadOutcome::Absent => result is Ok && result->Ok_0@.version == FORMAT_VERSION
                    && result->Ok_0@.projects == Seq::<ProjectRecordView>::empty()
                    && result->Ok_0@.sessions == Seq::<SessionRecordView>::empty(),
                LoadOutcome::Parsed(document) => match dataset_of(document@) {
                    Ok(data) => result is Ok && result->Ok_0@.version == data.version
                        && result->Ok_0@.projects == first_of_each_path(data.projects)
                        && result->Ok_0@.sessions == data.sessions,
                    Err(flaw) => result is Err && result->Err_0 is Storage
                        && result->Err_0.detail() == parse_failure(flaw.described()),
                },
                LoadOutcome::Unreadable(reason) => result is Err && result->Err_0
                    == ZessionizerError::Io(reason),
                LoadOutcome::Malformed(reason) => result is Err && result->Err_0
                    is Storage && result->Err_0.detail() == parse_failure(reason@),
            },
            result is Ok ==> result->Ok_0@.file_path == file_path@ && result->Ok_0@.temp_path
                != file_path@ && !result->Ok_0@.dirty && result->Ok_0.wf(),
    {
        match outcome {
            LoadOutcome::Absent => {
                Ok(
                    JsonStorage {
                        paths: StorePaths::of(file_path),
                        data: StorageData::default(),
                        dirty: false,
                    },
                )
            },
            LoadOutcome::Parsed(document) => match decode(&document) {
                Ok(data) => {
                    proof {
                        lemma_first_of_each_path(data.projects.deep_view());
                    }
                    let projects = keep_first_of_each_path(data.projects);
                    Ok(
                        JsonStorage {
                            paths: StorePaths::of(file_path),
                            data: StorageData {
                                version: data.version,
                                projects,
                                sessions: data.sessions,
                            },
                            dirty: false,
                        },
                    )
                },
                Err(flaw) => Err(
                    ZessionizerError::Storage(
                        String::from_str("failed to parse JSON: ").concat(flaw.describe()),
                    ),
                ),
            },
            LoadOutcome::Unreadable(reason) => Err(ZessionizerError::Io(reason)),
            LoadOutcome::Malformed(reason) => Err(
                ZessionizerError::Storage(
                    String::from_str("failed to parse JSON: ").concat(reason.as_str()),
                ),
            ),
        }
    }

    /// The dataset as the document that a commit writes.
    pub fn document(&self) -> (document: Json)
        ensures
            document@ == document_of(
                StorageDataView {
                    version: self@.version,
                    projects: self@.projects,
                    sessions: self@.sessions,
                },
            ),
    {
        encode(&self.data)
    }

    /// The path of the file.
    pub fn file_path(&self) -> (path: &String)
        ensures
            path@ == self@.file_path,
    {
        &self.paths.file_path
    }

    /// Whether the dataset has changes that are not on disk.
    pub fn is_dirty(&self) -> (dirty: bool)
        ensures
            dirty == self@.dirty,
    {
        self.dirty
    }

    /// The dataset, as a commit has to write it.
    pub fn data(&self) -> (data: &StorageData)
        ensures
            data@ == (StorageDataView {
                version: self@.version,
                projects: self@.projects,
                sessions: self@.sessions,
            }),
    {
        &self.data
    }

    /// The identifier that the next new project gets.
    pub fn next_project_id(&self) -> (id: i64)
        ensures
            id == positional_id(self@.projects.len() as int),
    {
        id_at(self.data.projects.len())
    }

    /// What there is to commit: nothing for a clean store, else where to
    /// write the dataset.
    pub fn pending_commit(&self) -> (plan: Option<CommitPlan>)
        ensures
            plan is Some == self@.dirty,
            plan is Some ==> plan->0.file_path@ == self@.file_path && plan->0.temp_path@
                == self@.temp_path && plan->0.atomic(),
    {
        proof {
            use_type_invariant(&self.paths);
        }
        if self.dirty {
            Some(
                CommitPlan {
                    temp_path: self.paths.temp_path.clone(),
                    file_path: self.paths.file_path.clone(),
                },
            )
        } else {
            None
        }
    }

    /// Takes note of how a commit ended. After a commit that succeeded the
    /// store is clean; one that failed leaves it as it was, and its error
    /// is handed back.
    pub fn commit_finished(&mut self, outcome: Result<(), ZessionizerError>) -> (result: Result<
        (),
        ZessionizerError,
    >)
        ensures
            result == outcome,
            match outcome {
                Ok(_) => final(self)@ == (JsonStorageView { dirty: false, ..old(self)@ }),
                Err(_) => final(self)@ == old(self)@,
            },
            old(self).wf() ==> final(self).wf(),
    {
        match outcome {
            Ok(done) => {
                self.dirty = false;
                Ok(done)
            },
            Err(error) => Err(error),
        }
    }
}

fn to_records(projects: &[ProjectRecord]) -> (records: Vec<ProjectRecord>)
    ensures
        records.deep_view() == projects@.map_values(|r: ProjectRecord| r@),
{
    let mut records: Vec<ProjectRecord> = Vec::new();
    let mut i: usize = 0;
    while i < projects.len()
        invariant
            i <= projects.len(),
            records.len() == i,
            forall|k: int| 0 <= k < i ==> records@[k]@ == projects@[k]@,
        decreases projects.len() - i,
    {
        records.push(projects[i].clone());
        i += 1;
    }
    assert(records.deep_view() =~= projects@.map_values(|r: ProjectRecord| r@));
    records
}

impl Storage for JsonStorage {
    /// Adds the project, or overwrites name, last access and access count
    /// of the one stored under its path. Returns its position, counted
    /// from 1. The store is dirty afterwards.
    fn add_project(&mut self, project: &ProjectRecord) -> (result: Result<i64, ZessionizerError>)
        ensures
            result is Ok,
            final(self)@ == (JsonStorageView {
                projects: with_project(old(self)@.projects, project@),
                dirty: true,
                ..old(self)@
            }),
            result->Ok_0 == positional_id(
                match position_of(old(self)@.projects, project@.path) {
                    Some(index) => index,
                    None => old(self)@.projects.len() as int,
                },
            ),
            old(self).wf() ==> final(self).wf(),
    {
        proof {
            lemma_position_of(self@.projects, project@.path);
            if self.wf() {
                lemma_upsert_keeps_paths_distinct(self@.projects, project@);
            }
        }
        let ghost before = self.data.projects.deep_view();
        let id = match find_path(&self.data.projects, project.path.as_str()) {
            Some(index) => {
                let existing = &self.data.projects[index];
                let updated = ProjectRecord {
                    path: existing.path.clone(),
                    name: project.name.clone(),
                    last_accessed: project.last_accessed,
                    access_count: project.access_count,
                    created_at: existing.created_at,
                    layout: clone_optional(&existing.layout),
                };
                self.data.projects.set(index, updated);
                assert(self.data.projects.deep_view() =~= before.update(
                    index as int,
                    overwritten(before[index as int], project@),
                ));
                id_at(index)
            },
            None => {
                let id = id_at(self.data.projects.len());
                self.data.projects.push(project.clone());
                assert(self.data.projects.deep_view() =~= before.push(project@));
                id
            },
        };
        self.dirty = true;
        Ok(id)
    }

    /// Adds or merges every project of the batch, record by record: a
    /// project with a stored path gets the name and last access of the
    /// batch and the larger access count; another is added. Returns the
    /// stored records, one for each record of the batch. The store is dirty
    /// afterwards.
    fn add_projects_batch(&mut self, projects: &[ProjectRecord]) -> (result: Result<
        Vec<ProjectRecord>,
        ZessionizerError,
    >)
        ensures
            result is Ok,
            final(self)@ == (JsonStorageView {
                projects: after_batch(
                    old(self)@.projects,
                    projects@.map_values(|r: ProjectRecord| r@),
                ),
                dirty: true,
                ..old(self)@
            }),
            result->Ok_0.deep_view() == batch_report(
                old(self)@.projects,
                projects@.map_values(|r: ProjectRecord| r@),
            ),
            old(self).wf() ==> final(self).wf(),
    {
        let batch = to_records(projects);
        let ghost start = self.data.projects.deep_view();
        let ghost views = batch.deep_view();
        let mut added: Vec<ProjectRecord> = Vec::new();
        let mut i: usize = 0;
        assert(views.take(0) =~= Seq::<ProjectRecordView>::empty());
        assert(added.deep_view() =~= Seq::<ProjectRecordView>::empty());
        while i < batch.len()
            invariant
                i <= batch.len(),
                views == batch.deep_view(),
                self.data.projects.deep_view() == after_batch(start, views.take(i as int)),
                added.deep_view() == batch_report(start, views.take(i as int)),
                self.paths == old(self).paths,
                self.data.version == old(self).data.version,
                self.data.sessions == old(self).data.sessions,
            decreases batch.len() - i,
        {
            let ghost before = self.data.projects.deep_view();
            let ghost reported = added.deep_view();
            assert(views.take(i + 1).drop_last() =~= views.take(i as int));
            assert(views.take(i + 1).last() == batch@[i as int]@);
            let incoming = &batch[i];
            match find_path(&self.data.projects, incoming.path.as_str()) {
                Some(index) => {
                    let existing = &self.data.projects[index];
                    let count = if existing.access_count >= incoming.access_count {
                        existing.access_count
                    } else {
                        incoming.access_count
                    };
                    let updated = ProjectRecord {
                        path: existing.path.clone(),
                        name: incoming.name.clone(),
                        last_accessed: incoming.last_accessed,
                        access_count: count,
                        created_at: existing.created_at,
                        layout: clone_optional(&existing.layout),
                    };
                    added.push(updated.clone());
                    self.data.projects.set(index, updated);
                    assert(self.data.projects.deep_view() =~= before.update(
                        index as int,
                        merged(before[index as int], incoming@),
                    ));
                    assert(added.deep_view() =~= reported.push(
                        merged(before[index as int], incoming@),
                    ));
                },
                None => {
                    self.data.projects.push(incoming.clone());
                    added.push(incoming.clone());
                    assert(self.data.projects.deep_view() =~= before.push(incoming@));
                    assert(added.deep_view() =~= reported.push(incoming@));
                },
            }
            i += 1;
        }
        assert(views.take(batch.len() as int) =~= views);
        proof {
            if old(self).wf() {
                lemma_batch_keeps_paths_distinct(start, views);
            }
        }
        self.dirty = true;
        Ok(added)
    }

    /// A copy of every stored project, in the order of first insertion.
    fn get_all_projects(&self) -> (result: Result<Vec<ProjectRecord>, ZessionizerError>)
        ensures
            result is Ok,
            result->Ok_0.deep_view() == self@.projects,
    {
        Ok(clone_records(&self.data.projects))
    }

    /// Sets the last access of the project at `path` to `timestamp` and
    /// counts one more access, up to `i32::MAX`. Fails, and changes
    /// nothing, where no project is stored under `path`.
    fn update_project_access(&mut self, path: &str, timestamp: i64) -> (result: Result<
        (),
        ZessionizerError,
    >)
        ensures
            match position_of(old(self)@.projects, path@) {
                Some(index) => result is Ok && final(self)@ == (JsonStorageView {
                    projects: old(self)@.projects.update(
                        index,
                        accessed(old(self)@.projects[index], timestamp),
                    ),
                    dirty: true,
                    ..old(self)@
                }),
                None => result is Err && result->Err_0 is Storage && result->Err_0.detail()
                    == not_found(path@) && final(self)@ == old(self)@,
            },
            old(self).wf() ==> final(self).wf(),
    {
        proof {
            lemma_position_of(self@.projects, path@);
        }
        let ghost before = self.data.projects.deep_view();
        match find_path(&self.data.projects, path) {
            Some(index) => {
                let existing = &self.data.projects[index];
                let count = if existing.access_count < i32::MAX {
                    existing.access_count + 1
                } else {
                    i32::MAX
                };
                let updated = ProjectRecord {
                    path: existing.path.clone(),
                    name: existing.name.clone(),
                    last_accessed: Some(timestamp),
                    access_count: count,
                    created_at: existing.created_at,
                    layout: clone_optional(&existing.layout),
                };
                self.data.projects.set(index, updated);
                assert(self.data.projects.deep_view() =~= before.update(
                    index as int,
                    accessed(before[index as int], timestamp),
                ));
                self.dirty = true;
                Ok(())
            },
            None => Err(
                ZessionizerError::Storage(String::from_str("project not found: ").concat(path)),
            ),
        }
    }

    /// A copy of the project stored under `path`, if any.
    fn get_project_by_path(&self, path: &str) -> (result: Result<
        Option<ProjectRecord>,
        ZessionizerError,
    >)
        ensures
            result is Ok,
            match position_of(self@.projects, path@) {
                Some(index) => result->Ok_0 is Some && result->Ok_0->0@ == self@.projects[index],
                None => result->Ok_0 is None,
            },
    {
        match find_path(&self.data.projects, path) {
            Some(index) => Ok(Some(self.data.projects[index].clone())),
            None => Ok(None),
        }
    }

    /// A copy of every stored session.
    fn get_all_sessions(&self) -> (result: Result<Vec<SessionRecord>, ZessionizerError>)
        ensures
            result is Ok,
            result->Ok_0.deep_view() == self@.sessions,
    {
        Ok(clone_sessions(&self.data.sessions))
    }

    /// Replaces the stored sessions: for each live name, in order, one
    /// session that pairs it with the first project of that name. A name
    /// that no project has is dropped. The store is dirty afterwards.
    fn sync_sessions(&mut self, active_session_names: &[String]) -> (result: Result<
        (),
        ZessionizerError,
    >)
        ensures
            result is Ok,
            final(self)@ == (JsonStorageView {
                sessions: paired_sessions(
                    old(self)@.projects,
                    active_session_names@.map_values(|n: String| n@),
                ),
                dirty: true,
                ..old(self)@
            }),
            old(self).wf() ==> final(self).wf(),
    {
        let ghost names = active_session_names@.map_values(|n: String| n@);
        let mut sessions: Vec<SessionRecord> = Vec::new();
        let mut i: usize = 0;
        assert(names.take(0) =~= Seq::<Seq<char>>::empty());
        assert(sessions.deep_view() =~= Seq::<SessionRecordView>::empty());
        while i < active_session_names.len()
            invariant
                i <= active_session_names.len(),
                names == active_session_names@.map_values(|n: String| n@),
                sessions.deep_view() == paired_sessions(
                    self.data.projects.deep_view(),
                    names.take(i as int),
                ),
            decreases active_session_names.len() - i,
        {
            let ghost before = sessions.deep_view();
            assert(names.take(i + 1).drop_last() =~= names.take(i as int));
            assert(names.take(i + 1).last() == active_session_names@[i as int]@);
            let name = &active_session_names[i];
            match find_name(&self.data.projects, name) {
                Some(index) => {
                    sessions.push(
                        SessionRecord {
                            name: name.clone(),
                            project_path: self.data.projects[index].path.clone(),
                        },
                    );
                    assert(sessions.deep_view() =~= before.push(
                        SessionRecordView {
                            name: name@,
                            project_path: self.data.projects.deep_view()[index as int].path,
                        },
                    ));
                },
                None => {},
            }
            i += 1;
        }
        assert(names.take(active_session_names.len() as int) =~= names);
        self.data.sessions = sessions;
        self.dirty = true;
        Ok(())
    }

    /// Sets the layout of the project at `path`, or clears it with `None`.
    /// Fails, and changes nothing, where no project is stored under `path`.
    fn update_project_layout(&mut self, path: &str, layout: Option<String>) -> (result: Result<
        (),
        ZessionizerError,
    >)
        ensures
            match position_of(old(self)@.projects, path@) {
                Some(index) => result is Ok && final(self)@ == (JsonStorageView {
                    projects: old(self)@.projects.update(
                        index,
                        ProjectRecordView {
                            layout: optional_view(layout),
                            ..old(self)@.projects[index]
                        },
                    ),
                    dirty: true,
                    ..old(self)@
                }),
                None => result is Err && result->Err_0 is Storage && result->Err_0.detail()
                    == not_found(path@) && final(self)@ == old(self)@,
            },
            old(self).wf() ==> final(self).wf(),
    {
        proof {
            lemma_position_of(self@.projects, path@);
        }
        let ghost before = self.data.projects.deep_view();
        match find_path(&self.data.projects, path) {
            Some(index) => {
                let existing = &self.data.projects[index];
                let updated = ProjectRecord {
                    path: existing.path.clone(),
                    name: existing.name.clone(),
                    last_accessed: existing.last_accessed,
                    access_count: existing.access_count,
                    created_at: existing.created_at,
                    layout,
                };
                self.data.projects.set(index, updated);
                assert(self.data.projects.deep_view() =~= before.update(
                    index as int,
                    ProjectRecordView { layout: optional_view(layout), ..before[index as int] },
                ));
                self.dirty = true;
                Ok(())
            },
            None => Err(
                ZessionizerError::Storage(String::from_str("project not found: ").concat(path)),
            ),
        }
    }
}

} // verus!
