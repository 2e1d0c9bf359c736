//! The worker of the background context.
//!
//! The worker owns the store. It serves one request at a time, in two
//! steps, because two things a request needs lie outside of it: the commit
//! of the store to disk, and the scores by which projects are ranked.
//!
//! 1. [`ZessionizerWorker::handle_message`] applies the request to the
//!    store in memory and returns what is [`Staged`]: the outcome so far,
//!    and where to commit if the store changed.
//! 2. The caller commits the store and scores the staged records.
//! 3. [`ZessionizerWorker::finish`] turns the staged outcome, the outcome of
//!    the commit and the scores into the response.
//!
//! Any failure becomes the one `Error` response, which carries the name of
//! the operation and the text of the error.

use crate::clock::unix_now;
use crate::domain::error::ZessionizerError;
use crate::domain::project::{Project, ProjectView};
use crate::infrastructure::paths::{data_dir, get_data_dir};
use crate::storage::backend::Storage;
use crate::storage::commit::CommitPlan;
use crate::storage::format::dataset_of;
use crate::storage::frecency::{ranked, sort_by_frecency};
use crate::document::Json;
use crate::storage::json::{
    accessed, after_batch, batch_report, distinct_paths, first_of_each_path, not_found,
    paired_sessions, parse_failure, position_of, JsonStorage, JsonStorageView, LoadOutcome,
    StorageDataView, FORMAT_VERSION,
};
use crate::worker::wire::read_message;
use crate::storage::models::{ProjectRecord, ProjectRecordView, SessionRecordView};
use crate::text::optional_view;
use crate::worker::messages::{
    TraceContextView, WorkerMessage, WorkerMessageView, WorkerResponse, WorkerResponseView,
};
use vstd::prelude::*;
use vstd::string::StringExecFns;

verus! {

/// The operations of the protocol, one for each kind of request.
#[derive(Debug, Clone, Copy, PartialEq, Eq, Structural)]
pub enum Operation {
    LoadProjects,
    UpdateFrecency,
    AddProjectsBatch,
    SyncSessions,
    UpdateProjectLayout,
}

impl Operation {
    /// The name of the operation in error messages.
    pub open spec fn label(self) -> Seq<char> {
        match self {
            Operation::LoadProjects => "load projects"@,
            Operation::UpdateFrecency => "update frecency"@,
            Operation::AddProjectsBatch => "add projects batch"@,
            Operation::SyncSessions => "sync sessions"@,
            Operation::UpdateProjectLayout => "update project layout"@,
        }
    }

    /// The name of the operation in error messages.
    pub fn name(&self) -> (name: &'static str)
        ensures
            name@ == self.label(),
    {
        match self {
            Operation::LoadProjects => "load projects",
            Operation::UpdateFrecency => "update frecency",
            Operation::AddProjectsBatch => "add projects batch",
            Operation::SyncSessions => "sync sessions",
            Operation::UpdateProjectLayout => "update project layout",
        }
    }
}

/// What a request achieved in memory.
#[derive(Debug, PartialEq, Eq)]
pub enum Success {
    /// Every stored project, still to be ranked.
    Projects { records: Vec<ProjectRecord> },
    /// The access to `path` was recorded.
    Frecency { path: String },
    /// A batch of `count` projects was stored; `records` are the stored
    /// records, still to be ranked.
    Batch { count: usize, records: Vec<ProjectRecord> },
    /// The sessions were replaced, from `count` live names.
    Sessions { count: usize },
    /// The layout of `path` was set or cleared.
    Layout { path: String },
}

/// The mathematical value of a [`Success`].
pub enum SuccessView {
    Projects { records: Seq<ProjectRecordView> },
    Frecency { path: Seq<char> },
    Batch { count: usize, records: Seq<ProjectRecordView> },
    Sessions { count: usize },
    Layout { path: Seq<char> },
}

impl View for Success {
    type V = SuccessView;

    open spec fn view(&self) -> SuccessView {
        match *self {
            Success::Projects { records } => SuccessView::Projects {
                records: records.deep_view(),
            },
            Success::Frecency { path } => SuccessView::Frecency { path: path@ },
            Success::Batch { count, records } => SuccessView::Batch {
                count,
                records: records.deep_view(),
            },
            Success::Sessions { count } => SuccessView::Sessions { count },
            Success::Layout { path } => SuccessView::Layout { path: path@ },
        }
    }
}

/// A request that was applied to the store in memory and waits for the
/// caller's part.
#[derive(Debug, PartialEq, Eq)]
pub struct Staged {
    /// Which operation was asked for.
    pub operation: Operation,
    /// What it achieved, or why it failed.
    pub outcome: Result<Success, ZessionizerError>,
    /// Where to commit the store before the response may say that the
    /// request succeeded; `None` where nothing changed.
    pub commit: Option<CommitPlan>,
}

/// The mathematical value of a [`Staged`]: a failure by its rendered text,
/// and of the commit only whether there is one.
pub struct StagedView {
    pub operation: Operation,
    pub outcome: Result<SuccessView, Seq<char>>,
    pub commit: bool,
}

impl View for Staged {
    type V = StagedView;

    open spec fn view(&self) -> StagedView {
        StagedView {
            operation: self.operation,
            outcome: match self.outcome {
                Ok(success) => Ok(success@),
                Err(error) => Err(error.rendered()),
            },
            commit: self.commit is Some,
        }
    }
}

impl Staged {
    /// The records that the caller has to score: the key of the record at
    /// position `k` goes to position `k` of the keys given to
    /// [`ZessionizerWorker::finish`].
    pub fn records(&self) -> (records: Option<&Vec<ProjectRecord>>)
        ensures
            match self@.outcome {
                Ok(SuccessView::Projects { records: staged }) => records is Some
                    && records->0.deep_view() == staged,
                Ok(SuccessView::Batch { records: staged, .. }) => records is Some
                    && records->0.deep_view() == staged,
                _ => records is None,
            },
    {
        match &self.outcome {
            Ok(Success::Projects { records }) => Some(records),
            Ok(Success::Batch { records, .. }) => Some(records),
            _ => None,
        }
    }
}

/// The text of the error of a worker without a store.
pub open spec fn not_initialized() -> Seq<char> {
    "Worker communication error: "@ + "Storage not initialized"@
}

/// The record that a batch request makes of a path and a name at `now`:
/// accessed once, at `now`.
pub open spec fn fresh_record(entry: (Seq<char>, Seq<char>), now: i64) -> ProjectRecordView {
    ProjectRecordView {
        path: entry.0,
        name: entry.1,
        last_accessed: Some(now),
        access_count: 1,
        created_at: now,
        layout: None,
    }
}

/// The records that a batch request makes of its entries.
pub open spec fn fresh_batch(
    entries: Seq<(Seq<char>, Seq<char>)>,
    now: i64,
) -> Seq<ProjectRecordView> {
    Seq::new(entries.len(), |k: int| fresh_record(entries[k], now))
}

/// The operation that a request asks for.
pub open spec fn operation_of(message: WorkerMessageView) -> Operation {
    match message {
        WorkerMessageView::LoadProjects { .. } => Operation::LoadProjects,
        WorkerMessageView::UpdateFrecency { .. } => Operation::UpdateFrecency,
        WorkerMessageView::AddProjectsBatch { .. } => Operation::AddProjectsBatch,
        WorkerMessageView::SyncSessions { .. } => Operation::SyncSessions,
        WorkerMessageView::UpdateProjectLayout { .. } => Operation::UpdateProjectLayout,
    }
}

/// The store after a request was applied to it at `now`.
pub open spec fn staged_store(
    store: JsonStorageView,
    message: WorkerMessageView,
    now: i64,
) -> JsonStorageView {
    match message {
        WorkerMessageView::LoadProjects { .. } => store,
        WorkerMessageView::UpdateFrecency { path, .. } => match position_of(store.projects, path) {
            Some(index) => JsonStorageView {
                projects: store.projects.update(index, accessed(store.projects[index], now)),
                dirty: true,
                ..store
            },
            None => store,
        },
        WorkerMessageView::AddProjectsBatch { projects, .. } => JsonStorageView {
            projects: after_batch(store.projects, fresh_batch(projects, now)),
            dirty: true,
            ..store
        },
        WorkerMessageView::SyncSessions { active_sessions, .. } => JsonStorageView {
            sessions: paired_sessions(store.projects, active_sessions),
            dirty: true,
            ..store
        },
        WorkerMessageView::UpdateProjectLayout { path, layout, .. } => match position_of(
            store.projects,
            path,
        ) {
            Some(index) => JsonStorageView {
                projects: store.projects.update(
                    index,
                    ProjectRecordView { layout, ..store.projects[index] },
                ),
                dirty: true,
                ..store
            },
            None => store,
        },
    }
}

/// What a request achieves on a store at `now`, or the text of its error.
pub open spec fn staged_outcome(
    store: JsonStorageView,
    message: WorkerMessageView,
    now: i64,
) -> Result<SuccessView, Seq<char>> {
    match message {
        WorkerMessageView::LoadProjects { .. } => Ok(
            SuccessView::Projects { records: store.projects },
        ),
        WorkerMessageView::UpdateFrecency { path, .. } => match position_of(store.projects, path) {
            Some(_) => Ok(SuccessView::Frecency { path }),
            None => Err("Storage error: "@ + not_found(path)),
        },
        WorkerMessageView::AddProjectsBatch { projects, .. } => Ok(
            SuccessView::Batch {
                count: projects.len() as usize,
                records: batch_report(store.projects, fresh_batch(projects, now)),
            },
        ),
        WorkerMessageView::SyncSessions { active_sessions, .. } => Ok(
            SuccessView::Sessions { count: active_sessions.len() as usize },
        ),
        WorkerMessageView::UpdateProjectLayout { path, .. } => match position_of(
            store.projects,
            path,
        ) {
            Some(_) => Ok(SuccessView::Layout { path }),
            None => Err("Storage error: "@ + not_found(path)),
        },
    }
}

/// What is staged when a worker with this store, or without one, takes a
/// request at `now`. A request that changed the store asks for a commit.
pub open spec fn staged(
    store: Option<JsonStorageView>,
    message: WorkerMessageView,
    now: i64,
) -> StagedView {
    match store {
        None => StagedView {
            operation: operation_of(message),
            outcome: Err(not_initialized()),
            commit: false,
        },
        Some(store) => StagedView {
            operation: operation_of(message),
            outcome: staged_outcome(store, message, now),
            commit: staged_outcome(store, message, now) is Ok && !(message is LoadProjects),
        },
    }
}

/// The worker's store, if it has one, after a request at `now`.
pub open spec fn store_after(
    store: Option<JsonStorageView>,
    message: WorkerMessageView,
    now: i64,
) -> Option<JsonStorageView> {
    match store {
        None => None,
        Some(store) => Some(staged_store(store, message, now)),
    }
}

/// The project that the foreground context sees for a record: a record
/// that was never accessed counts as last accessed when it was created.
pub open spec fn to_project(record: ProjectRecordView) -> ProjectView {
    ProjectView {
        id: None,
        path: record.path,
        name: record.name,
        last_accessed: match record.last_accessed {
            Some(at) => at,
            None => record.created_at,
        },
        created_at: record.created_at,
        layout: record.layout,
    }
}

/// The records in frecency order, as projects.
pub open spec fn ranked_projects(records: Seq<ProjectRecordView>, keys: Seq<u64>) -> Seq<
    ProjectView,
> {
    ranked(records, keys).map_values(|record: ProjectRecordView| to_project(record))
}

/// The response to a request that succeeded.
pub open spec fn success_reply(success: SuccessView, keys: Seq<u64>) -> WorkerResponseView {
    match success {
        SuccessView::Projects { records } => WorkerResponseView::ProjectsLoaded {
            projects: ranked_projects(records, keys),
        },
        SuccessView::Frecency { path } => WorkerResponseView::FrecencyUpdated { path },
        SuccessView::Batch { count, records } => WorkerResponseView::ProjectsBatchAdded {
            count,
            projects: ranked_projects(records, keys),
        },
        SuccessView::Sessions { count } => WorkerResponseView::SessionsSynced { count },
        SuccessView::Layout { path } => WorkerResponseView::LayoutUpdated { path },
    }
}

/// The response to a request that failed with an error of this text.
pub open spec fn failure_reply(operation: Seq<char>, error: Seq<char>) -> WorkerResponseView {
    WorkerResponseView::Error { message: operation + ": "@ + error }
}

/// The response to a staged request. `commit_error` is the text of the
/// error of the commit, if it failed; it counts only where a commit was
/// asked for.
pub open spec fn reply(
    staged: StagedView,
    commit_error: Option<Seq<char>>,
    keys: Seq<u64>,
) -> WorkerResponseView {
    match staged.outcome {
        Err(error) => failure_reply(staged.operation.label(), error),
        Ok(success) => if staged.commit && commit_error is Some {
            failure_reply(staged.operation.label(), commit_error->0)
        } else {
            success_reply(success, keys)
        },
    }
}

/// The dataset of the store that opens from what reading the file gave,
/// or the rendered error with which it fails to open.
pub open spec fn opened(outcome: LoadOutcome) -> Result<StorageDataView, Seq<char>> {
    match outcome {
        LoadOutcome::Absent => Ok(
            StorageDataView {
                version: FORMAT_VERSION,
                projects: Seq::empty(),
                sessions: Seq::empty(),
            },
        ),
        LoadOutcome::Parsed(document) => match dataset_of(document@) {
            Ok(data) => Ok(
                StorageDataView { projects: first_of_each_path(data.projects), ..data },
            ),
            Err(flaw) => Err("Storage error: "@ + parse_failure(flaw.described())),
        },
        LoadOutcome::Unreadable(reason) => Err("IO error: "@ + reason@),
        LoadOutcome::Malformed(reason) => Err("Storage error: "@ + parse_failure(reason@)),
    }
}

/// Whether a plan, if there is one, names the paths of the store, the
/// temporary file being another file than the file itself.
pub open spec fn commits_to(plan: Option<CommitPlan>, store: Option<JsonStorageView>) -> bool {
    match plan {
        Some(plan) => store is Some && plan.file_path@ == store->0.file_path && plan.temp_path@
            == store->0.temp_path && plan.atomic(),
        None => true,
    }
}

/// Whether a response is the success of an operation.
pub open spec fn answers(response: WorkerResponseView, operation: Operation) -> bool {
    match operation {
        Operation::LoadProjects => response is ProjectsLoaded,
        Operation::UpdateFrecency => response is FrecencyUpdated,
        Operation::AddProjectsBatch => response is ProjectsBatchAdded,
        Operation::SyncSessions => response is SessionsSynced,
        Operation::UpdateProjectLayout => response is LayoutUpdated,
    }
}

/// Each request has one response: the success of its own operation, or
/// the error. It is the error exactly if the worker has no store, the
/// request names a path that is not stored, or the commit failed.
pub proof fn lemma_one_response_for_each_request(
    store: Option<JsonStorageView>,
    message: WorkerMessageView,
    now: i64,
    commit_error: Option<Seq<char>>,
    keys: Seq<u64>,
)
    ensures
        ({
            let staged = staged(store, message, now);
            let response = reply(staged, commit_error, keys);
            &&& response is Error || answers(response, operation_of(message))
            &&& response is Error <==> (staged.outcome is Err || (staged.commit
                && commit_error is Some))
            &&& staged.outcome is Err <==> (store is None || match message {
                WorkerMessageView::UpdateFrecency { path, .. } => position_of(
                    store->0.projects,
                    path,
                ) is None,
                WorkerMessageView::UpdateProjectLayout { path, .. } => position_of(
                    store->0.projects,
                    path,
                ) is None,
                _ => false,
            })
        }),
{
}

/// A request that fails before it changes anything leaves the store as it
/// was, and asks for no commit.
pub proof fn lemma_failed_request_changes_nothing(
    store: Option<JsonStorageView>,
    message: WorkerMessageView,
    now: i64,
)
    requires
        staged(store, message, now).outcome is Err,
    ensures
        store_after(store, message, now) == store,
        !staged(store, message, now).commit,
{
}

/// The trace context of a request has no effect on how it is handled.
pub proof fn lemma_trace_context_is_ignored(
    store: Option<JsonStorageView>,
    message: WorkerMessageView,
    trace: Option<TraceContextView>,
    now: i64,
)
    ensures
        staged(store, message.with_trace(trace), now) == staged(store, message, now),
        store_after(store, message.with_trace(trace), now) == store_after(store, message, now),
{
}

/// The rendered text of the error of a result, if it is one.
pub open spec fn error_text(result: Result<(), ZessionizerError>) -> Option<Seq<char>> {
    match result {
        Ok(_) => None,
        Err(error) => Some(error.rendered()),
    }
}

/// The worker: the owner of the store.
#[derive(Debug)]
pub struct ZessionizerWorker {
    storage: Option<JsonStorage>,
}

impl Default for ZessionizerWorker {
    /// A worker without a store. It answers every request with an error
    /// until it is replaced by one that has a store.
    fn default() -> (worker: ZessionizerWorker)
        ensures
            worker.store() is None,
    {
        ZessionizerWorker { storage: None }
    }
}

fn fresh_records(entries: &Vec<(String, String)>, now: i64) -> (records: Vec<ProjectRecord>)
    ensures
        records.deep_view() == fresh_batch(entries.deep_view(), now),
{
    let mut records: Vec<ProjectRecord> = Vec::new();
    let mut i: usize = 0;
    while i < entries.len()
        invariant
            i <= entries.len(),
            records.len() == i,
            forall|k: int|
                0 <= k < i ==> records@[k]@ == fresh_record(#[trigger] entries.deep_view()[k], now),
        decreases entries.len() - i,
    {
        records.push(
            ProjectRecord {
                path: entries[i].0.clone(),
                name: entries[i].1.clone(),
                last_accessed: Some(now),
                access_count: 1,
                created_at: now,
                layout: None,
            },
        );
        i += 1;
    }
    assert(records.deep_view() =~= fresh_batch(entries.deep_view(), now));
    records
}

fn to_projects(records: Vec<ProjectRecord>) -> (projects: Vec<Project>)
    ensures
        projects.deep_view() == records.deep_view().map_values(
            |record: ProjectRecordView| to_project(record),
        ),
{
    let mut projects: Vec<Project> = Vec::new();
    let mut i: usize = 0;
    while i < records.len()
        invariant
            i <= records.len(),
            projects.len() == i,
            forall|k: int| 0 <= k < i ==> projects@[k]@ == to_project(records@[k]@),
        decreases records.len() - i,
    {
        projects.push(ZessionizerWorker::project_record_to_project(records[i].clone()));
        i += 1;
    }
    assert(projects.deep_view() =~= records.deep_view().map_values(
        |record: ProjectRecordView| to_project(record),
    ));
    projects
}

fn rank(records: Vec<ProjectRecord>, keys: &Vec<u64>) -> (projects: Vec<Project>)
    ensures
        projects.deep_view() == ranked_projects(records.deep_view(), keys@),
{
    let mut records = records;
    sort_by_frecency(&mut records, keys);
    to_projects(records)
}

impl ZessionizerWorker {
    /// The store of the worker, if it has one.
    pub closed spec fn store(&self) -> Option<JsonStorageView> {
        match self.storage {
            Some(storage) => Some(storage@),
            None => None,
        }
    }

    /// Whether no two stored projects share a path.
    pub open spec fn wf(&self) -> bool {
        self.store() is Some ==> distinct_paths(self.store()->0.projects)
    }

    /// The path of the file that holds the store.
    pub fn storage_path() -> (path: String)
        ensures
            path@ == data_dir() + "/projects.json"@,
    {
        get_data_dir().concat("/projects.json")
    }

    /// A worker with the store of the file at [`Self::storage_path`], from
    /// what reading that file gave. It opens as the store opens, and fails
    /// as the store fails to open. The parameter is not used.
    pub fn new(_backend_param: String, outcome: LoadOutcome) -> (result: Result<
        ZessionizerWorker,
        ZessionizerError,
    >)
        ensures
            match outcome {
                LoadOutcome::Absent => result is Ok && result->Ok_0.store()->0.version
                    == FORMAT_VERSION && result->Ok_0.store()->0.projects == Seq::<
                    ProjectRecordView,
                >::empty() && result->Ok_0.store()->0.sessions == Seq::<
                    SessionRecordView,
                >::empty(),
                LoadOutcome::Parsed(document) => match dataset_of(document@) {
                    Ok(data) => result is Ok && result->Ok_0.store()->0.version == data.version
                        && result->Ok_0.store()->0.projects == first_of_each_path(data.projects)
                        && result->Ok_0.store()->0.sessions == data.sessions,
                    Err(flaw) => result is Err && result->Err_0 is Storage
                        && result->Err_0.detail() == parse_failure(flaw.described()),
                },
                LoadOutcome::Unreadable(reason) => result is Err && result->Err_0
                    == ZessionizerError::Io(reason),
                LoadOutcome::Malformed(reason) => result is Err && result->Err_0
                    is Storage && result->Err_0.detail() == parse_failure(reason@),
            },
            result is Ok ==> result->Ok_0.store() is Some && !result->Ok_0.store()->0.dirty
                && result->Ok_0.store()->0.file_path == data_dir() + "/projects.json"@
                && result->Ok_0.wf(),
    {
        match JsonStorage::new(ZessionizerWorker::storage_path(), outcome) {
            Ok(storage) => Ok(ZessionizerWorker { storage: Some(storage) }),
            Err(error) => Err(error),
        }
    }

    /// Gives a worker without a store the store of what reading the file
    /// gave. A worker that has a store keeps it. Where the store does not
    /// open, the worker stays without one and the error response to send
    /// is returned; the next request may try again.
    pub fn initialize(&mut self, outcome: LoadOutcome) -> (failure: Option<WorkerResponse>)
        ensures
            old(self).store() is Some ==> failure is None
                && final(self).store() == old(self).store(),
            old(self).store() is None ==> match opened(outcome) {
                Ok(data) => {
                    &&& failure is None
                    &&& final(self).store() is Some
                    &&& final(self).store()->0.version == data.version
                    &&& final(self).store()->0.projects == data.projects
                    &&& final(self).store()->0.sessions == data.sessions
                    &&& !final(self).store()->0.dirty
                    &&& final(self).store()->0.file_path == data_dir() + "/projects.json"@
                },
                Err(error) => failure is Some && failure->0@ == (WorkerResponseView::Error {
                    message: "Failed to initialize storage: "@ + error,
                }) && final(self).store() is None,
            },
            old(self).wf() ==> final(self).wf(),
    {
        if self.storage.is_some() {
            return None;
        }
        match JsonStorage::new(ZessionizerWorker::storage_path(), outcome) {
            Ok(storage) => {
                self.storage = Some(storage);
                None
            },
            Err(error) => {
                let text = error.to_string();
                let message = String::from_str("Failed to initialize storage: ").concat(
                    text.as_str(),
                );
                Some(WorkerResponse::Error { message })
            },
        }
    }

    /// Takes a request as it arrived, as a document. A document that is no
    /// request is dropped: nothing changes and nothing is staged. A request
    /// is handled as [`Self::handle_message`] says.
    pub fn receive(&mut self, document: &Json) -> (result: Option<Staged>)
        ensures
            match read_message(document@) {
                Some(message) => result is Some && exists|now: i64|
                    {
                        &&& result->0@ == #[trigger] staged(old(self).store(), message, now)
                        &&& final(self).store() == store_after(old(self).store(), message, now)
                    },
                None => result is None && final(self).store() == old(self).store(),
            },
            result is Some ==> commits_to(result->0.commit, final(self).store()),
            old(self).wf() ==> final(self).wf(),
    {
        match WorkerMessage::from_document(document) {
            Some(message) => Some(self.handle_message(message)),
            None => None,
        }
    }

    /// The store, for the caller that commits it.
    pub fn storage(&self) -> (storage: Option<&JsonStorage>)
        ensures
            match storage {
                Some(s) => self.store() == Some(s@),
                None => self.store() is None,
            },
    {
        self.storage.as_ref()
    }

    /// Gives up the store, for the owner that flushes it at the end.
    pub fn into_storage(self) -> (storage: Option<JsonStorage>)
        ensures
            match storage {
                Some(s) => self.store() == Some(s@),
                None => self.store() is None,
            },
    {
        self.storage
    }

    /// The store, or the error of a worker that has none.
    pub fn get_storage(&self) -> (result: Result<&JsonStorage, ZessionizerError>)
        ensures
            match result {
                Ok(storage) => self.store() == Some(storage@),
                Err(error) => self.store() is None && error is Worker && error.rendered()
                    == not_initialized(),
            },
    {
        match &self.storage {
            Some(storage) => Ok(storage),
            None => Err(ZessionizerError::Worker(String::from_str("Storage not initialized"))),
        }
    }

    /// The project that the foreground context sees for a record.
    pub fn project_record_to_project(record: ProjectRecord) -> (project: Project)
        ensures
            project@ == to_project(record@),
    {
        let last_accessed = match record.last_accessed {
            Some(at) => at,
            None => record.created_at,
        };
        Project {
            id: None,
            path: record.path,
            name: record.name,
            last_accessed,
            created_at: record.created_at,
            layout: record.layout,
        }
    }

    /// The response for the result of an operation: the response of its
    /// success, or the error response with the operation's name.
    pub fn handle_db_result(
        operation: &str,
        result: Result<WorkerResponse, ZessionizerError>,
    ) -> (response: WorkerResponse)
        ensures
            response@ == match result {
                Ok(success) => success@,
                Err(error) => failure_reply(operation@, error.rendered()),
            },
    {
        match result {
            Ok(success) => success,
            Err(error) => {
                let text = error.to_string();
                let message = String::from_str(operation).concat(": ").concat(text.as_str());
                assert(message@ =~= operation@ + ": "@ + error.rendered());
                WorkerResponse::Error { message }
            },
        }
    }

    fn handle_load_projects(&mut self, with_sessions: bool) -> (result: Staged)
        ensures
            result@ == staged(
                old(self).store(),
                WorkerMessageView::LoadProjects { with_sessions, trace_context: None },
                0,
            ),
            final(self).store() == old(self).store(),
            result.commit is None,
    {
        let outcome = match &self.storage {
            Some(storage) => match storage.get_all_projects() {
                Ok(records) => Ok(Success::Projects { records }),
                Err(error) => Err(error),
            },
            None => Err(ZessionizerError::Worker(String::from_str("Storage not initialized"))),
        };
        Staged { operation: Operation::LoadProjects, outcome, commit: None }
    }

    fn handle_update_frecency(&mut self, path: String, timestamp: i64) -> (result: Staged)
        ensures
            ({
                let message = WorkerMessageView::UpdateFrecency { path: path@, trace_context: None };
                &&& result@ == staged(old(self).store(), message, timestamp)
                &&& final(self).store() == store_after(old(self).store(), message, timestamp)
            }),
            commits_to(result.commit, final(self).store()),
            old(self).wf() ==> final(self).wf(),
    {
        match &mut self.storage {
            Some(storage) => {
                match storage.update_project_access(path.as_str(), timestamp) {
                    Ok(_) => Staged {
                        operation: Operation::UpdateFrecency,
                        outcome: Ok(Success::Frecency { path }),
                        commit: storage.pending_commit(),
                    },
                    Err(error) => Staged {
                        operation: Operation::UpdateFrecency,
                        outcome: Err(error),
                        commit: None,
                    },
                }
            },
            None => Staged {
                operation: Operation::UpdateFrecency,
                outcome: Err(
                    ZessionizerError::Worker(String::from_str("Storage not initialized")),
                ),
                commit: None,
            },
        }
    }

    fn handle_add_projects_batch(&mut self, projects: Vec<(String, String)>, now: i64) -> (result:
        Staged)
        ensures
            ({
                let message = WorkerMessageView::AddProjectsBatch {
                    projects: projects.deep_view(),
                    trace_context: None,
                };
                &&& result@ == staged(old(self).store(), message, now)
                &&& final(self).store() == store_after(old(self).store(), message, now)
            }),
            commits_to(result.commit, final(self).store()),
            old(self).wf() ==> final(self).wf(),
    {
        let records = fresh_records(&projects, now);
        let count = records.len();
        assert(count == projects.deep_view().len());
        match &mut self.storage {
            Some(storage) => {
                let batch = records.as_slice();
                assert(batch@.map_values(|r: ProjectRecord| r@) =~= fresh_batch(
                    projects.deep_view(),
                    now,
                ));
                match storage.add_projects_batch(batch) {
                    Ok(stored) => Staged {
                        operation: Operation::AddProjectsBatch,
                        outcome: Ok(Success::Batch { count, records: stored }),
                        commit: storage.pending_commit(),
                    },
                    Err(error) => Staged {
                        operation: Operation::AddProjectsBatch,
                        outcome: Err(error),
                        commit: None,
                    },
                }
            },
            None => Staged {
                operation: Operation::AddProjectsBatch,
                outcome: Err(
                    ZessionizerError::Worker(String::from_str("Storage not initialized")),
                ),
                commit: None,
            },
        }
    }

    fn handle_sync_sessions(&mut self, active_sessions: &Vec<String>) -> (result: Staged)
        ensures
            ({
                let message = WorkerMessageView::SyncSessions {
                    active_sessions: active_sessions.deep_view(),
                    trace_context: None,
                };
                &&& result@ == staged(old(self).store(), message, 0)
                &&& final(self).store() == store_after(old(self).store(), message, 0)
            }),
            commits_to(result.commit, final(self).store()),
            old(self).wf() ==> final(self).wf(),
    {
        let count = active_sessions.len();
        assert(count == active_sessions.deep_view().len());
        match &mut self.storage {
            Some(storage) => {
                let names = active_sessions.as_slice();
                assert(names@.map_values(|n: String| n@) =~= active_sessions.deep_view());
                match storage.sync_sessions(names) {
                    Ok(_) => Staged {
                        operation: Operation::SyncSessions,
                        outcome: Ok(Success::Sessions { count }),
                        commit: storage.pending_commit(),
                    },
                    Err(error) => Staged {
                        operation: Operation::SyncSessions,
                        outcome: Err(error),
                        commit: None,
                    },
                }
            },
            None => Staged {
                operation: Operation::SyncSessions,
                outcome: Err(
                    ZessionizerError::Worker(String::from_str("Storage not initialized")),
                ),
                commit: None,
            },
        }
    }

    fn handle_update_project_layout(&mut self, path: String, layout: Option<String>) -> (result:
        Staged)
        ensures
            ({
                let message = WorkerMessageView::UpdateProjectLayout {
                    path: path@,
                    layout: optional_view(layout),
                    trace_context: None,
                };
                &&& result@ == staged(old(self).store(), message, 0)
                &&& final(self).store() == store_after(old(self).store(), message, 0)
            }),
            commits_to(result.commit, final(self).store()),
            old(self).wf() ==> final(self).wf(),
    {
        match &mut self.storage {
            Some(storage) => {
                match storage.update_project_layout(path.as_str(), layout) {
                    Ok(_) => Staged {
                        operation: Operation::UpdateProjectLayout,
                        outcome: Ok(Success::Layout { path }),
                        commit: storage.pending_commit(),
                    },
                    Err(error) => Staged {
                        operation: Operation::UpdateProjectLayout,
                        outcome: Err(error),
                        commit: None,
                    },
                }
            },
            None => Staged {
                operation: Operation::UpdateProjectLayout,
                outcome: Err(
                    ZessionizerError::Worker(String::from_str("Storage not initialized")),
                ),
                commit: None,
            },
        }
    }

    /// Applies a request to the store in memory, with `now` as the time of
    /// an access or a discovery, and returns what is staged. The trace
    /// context of the request plays no part.
    pub fn handle_message_at(&mut self, message: WorkerMessage, now: i64) -> (result: Staged)
        ensures
            result@ == staged(old(self).store(), message@, now),
            final(self).store() == store_after(old(self).store(), message@, now),
            commits_to(result.commit, final(self).store()),
            old(self).wf() ==> final(self).wf(),
    {
        match message {
            WorkerMessage::LoadProjects { with_sessions, .. } => self.handle_load_projects(
                with_sessions,
            ),
            WorkerMessage::UpdateFrecency { path, .. } => self.handle_update_frecency(path, now),
            WorkerMessage::UpdateProjectLayout { path, layout, .. } => {
                self.handle_update_project_layout(path, layout)
            },
            WorkerMessage::AddProjectsBatch { projects, .. } => self.handle_add_projects_batch(
                projects,
                now,
            ),
            WorkerMessage::SyncSessions { active_sessions, .. } => self.handle_sync_sessions(
                &active_sessions,
            ),
        }
    }

    /// Applies a request to the store in memory at the time of the system
    /// clock and returns what is staged.
    pub fn handle_message(&mut self, message: WorkerMessage) -> (result: Staged)
        ensures
            exists|now: i64|
                {
                    &&& result@ == #[trigger] staged(old(self).store(), message@, now)
                    &&& final(self).store() == store_after(old(self).store(), message@, now)
                },
            commits_to(result.commit, final(self).store()),
            old(self).wf() ==> final(self).wf(),
    {
        let now = unix_now();
        self.handle_message_at(message, now)
    }

    /// The response to a staged request. `commit` is the outcome of the
    /// commit that the staged request asked for; it plays no part where
    /// none was asked for. A commit that succeeded leaves the store clean;
    /// one that failed leaves it dirty, and the response is the error.
    /// `keys` are the frecency keys of the staged records, by position.
    pub fn finish(
        &mut self,
        staged: Staged,
        commit: Result<(), ZessionizerError>,
        keys: &Vec<u64>,
    ) -> (response: WorkerResponse)
        ensures
            response@ == reply(staged@, error_text(commit), keys@),
            final(self).store() == match old(self).store() {
                Some(store) => Some(
                    if staged@.commit && commit is Ok {
                        JsonStorageView { dirty: false, ..store }
                    } else {
                        store
                    },
                ),
                None => None,
            },
            old(self).wf() ==> final(self).wf(),
    {
        let Staged { operation, outcome, commit: plan } = staged;
        let committed: Result<(), ZessionizerError> = match plan {
            Some(_) => match &mut self.storage {
                Some(storage) => storage.commit_finished(commit),
                None => commit,
            },
            None => Ok(()),
        };
        let result: Result<WorkerResponse, ZessionizerError> = match outcome {
            Err(error) => Err(error),
            Ok(success) => match committed {
                Err(error) => Err(error),
                Ok(_) => Ok(
                    match success {
                        Success::Projects { records } => WorkerResponse::ProjectsLoaded {
                            projects: rank(records, keys),
                        },
                        Success::Frecency { path } => WorkerResponse::FrecencyUpdated { path },
                        Success::Batch { count, records } => WorkerResponse::ProjectsBatchAdded {
                            count,
                            projects: rank(records, keys),
                        },
                        Success::Sessions { count } => WorkerResponse::SessionsSynced { count },
                        Success::Layout { path } => WorkerResponse::LayoutUpdated { path },
                    },
                ),
            },
        };
        ZessionizerWorker::handle_db_result(operation.name(), result)
    }
}

} // verus!
