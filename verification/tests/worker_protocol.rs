use zessionizer::storage::{encode, LoadOutcome, ProjectRecord, StorageData};
use zessionizer::worker::{
    Operation, Staged, Success, TraceContext, WorkerMessage, WorkerResponse, ZessionizerWorker,
};
use zessionizer::{Project, ZessionizerError};

fn record(path: &str, name: &str, last: Option<i64>, count: i32) -> ProjectRecord {
    ProjectRecord {
        path: path.to_string(),
        name: name.to_string(),
        last_accessed: last,
        access_count: count,
        created_at: 10,
        layout: None,
    }
}

fn worker_with(projects: Vec<ProjectRecord>) -> ZessionizerWorker {
    let data = StorageData { version: 1, projects, sessions: vec![] };
    ZessionizerWorker::new(String::new(), LoadOutcome::Parsed(encode(&data))).unwrap()
}

fn project(path: &str, name: &str, last: i64, created: i64) -> Project {
    Project {
        id: None,
        path: path.to_string(),
        name: name.to_string(),
        last_accessed: last,
        created_at: created,
        layout: None,
    }
}

#[test]
fn storage_path_is_under_the_data_dir() {
    assert_eq!(
        ZessionizerWorker::storage_path(),
        "/host/.local/share/zellij/zessionizer/projects.json"
    );
    let worker = worker_with(vec![]);
    assert_eq!(
        worker.storage().unwrap().file_path(),
        "/host/.local/share/zellij/zessionizer/projects.json"
    );
}

#[test]
fn worker_fails_to_open_on_malformed_file() {
    let result = ZessionizerWorker::new(String::new(), LoadOutcome::Malformed("eof".to_string()));
    assert_eq!(
        result.unwrap_err(),
        ZessionizerError::Storage("failed to parse JSON: eof".to_string())
    );
}

#[test]
fn worker_without_storage_answers_with_error() {
    let mut worker = ZessionizerWorker::default();
    assert!(worker.storage().is_none());
    assert_eq!(
        worker.get_storage().unwrap_err(),
        ZessionizerError::Worker("Storage not initialized".to_string())
    );
    let staged = worker.handle_message(WorkerMessage::load_projects(false));
    assert!(staged.commit.is_none());
    let response = worker.finish(staged, Ok(()), &vec![]);
    assert_eq!(
        response,
        WorkerResponse::Error {
            message: "load projects: Worker communication error: Storage not initialized"
                .to_string()
        }
    );
    let staged = worker.handle_message(WorkerMessage::sync_sessions(vec![]));
    assert_eq!(
        worker.finish(staged, Ok(()), &vec![]),
        WorkerResponse::Error {
            message: "sync sessions: Worker communication error: Storage not initialized"
                .to_string()
        }
    );
}

#[test]
fn load_projects_ranks_by_keys_and_needs_no_commit() {
    let mut worker = worker_with(vec![
        record("/a", "a", None, 1),
        record("/b", "b", Some(500), 3),
        record("/c", "c", Some(700), 2),
    ]);
    assert!(worker.get_storage().is_ok());
    let staged = worker.handle_message(WorkerMessage::load_projects(true));
    assert_eq!(staged.operation, Operation::LoadProjects);
    assert!(staged.commit.is_none());
    assert_eq!(staged.records().unwrap().len(), 3);
    let response = worker.finish(staged, Ok(()), &vec![10, 30, 20]);
    assert_eq!(
        response,
        WorkerResponse::ProjectsLoaded {
            projects: vec![
                project("/b", "b", 500, 10),
                project("/c", "c", 700, 10),
                project("/a", "a", 10, 10),
            ]
        }
    );
    assert!(!worker.storage().unwrap().is_dirty());
}

#[test]
fn update_frecency_commits_then_confirms() {
    let mut worker = worker_with(vec![record("/a", "a", None, 1)]);
    let staged = worker
        .handle_message_at(WorkerMessage::update_frecency("/a".to_string()), 4242);
    assert_eq!(staged.outcome, Ok(Success::Frecency { path: "/a".to_string() }));
    assert_eq!(
        staged.commit.as_ref().unwrap().temp_path,
        "/host/.local/share/zellij/zessionizer/projects.tmp"
    );
    assert!(worker.storage().unwrap().is_dirty());
    assert!(staged.records().is_none());
    let response = worker.finish(staged, Ok(()), &vec![]);
    assert_eq!(response, WorkerResponse::FrecencyUpdated { path: "/a".to_string() });
    let storage = worker.storage().unwrap();
    assert!(!storage.is_dirty());
    assert_eq!(storage.data().projects, vec![record("/a", "a", Some(4242), 2)]);
}

#[test]
fn update_frecency_by_the_clock_uses_a_current_time() {
    let mut worker = worker_with(vec![record("/a", "a", None, 1)]);
    let staged = worker.handle_message(WorkerMessage::update_frecency("/a".to_string()));
    worker.finish(staged, Ok(()), &vec![]);
    let stored = &worker.storage().unwrap().data().projects[0];
    assert!(stored.last_accessed.unwrap() > 1_600_000_000);
    assert_eq!(stored.access_count, 2);
}

#[test]
fn update_frecency_on_unknown_path_is_an_error_without_commit() {
    let mut worker = worker_with(vec![record("/a", "a", None, 1)]);
    let staged = worker.handle_message_at(WorkerMessage::update_frecency("/zz".to_string()), 1);
    assert!(staged.commit.is_none());
    let response = worker.finish(staged, Ok(()), &vec![]);
    assert_eq!(
        response,
        WorkerResponse::Error {
            message: "update frecency: Storage error: project not found: /zz".to_string()
        }
    );
    assert!(!worker.storage().unwrap().is_dirty());
}

#[test]
fn failed_commit_becomes_error_and_leaves_store_dirty() {
    let mut worker = worker_with(vec![record("/a", "a", None, 1)]);
    let staged = worker.handle_message_at(WorkerMessage::update_frecency("/a".to_string()), 9);
    let response = worker.finish(
        staged,
        Err(ZessionizerError::Io("No space left on device".to_string())),
        &vec![],
    );
    assert_eq!(
        response,
        WorkerResponse::Error {
            message: "update frecency: IO error: No space left on device".to_string()
        }
    );
    assert!(worker.storage().unwrap().is_dirty());
    assert!(worker.storage().unwrap().pending_commit().is_some());
}

#[test]
fn add_projects_batch_reports_stored_records_ranked() {
    let mut worker = worker_with(vec![record("/a", "a", Some(1), 6)]);
    let message = WorkerMessage::add_projects_batch(vec![
        ("/n".to_string(), "n".to_string()),
        ("/a".to_string(), "a".to_string()),
    ]);
    let staged = worker.handle_message_at(message, 300);
    assert!(staged.commit.is_some());
    assert_eq!(
        staged.records().unwrap(),
        &vec![
            ProjectRecord {
                path: "/n".to_string(),
                name: "n".to_string(),
                last_accessed: Some(300),
                access_count: 1,
                created_at: 300,
                layout: None,
            },
            record("/a", "a", Some(300), 6),
        ]
    );
    let response = worker.finish(staged, Ok(()), &vec![1, 6]);
    assert_eq!(
        response,
        WorkerResponse::ProjectsBatchAdded {
            count: 2,
            projects: vec![project("/a", "a", 300, 10), project("/n", "n", 300, 300)],
        }
    );
    assert_eq!(worker.storage().unwrap().data().projects.len(), 2);
}

#[test]
fn sync_sessions_counts_the_live_names() {
    let mut worker = worker_with(vec![record("/a", "a", None, 1)]);
    let message = WorkerMessage::sync_sessions(vec!["a".to_string(), "x".to_string()]);
    let staged = worker.handle_message(message);
    let response = worker.finish(staged, Ok(()), &vec![]);
    assert_eq!(response, WorkerResponse::SessionsSynced { count: 2 });
    let sessions = &worker.storage().unwrap().data().sessions;
    assert_eq!(sessions.len(), 1);
    assert_eq!(sessions[0].project_path, "/a");
}

#[test]
fn update_project_layout_confirms_with_path() {
    let mut worker = worker_with(vec![record("/a", "a", None, 1)]);
    let message = WorkerMessage::update_project_layout("/a".to_string(), Some("w".to_string()));
    let staged = worker.handle_message(message);
    assert_eq!(staged.operation, Operation::UpdateProjectLayout);
    let response = worker.finish(staged, Ok(()), &vec![]);
    assert_eq!(response, WorkerResponse::LayoutUpdated { path: "/a".to_string() });
    assert_eq!(
        worker.storage().unwrap().data().projects[0].layout,
        Some("w".to_string())
    );
    let missing = WorkerMessage::update_project_layout("/b".to_string(), None);
    let staged = worker.handle_message(missing);
    assert_eq!(
        worker.finish(staged, Ok(()), &vec![]),
        WorkerResponse::Error {
            message: "update project layout: Storage error: project not found: /b".to_string()
        }
    );
}

#[test]
fn trace_context_is_carried_and_ignored() {
    let context = TraceContext {
        trace_id: "0af7651916cd43dd8448eb211c80319c".to_string(),
        parent_span_id: "b7ad6b7169203331".to_string(),
    };
    let plain = WorkerMessage::load_projects(false);
    assert_eq!(plain.trace_context(), &None);
    let traced = plain.clone().with_trace_context(Some(context.clone()));
    assert_eq!(traced.trace_context(), &Some(context.clone()));
    assert_eq!(
        traced,
        WorkerMessage::LoadProjects { with_sessions: false, trace_context: Some(context) }
    );
    let mut first = worker_with(vec![record("/a", "a", None, 1)]);
    let mut second = worker_with(vec![record("/a", "a", None, 1)]);
    let with = first.handle_message(traced);
    let without = second.handle_message(plain);
    assert_eq!(with, without);
}

#[test]
fn handle_db_result_names_the_operation() {
    let ok = ZessionizerWorker::handle_db_result(
        "anything",
        Ok(WorkerResponse::SessionsSynced { count: 1 }),
    );
    assert_eq!(ok, WorkerResponse::SessionsSynced { count: 1 });
    let failed = ZessionizerWorker::handle_db_result(
        "sync sessions",
        Err(ZessionizerError::Storage("boom".to_string())),
    );
    assert_eq!(
        failed,
        WorkerResponse::Error { message: "sync sessions: Storage error: boom".to_string() }
    );
}

#[test]
fn record_becomes_project_with_creation_as_fallback() {
    let mut never = record("/a", "a", None, 4);
    never.layout = Some("l".to_string());
    let converted = ZessionizerWorker::project_record_to_project(never);
    assert_eq!(
        converted,
        Project {
            id: None,
            path: "/a".to_string(),
            name: "a".to_string(),
            last_accessed: 10,
            created_at: 10,
            layout: Some("l".to_string()),
        }
    );
    let seen = ZessionizerWorker::project_record_to_project(record("/a", "a", Some(55), 4));
    assert_eq!(seen.last_accessed, 55);
}

#[test]
fn operations_have_names() {
    assert_eq!(Operation::LoadProjects.name(), "load projects");
    assert_eq!(Operation::UpdateFrecency.name(), "update frecency");
    assert_eq!(Operation::AddProjectsBatch.name(), "add projects batch");
    assert_eq!(Operation::SyncSessions.name(), "sync sessions");
    assert_eq!(Operation::UpdateProjectLayout.name(), "update project layout");
}

#[test]
fn staged_failure_wins_over_commit_outcome() {
    let mut worker = worker_with(vec![]);
    let staged = Staged {
        operation: Operation::SyncSessions,
        outcome: Err(ZessionizerError::Config("bad".to_string())),
        commit: None,
    };
    assert_eq!(
        worker.finish(staged, Ok(()), &vec![]),
        WorkerResponse::Error { message: "sync sessions: Configuration error: bad".to_string() }
    );
}

#[test]
fn initialize_opens_the_store_once() {
    let mut worker = ZessionizerWorker::default();
    assert_eq!(worker.initialize(LoadOutcome::Absent), None);
    assert!(worker.storage().unwrap().data().projects.is_empty());
    let staged = worker.handle_message_at(
        WorkerMessage::add_projects_batch(vec![("/a".to_string(), "a".to_string())]),
        5,
    );
    worker.finish(staged, Ok(()), &vec![0]);
    assert_eq!(worker.initialize(LoadOutcome::Malformed("ignored".to_string())), None);
    assert_eq!(worker.storage().unwrap().data().projects.len(), 1);
}

#[test]
fn initialize_reports_failure_and_may_be_tried_again() {
    let mut worker = ZessionizerWorker::default();
    assert_eq!(
        worker.initialize(LoadOutcome::Unreadable("permission denied".to_string())),
        Some(WorkerResponse::Error {
            message: "Failed to initialize storage: IO error: permission denied".to_string()
        })
    );
    assert!(worker.storage().is_none());
    assert_eq!(
        worker.initialize(LoadOutcome::Malformed("EOF while parsing".to_string())),
        Some(WorkerResponse::Error {
            message:
                "Failed to initialize storage: Storage error: failed to parse JSON: EOF while parsing"
                    .to_string()
        })
    );
    let data = StorageData { version: 1, projects: vec![record("/a", "a", None, 1)], sessions: vec![] };
    assert_eq!(worker.initialize(LoadOutcome::Parsed(encode(&data))), None);
    assert_eq!(worker.storage().unwrap().data(), &data);
}

#[test]
fn receive_drops_what_is_no_request() {
    let mut worker = worker_with(vec![record("/a", "a", None, 1)]);
    assert_eq!(worker.receive(&zessionizer::document::Json::Null), None);
    assert!(!worker.storage().unwrap().is_dirty());
    let staged = worker
        .receive(&WorkerMessage::update_frecency("/a".to_string()).to_document())
        .unwrap();
    assert_eq!(staged.operation, Operation::UpdateFrecency);
    assert!(worker.storage().unwrap().is_dirty());
}
