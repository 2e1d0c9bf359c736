use serde_json::Value;
use zessionizer::document::Json;
use zessionizer::worker::{TraceContext, WorkerMessage, WorkerResponse};
use zessionizer::Project;

fn document_from(value: Value) -> Json {
    match value {
        Value::Null => Json::Null,
        Value::Bool(flag) => Json::Bool(flag),
        Value::Number(number) => number.as_i64().map_or(Json::OtherNumber, Json::Integer),
        Value::String(text) => Json::Text(text),
        Value::Array(items) => Json::List(items.into_iter().map(document_from).collect()),
        Value::Object(members) => Json::Object(
            members.into_iter().map(|(key, value)| (key, document_from(value))).collect(),
        ),
    }
}

fn value_from(document: Json) -> Value {
    match document {
        Json::Null | Json::OtherNumber => Value::Null,
        Json::Bool(flag) => Value::Bool(flag),
        Json::Integer(number) => Value::Number(number.into()),
        Json::Text(text) => Value::String(text),
        Json::List(items) => Value::Array(items.into_iter().map(value_from).collect()),
        Json::Object(members) => Value::Object(
            members.into_iter().map(|(key, value)| (key, value_from(value))).collect(),
        ),
    }
}

fn parse(text: &str) -> Json {
    document_from(serde_json::from_str(text).unwrap())
}

fn same_json(document: Json, text: &str) -> bool {
    value_from(document) == serde_json::from_str::<Value>(text).unwrap()
}

fn trace() -> TraceContext {
    TraceContext {
        trace_id: "0af7651916cd43dd8448eb211c80319c".to_string(),
        parent_span_id: "b7ad6b7169203331".to_string(),
    }
}

fn messages() -> Vec<WorkerMessage> {
    let mut all = Vec::new();
    for context in [None, Some(trace())] {
        all.push(WorkerMessage::LoadProjects { with_sessions: true, trace_context: context.clone() });
        all.push(WorkerMessage::UpdateFrecency {
            path: "/p".to_string(),
            trace_context: context.clone(),
        });
        all.push(WorkerMessage::AddProjectsBatch {
            projects: vec![("/a".to_string(), "a".to_string()), ("/b".to_string(), "b".to_string())],
            trace_context: context.clone(),
        });
        all.push(WorkerMessage::AddProjectsBatch { projects: vec![], trace_context: context.clone() });
        all.push(WorkerMessage::SyncSessions {
            active_sessions: vec!["x".to_string(), "".to_string()],
            trace_context: context.clone(),
        });
        all.push(WorkerMessage::UpdateProjectLayout {
            path: "/p".to_string(),
            layout: Some("dev".to_string()),
            trace_context: context.clone(),
        });
        all.push(WorkerMessage::UpdateProjectLayout {
            path: "/p".to_string(),
            layout: None,
            trace_context: context,
        });
    }
    all
}

fn project(id: Option<i64>, layout: Option<&str>) -> Project {
    Project {
        id,
        path: "/p/a".to_string(),
        name: "a".to_string(),
        last_accessed: -5,
        created_at: i64::MAX,
        layout: layout.map(str::to_string),
    }
}

fn responses() -> Vec<WorkerResponse> {
    vec![
        WorkerResponse::ProjectsLoaded { projects: vec![] },
        WorkerResponse::ProjectsLoaded {
            projects: vec![project(None, None), project(Some(7), Some("l"))],
        },
        WorkerResponse::FrecencyUpdated { path: "/p".to_string() },
        WorkerResponse::ProjectsBatchAdded { count: 2, projects: vec![project(None, Some(""))] },
        WorkerResponse::SessionsSynced { count: 0 },
        WorkerResponse::Error { message: "load projects: Storage error: x".to_string() },
        WorkerResponse::LayoutUpdated { path: "".to_string() },
    ]
}

#[test]
fn every_request_reads_back() {
    for message in messages() {
        assert_eq!(WorkerMessage::from_document(&message.to_document()), Some(message));
    }
}

#[test]
fn every_response_reads_back() {
    for response in responses() {
        assert_eq!(WorkerResponse::from_document(&response.to_document()), Some(response));
    }
}

#[test]
fn requests_survive_the_text_form() {
    for message in messages() {
        let text = serde_json::to_string(&value_from(message.to_document())).unwrap();
        assert_eq!(WorkerMessage::from_document(&parse(&text)), Some(message));
    }
    for response in responses() {
        let text = serde_json::to_string(&value_from(response.to_document())).unwrap();
        assert_eq!(WorkerResponse::from_document(&parse(&text)), Some(response));
    }
}

#[test]
fn request_without_trace_context_has_no_such_field() {
    let message = WorkerMessage::load_projects(false);
    assert!(same_json(message.to_document(), r#"{"LoadProjects":{"with_sessions":false}}"#));
    let message = WorkerMessage::update_project_layout("/p".to_string(), None);
    assert!(same_json(
        message.to_document(),
        r#"{"UpdateProjectLayout":{"path":"/p","layout":null}}"#
    ));
}

#[test]
fn request_with_trace_context_carries_both_identifiers() {
    let message = WorkerMessage::sync_sessions(vec!["a".to_string()])
        .with_trace_context(Some(trace()));
    assert!(same_json(
        message.to_document(),
        r#"{"SyncSessions":{"active_sessions":["a"],"trace_context":
            {"trace_id":"0af7651916cd43dd8448eb211c80319c","parent_span_id":"b7ad6b7169203331"}}}"#
    ));
}

#[test]
fn batch_entries_are_lists_of_path_and_name() {
    let message = WorkerMessage::add_projects_batch(vec![("/a/b".to_string(), "b".to_string())]);
    assert!(same_json(
        message.to_document(),
        r#"{"AddProjectsBatch":{"projects":[["/a/b","b"]]}}"#
    ));
    assert_eq!(
        WorkerMessage::from_document(&parse(r#"{"UpdateFrecency":{"path":"/x"}}"#)),
        Some(WorkerMessage::update_frecency("/x".to_string()))
    );
}

#[test]
fn responses_have_their_fields_and_no_trace_context() {
    let response = WorkerResponse::ProjectsBatchAdded {
        count: 1,
        projects: vec![project(None, Some("l"))],
    };
    assert!(same_json(
        response.to_document(),
        r#"{"ProjectsBatchAdded":{"count":1,"projects":[{"id":null,"path":"/p/a","name":"a",
            "last_accessed":-5,"created_at":9223372036854775807,"layout":"l"}]}}"#
    ));
    assert!(same_json(
        WorkerResponse::SessionsSynced { count: 3 }.to_document(),
        r#"{"SessionsSynced":{"count":3}}"#
    ));
    assert!(same_json(
        WorkerResponse::Error { message: "m".to_string() }.to_document(),
        r#"{"Error":{"message":"m"}}"#
    ));
}

#[test]
fn null_trace_context_and_unknown_fields_are_accepted() {
    assert_eq!(
        WorkerMessage::from_document(&parse(
            r#"{"LoadProjects":{"with_sessions":true,"trace_context":null,"more":[1,2.5]}}"#
        )),
        Some(WorkerMessage::load_projects(true))
    );
}

#[test]
fn malformed_requests_are_rejected() {
    let rejected = [
        r#"null"#,
        r#"[]"#,
        r#""LoadProjects""#,
        r#"{}"#,
        r#"{"LoadProjects":{}}"#,
        r#"{"LoadProjects":{"with_sessions":"yes"}}"#,
        r#"{"LoadProjects":{"with_sessions":true},"UpdateFrecency":{"path":"/p"}}"#,
        r#"{"LoadProjects":[true]}"#,
        r#"{"Unknown":{"with_sessions":true}}"#,
        r#"{"loadprojects":{"with_sessions":true}}"#,
        r#"{"UpdateFrecency":{"path":7}}"#,
        r#"{"UpdateFrecency":{"path":"/p","trace_context":{"trace_id":"a"}}}"#,
        r#"{"UpdateFrecency":{"path":"/p","trace_context":"a"}}"#,
        r#"{"AddProjectsBatch":{"projects":[["/a"]]}}"#,
        r#"{"AddProjectsBatch":{"projects":[["/a","a","x"]]}}"#,
        r#"{"AddProjectsBatch":{"projects":[["/a",1]]}}"#,
        r#"{"AddProjectsBatch":{"projects":{"a":"b"}}}"#,
        r#"{"SyncSessions":{"active_sessions":["a",null]}}"#,
        r#"{"SyncSessions":{}}"#,
        r#"{"UpdateProjectLayout":{"layout":"l"}}"#,
        r#"{"UpdateProjectLayout":{"path":"/p","layout":3}}"#,
    ];
    for text in rejected {
        assert_eq!(WorkerMessage::from_document(&parse(text)), None, "{text}");
    }
}

#[test]
fn malformed_responses_are_rejected() {
    let rejected = [
        r#"{}"#,
        r#"{"ProjectsLoaded":{}}"#,
        r#"{"ProjectsLoaded":{"projects":[{}]}}"#,
        r#"{"ProjectsLoaded":{"projects":[{"path":"/p","name":"p","last_accessed":1}]}}"#,
        r#"{"ProjectsLoaded":{"projects":[{"id":"x","path":"/p","name":"p","last_accessed":1,"created_at":1}]}}"#,
        r#"{"ProjectsLoaded":{"projects":[{"path":"/p","name":"p","last_accessed":1.5,"created_at":1}]}}"#,
        r#"{"SessionsSynced":{"count":-1}}"#,
        r#"{"SessionsSynced":{"count":"1"}}"#,
        r#"{"ProjectsBatchAdded":{"projects":[]}}"#,
        r#"{"ProjectsBatchAdded":{"count":1}}"#,
        r#"{"Error":{}}"#,
        r#"{"Error":{"message":null}}"#,
        r#"{"LayoutUpdated":{"path":[]}}"#,
        r#"{"LoadProjects":{"with_sessions":true}}"#,
    ];
    for text in rejected {
        assert_eq!(WorkerResponse::from_document(&parse(text)), None, "{text}");
    }
}

#[test]
fn project_fields_that_may_be_missing() {
    let text = r#"{"ProjectsLoaded":{"projects":[{"path":"/p","name":"p","last_accessed":1,"created_at":2}]}}"#;
    assert_eq!(
        WorkerResponse::from_document(&parse(text)),
        Some(WorkerResponse::ProjectsLoaded {
            projects: vec![Project {
                id: None,
                path: "/p".to_string(),
                name: "p".to_string(),
                last_accessed: 1,
                created_at: 2,
                layout: None,
            }]
        })
    );
}
