use zessionizer::document::Json;
use zessionizer::storage::{
    decode, encode, Flaw, JsonStorage, LoadOutcome, ProjectRecord, SessionRecord, Storage,
    StorageData,
};
use zessionizer::ZessionizerError;

fn text(value: &str) -> Json {
    Json::Text(value.to_string())
}

fn object(members: Vec<(&str, Json)>) -> Json {
    Json::Object(members.into_iter().map(|(key, value)| (key.to_string(), value)).collect())
}

fn record(path: &str, name: &str, last: Option<i64>, count: i32, layout: Option<&str>) -> ProjectRecord {
    ProjectRecord {
        path: path.to_string(),
        name: name.to_string(),
        last_accessed: last,
        access_count: count,
        created_at: 1234567000,
        layout: layout.map(str::to_string),
    }
}

fn record_document(path: &str) -> Json {
    object(vec![
        ("path", text(path)),
        ("name", text("project")),
        ("last_accessed", Json::Integer(1234567890)),
        ("access_count", Json::Integer(5)),
        ("created_at", Json::Integer(1234567000)),
    ])
}

fn sample() -> StorageData {
    StorageData {
        version: 1,
        projects: vec![
            record("/z/last", "last", None, 1, None),
            record("/a/first", "first", Some(i64::MIN), i32::MAX, Some("dev")),
            record("/m/mid", "", Some(i64::MAX), i32::MIN, Some("")),
        ],
        sessions: vec![SessionRecord::new("first", "/a/first"), SessionRecord::new("x", "/gone")],
    }
}

#[test]
fn dataset_is_written_field_by_field() {
    let data = StorageData {
        version: 1,
        projects: vec![record("/p", "p", None, 2, Some("l"))],
        sessions: vec![SessionRecord::new("s", "/p")],
    };
    assert_eq!(
        encode(&data),
        object(vec![
            ("version", Json::Integer(1)),
            (
                "projects",
                object(vec![(
                    "/p",
                    object(vec![
                        ("path", text("/p")),
                        ("name", text("p")),
                        ("last_accessed", Json::Null),
                        ("access_count", Json::Integer(2)),
                        ("created_at", Json::Integer(1234567000)),
                        ("layout", text("l")),
                    ])
                )])
            ),
            ("sessions", Json::List(vec![object(vec![("name", text("s")), ("project_path", text("/p"))])])),
        ])
    );
}

#[test]
fn written_dataset_reads_back_identical() {
    let data = sample();
    assert_eq!(decode(&encode(&data)), Ok(data.clone()));
    let empty = StorageData::default();
    assert_eq!(decode(&encode(&empty)), Ok(empty));
}

#[test]
fn store_survives_write_and_reload() {
    let mut store = JsonStorage::new("/d/p.json".to_string(), LoadOutcome::Absent).unwrap();
    store.add_projects_batch(&sample().projects).unwrap();
    store.sync_sessions(&["first".to_string()]).unwrap();
    let reloaded =
        JsonStorage::new("/d/p.json".to_string(), LoadOutcome::Parsed(store.document())).unwrap();
    assert_eq!(reloaded.data(), store.data());
    assert!(!reloaded.is_dirty());
    assert_eq!(reloaded.document(), store.document());
}

#[test]
fn missing_projects_and_sessions_are_empty() {
    let document = object(vec![("version", Json::Integer(1))]);
    assert_eq!(decode(&document), Ok(StorageData::default()));
    let document = object(vec![("sessions", Json::List(vec![])), ("version", Json::Integer(9))]);
    assert_eq!(
        decode(&document),
        Ok(StorageData { version: 9, projects: vec![], sessions: vec![] })
    );
}

#[test]
fn optional_fields_may_be_missing_or_null() {
    let document = object(vec![
        ("version", Json::Integer(1)),
        ("extra", Json::Bool(true)),
        (
            "projects",
            object(vec![
                ("/path/to/project", record_document("/path/to/project")),
                (
                    "/null",
                    object(vec![
                        ("layout", Json::Null),
                        ("last_accessed", Json::Null),
                        ("created_at", Json::Integer(1234567000)),
                        ("access_count", Json::Integer(1)),
                        ("name", text("null")),
                        ("path", text("/null")),
                        ("unknown", Json::List(vec![Json::OtherNumber])),
                    ]),
                ),
            ]),
        ),
    ]);
    let data = decode(&document).unwrap();
    assert_eq!(
        data.projects,
        vec![
            record("/path/to/project", "project", Some(1234567890), 5, None),
            record("/null", "null", None, 1, None),
        ]
    );
}

#[test]
fn key_of_a_record_is_its_path() {
    let document = object(vec![
        ("version", Json::Integer(1)),
        ("projects", object(vec![("/key", record_document("/field"))])),
    ]);
    assert_eq!(decode(&document).unwrap().projects[0].path, "/key");
}

#[test]
fn each_flaw_is_told_apart() {
    assert_eq!(decode(&Json::List(vec![])), Err(Flaw::Document));
    assert_eq!(decode(&Json::Null), Err(Flaw::Document));
    assert_eq!(decode(&object(vec![])), Err(Flaw::Version));
    assert_eq!(decode(&object(vec![("version", text("1"))])), Err(Flaw::Version));
    assert_eq!(decode(&object(vec![("version", Json::Integer(-1))])), Err(Flaw::Version));
    assert_eq!(
        decode(&object(vec![("version", Json::Integer(4_294_967_296))])),
        Err(Flaw::Version)
    );
    assert_eq!(decode(&object(vec![("version", Json::OtherNumber)])), Err(Flaw::Version));
    assert!(decode(&object(vec![("version", Json::Integer(4_294_967_295))])).is_ok());
    let with = |key: &str, value: Json| object(vec![("version", Json::Integer(1)), (key, value)]);
    assert_eq!(decode(&with("projects", Json::List(vec![]))), Err(Flaw::Projects));
    assert_eq!(decode(&with("projects", Json::Null)), Err(Flaw::Projects));
    assert_eq!(decode(&with("projects", object(vec![("/p", Json::Null)]))), Err(Flaw::Project));
    assert_eq!(decode(&with("sessions", object(vec![]))), Err(Flaw::Sessions));
    assert_eq!(decode(&with("sessions", Json::List(vec![text("s")]))), Err(Flaw::Session));
    assert_eq!(
        decode(&with("sessions", Json::List(vec![object(vec![("name", text("s"))])]))),
        Err(Flaw::Session)
    );
}

fn required_fields() -> Vec<(&'static str, Json)> {
    vec![
        ("path", text("/p")),
        ("name", text("p")),
        ("access_count", Json::Integer(1)),
        ("created_at", Json::Integer(0)),
    ]
}

fn in_file(members: Vec<(&str, Json)>) -> Json {
    object(vec![("version", Json::Integer(1)), ("projects", object(vec![("/p", object(members))]))])
}

#[test]
fn project_record_needs_every_required_field() {
    assert!(decode(&in_file(required_fields())).is_ok());
    for missing in 0..required_fields().len() {
        let mut members = required_fields();
        members.remove(missing);
        assert_eq!(decode(&in_file(members)), Err(Flaw::Project));
    }
}

#[test]
fn project_record_fields_have_types_and_ranges() {
    let mut wrong = required_fields();
    wrong.push(("layout", Json::Integer(3)));
    assert_eq!(decode(&in_file(wrong)), Err(Flaw::Project));
    let mut wrong = required_fields();
    wrong.push(("last_accessed", text("yesterday")));
    assert_eq!(decode(&in_file(wrong)), Err(Flaw::Project));
    let mut wrong = required_fields();
    wrong[2] = ("access_count", Json::Integer(2_147_483_648));
    assert_eq!(decode(&in_file(wrong)), Err(Flaw::Project));
    let mut edge = required_fields();
    edge[2] = ("access_count", Json::Integer(-2_147_483_648));
    assert!(decode(&in_file(edge)).is_ok());
}

#[test]
fn first_of_repeated_members_counts() {
    let document = object(vec![("version", Json::Integer(2)), ("version", Json::Integer(3))]);
    assert_eq!(decode(&document).unwrap().version, 2);
}

#[test]
fn flawed_document_does_not_open_a_store() {
    let result = JsonStorage::new(
        "/d/p.json".to_string(),
        LoadOutcome::Parsed(object(vec![("projects", object(vec![]))])),
    );
    assert_eq!(
        result.unwrap_err(),
        ZessionizerError::Storage(
            "failed to parse JSON: missing or invalid field `version`".to_string()
        )
    );
    assert_eq!(Flaw::Document.describe(), "the document is not an object");
    assert_eq!(Flaw::Projects.describe(), "field `projects` is not an object");
    assert_eq!(Flaw::Project.describe(), "invalid project record");
    assert_eq!(Flaw::Sessions.describe(), "field `sessions` is not a list");
    assert_eq!(Flaw::Session.describe(), "invalid session record");
}

#[test]
fn document_accessors() {
    let list = Json::List(vec![Json::Bool(true)]);
    assert_eq!(list.list().unwrap().len(), 1);
    assert!(list.object().is_none());
    assert_eq!(Json::Integer(4).integer(), Some(4));
    assert_eq!(Json::OtherNumber.integer(), None);
    assert_eq!(text("t").text().unwrap(), "t");
    assert!(Json::Null.is_null());
    assert!(!Json::Bool(false).is_null());
    assert!(object(vec![]).object().unwrap().is_empty());
}

#[test]
fn crash_before_rename_leaves_previous_snapshot() {
    let mut disk: Vec<(String, Json)> = Vec::new();
    let mut store = JsonStorage::new("/d/projects.json".to_string(), LoadOutcome::Absent).unwrap();
    store.add_project(&record("/a", "a", None, 1, None)).unwrap();
    let plan = store.pending_commit().unwrap();
    assert_ne!(plan.temp_path, plan.file_path);
    disk.push((plan.temp_path.clone(), store.document()));
    let written = disk.pop().unwrap().1;
    disk.push((plan.file_path.clone(), written));
    store.commit_finished(Ok(())).unwrap();
    let committed = store.document();

    store.update_project_access("/a", 99).unwrap();
    store.add_project(&record("/b", "b", None, 1, None)).unwrap();
    let plan = store.pending_commit().unwrap();
    disk.push((plan.temp_path.clone(), store.document()));

    let on_disk = disk.iter().find(|(path, _)| *path == plan.file_path).unwrap();
    assert_eq!(on_disk.1, committed);
    let reloaded = JsonStorage::new(
        "/d/projects.json".to_string(),
        LoadOutcome::Parsed(encode(&decode(&on_disk.1).unwrap())),
    )
    .unwrap();
    assert_eq!(reloaded.data().projects, vec![record("/a", "a", None, 1, None)]);
    assert_ne!(store.data(), reloaded.data());
}
