//! The storage file as a JSON document.
//!
//! The file is one object with three members: `version`, a number;
//! `projects`, an object that maps each path to the record of its project;
//! and `sessions`, a list of session records. `projects` and `sessions` may
//! be missing, which means that there are none. Members that are not named
//! here are ignored.
//!
//! A project record is an object with `path`, `name`, `last_accessed`,
//! `access_count`, `created_at` and `layout`; `last_accessed` and `layout`
//! may be `null` or missing. The key under which a record stands is the
//! identity of its project and becomes the path of the record. A session
//! record is an object with `name` and `project_path`.

use crate::document::{
    items_view, lemma_items_view, lemma_member_at, lemma_members_view, lookup, member,
    members_view, number_json, number_or_null, optional_number, optional_text, read_number,
    read_optional_number, read_optional_text, read_text, required_number, required_text,
    text_json, text_or_null, Json, JsonView,
};
use crate::storage::json::{StorageData, StorageDataView};
use crate::storage::models::{
    ProjectRecord, ProjectRecordView, SessionRecord, SessionRecordView,
};
use crate::text::optional_view;
use vstd::prelude::*;
use vstd::string::StringExecFns;

verus! {

/// The part of a document that does not have the form of a storage file.
#[derive(Debug, Clone, Copy, PartialEq, Eq, Structural)]
pub enum Flaw {
    /// The document is no object.
    Document,
    /// `version` is missing or no number of 32 bits without sign.
    Version,
    /// `projects` is no object.
    Projects,
    /// A member of `projects` is no project record.
    Project,
    /// `sessions` is no list.
    Sessions,
    /// An item of `sessions` is no session record.
    Session,
}

impl Flaw {
    /// What is wrong, in words.
    pub open spec fn described(self) -> Seq<char> {
        match self {
            Flaw::Document => "the document is not an object"@,
            Flaw::Version => "missing or invalid field `version`"@,
            Flaw::Projects => "field `projects` is not an object"@,
            Flaw::Project => "invalid project record"@,
            Flaw::Sessions => "field `sessions` is not a list"@,
            Flaw::Session => "invalid session record"@,
        }
    }

    /// What is wrong, in words.
    pub fn describe(&self) -> (text: &'static str)
        ensures
            text@ == self.described(),
    {
        match self {
            Flaw::Document => "the document is not an object",
            Flaw::Version => "missing or invalid field `version`",
            Flaw::Projects => "field `projects` is not an object",
            Flaw::Project => "invalid project record",
            Flaw::Sessions => "field `sessions` is not a list",
            Flaw::Session => "invalid session record",
        }
    }
}

/// The document of a project record.
pub open spec fn record_document(record: ProjectRecordView) -> JsonView {
    JsonView::Object(
        seq![
            ("path"@, JsonView::Text(record.path)),
            ("name"@, JsonView::Text(record.name)),
            ("last_accessed"@, number_or_null(record.last_accessed)),
            ("access_count"@, JsonView::Integer(record.access_count as i64)),
            ("created_at"@, JsonView::Integer(record.created_at)),
            ("layout"@, text_or_null(record.layout)),
        ],
    )
}

/// The document of a session record.
pub open spec fn session_document(session: SessionRecordView) -> JsonView {
    JsonView::Object(
        seq![
            ("name"@, JsonView::Text(session.name)),
            ("project_path"@, JsonView::Text(session.project_path)),
        ],
    )
}

/// The members of `projects`: each record under its path.
pub open spec fn project_members(records: Seq<ProjectRecordView>) -> Seq<(Seq<char>, JsonView)> {
    Seq::new(records.len(), |k: int| (records[k].path, record_document(records[k])))
}

/// The items of `sessions`.
pub open spec fn session_items(sessions: Seq<SessionRecordView>) -> Seq<JsonView> {
    Seq::new(sessions.len(), |k: int| session_document(sessions[k]))
}

/// The document of a dataset.
pub open spec fn document_of(data: StorageDataView) -> JsonView {
    JsonView::Object(
        seq![
            ("version"@, JsonView::Integer(data.version as i64)),
            ("projects"@, JsonView::Object(project_members(data.projects))),
            ("sessions"@, JsonView::List(session_items(data.sessions))),
        ],
    )
}

/// The project record that stands under `key`, if the value is one.
pub open spec fn read_record(key: Seq<char>, value: JsonView) -> Option<ProjectRecordView> {
    let path = read_text(value.member("path"@));
    let name = read_text(value.member("name"@));
    let last_accessed = read_optional_number(value.member("last_accessed"@));
    let access_count = read_number(value.member("access_count"@), i32::MIN as int, i32::MAX as int);
    let created_at = read_number(value.member("created_at"@), i64::MIN as int, i64::MAX as int);
    let layout = read_optional_text(value.member("layout"@));
    if path is Some && name is Some && last_accessed is Some && access_count is Some
        && created_at is Some && layout is Some {
        Some(
            ProjectRecordView {
                path: key,
                name: name->0,
                last_accessed: last_accessed->0,
                access_count: access_count->0 as i32,
                created_at: created_at->0,
                layout: layout->0,
            },
        )
    } else {
        None
    }
}

/// The session record that the value is, if it is one.
pub open spec fn read_session(value: JsonView) -> Option<SessionRecordView> {
    let name = read_text(value.member("name"@));
    let project_path = read_text(value.member("project_path"@));
    if name is Some && project_path is Some {
        Some(SessionRecordView { name: name->0, project_path: project_path->0 })
    } else {
        None
    }
}

/// The project records of the members, in order, if each is one.
pub open spec fn read_records(members: Seq<(Seq<char>, JsonView)>) -> Option<
    Seq<ProjectRecordView>,
>
    decreases members.len(),
{
    if members.len() == 0 {
        Some(Seq::empty())
    } else {
        match (
            read_records(members.drop_last()),
            read_record(members.last().0, members.last().1),
        ) {
            (Some(before), Some(record)) => Some(before.push(record)),
            _ => None,
        }
    }
}

/// The session records of the items, in order, if each is one.
pub open spec fn read_sessions(items: Seq<JsonView>) -> Option<Seq<SessionRecordView>>
    decreases items.len(),
{
    if items.len() == 0 {
        Some(Seq::empty())
    } else {
        match (read_sessions(items.drop_last()), read_session(items.last())) {
            (Some(before), Some(session)) => Some(before.push(session)),
            _ => None,
        }
    }
}

/// The projects of a document: none if `projects` is missing.
pub open spec fn read_projects(document: JsonView) -> Result<Seq<ProjectRecordView>, Flaw> {
    match document.member("projects"@) {
        None => Ok(Seq::empty()),
        Some(JsonView::Object(members)) => match read_records(members) {
            Some(records) => Ok(records),
            None => Err(Flaw::Project),
        },
        Some(_) => Err(Flaw::Projects),
    }
}

/// The sessions of a document: none if `sessions` is missing.
pub open spec fn read_all_sessions(document: JsonView) -> Result<Seq<SessionRecordView>, Flaw> {
    match document.member("sessions"@) {
        None => Ok(Seq::empty()),
        Some(JsonView::List(items)) => match read_sessions(items) {
            Some(sessions) => Ok(sessions),
            None => Err(Flaw::Session),
        },
        Some(_) => Err(Flaw::Sessions),
    }
}

/// The dataset that a document holds, or the first part of it that does
/// not have the form: the document itself, then `version`, `projects` and
/// `sessions`.
pub open spec fn dataset_of(document: JsonView) -> Result<StorageDataView, Flaw> {
    if !(document is Object) {
        Err(Flaw::Document)
    } else {
        match read_number(document.member("version"@), 0, u32::MAX as int) {
            None => Err(Flaw::Version),
            Some(version) => match read_projects(document) {
                Err(flaw) => Err(flaw),
                Ok(projects) => match read_all_sessions(document) {
                    Err(flaw) => Err(flaw),
                    Ok(sessions) => Ok(
                        StorageDataView { version: version as u32, projects, sessions },
                    ),
                },
            },
        }
    }
}

proof fn lemma_record_round_trip(record: ProjectRecordView)
    ensures
        read_record(record.path, record_document(record)) == Some(record),
{
    reveal_strlit("path");
    reveal_strlit("name");
    reveal_strlit("last_accessed");
    reveal_strlit("access_count");
    reveal_strlit("created_at");
    reveal_strlit("layout");
    let members = record_document(record)->Object_0;
    assert("path"@[0] != "name"@[0]);
    assert("path"@.len() == 4 && "name"@.len() == 4 && "last_accessed"@.len() == 13
        && "access_count"@.len() == 12 && "created_at"@.len() == 10 && "layout"@.len() == 6);
    lemma_member_at(members, 0, "path"@);
    lemma_member_at(members, 1, "name"@);
    lemma_member_at(members, 2, "last_accessed"@);
    lemma_member_at(members, 3, "access_count"@);
    lemma_member_at(members, 4, "created_at"@);
    lemma_member_at(members, 5, "layout"@);
}

proof fn lemma_session_round_trip(session: SessionRecordView)
    ensures
        read_session(session_document(session)) == Some(session),
{
    reveal_strlit("name");
    reveal_strlit("project_path");
    let members = session_document(session)->Object_0;
    assert("name"@.len() == 4 && "project_path"@.len() == 12);
    lemma_member_at(members, 0, "name"@);
    lemma_member_at(members, 1, "project_path"@);
}

proof fn lemma_records_round_trip(records: Seq<ProjectRecordView>)
    ensures
        read_records(project_members(records)) == Some(records),
    decreases records.len(),
{
    if records.len() == 0 {
        assert(records =~= Seq::empty());
    } else {
        lemma_records_round_trip(records.drop_last());
        lemma_record_round_trip(records.last());
        assert(project_members(records).drop_last() =~= project_members(records.drop_last()));
        assert(records.drop_last().push(records.last()) =~= records);
    }
}

proof fn lemma_sessions_round_trip(sessions: Seq<SessionRecordView>)
    ensures
        read_sessions(session_items(sessions)) == Some(sessions),
    decreases sessions.len(),
{
    if sessions.len() == 0 {
        assert(sessions =~= Seq::empty());
    } else {
        lemma_sessions_round_trip(sessions.drop_last());
        lemma_session_round_trip(sessions.last());
        assert(session_items(sessions).drop_last() =~= session_items(sessions.drop_last()));
        assert(sessions.drop_last().push(sessions.last()) =~= sessions);
    }
}

/// Writing a dataset as a document and reading the document gives the
/// dataset back: every record, every field, in the same order.
pub proof fn lemma_round_trip(data: StorageDataView)
    ensures
        dataset_of(document_of(data)) == Ok::<StorageDataView, Flaw>(data),
{
    reveal_strlit("version");
    reveal_strlit("projects");
    reveal_strlit("sessions");
    let members = document_of(data)->Object_0;
    assert("projects"@[0] != "sessions"@[0]);
    assert("version"@.len() == 7 && "projects"@.len() == 8 && "sessions"@.len() == 8);
    lemma_member_at(members, 0, "version"@);
    lemma_member_at(members, 1, "projects"@);
    lemma_member_at(members, 2, "sessions"@);
    lemma_records_round_trip(data.projects);
    lemma_sessions_round_trip(data.sessions);
}

fn write_record(record: &ProjectRecord) -> (value: Json)
    ensures
        value@ == record_document(record@),
{
    let mut members: Vec<(String, Json)> = Vec::new();
    members.push(member("path", Json::Text(record.path.clone())));
    members.push(member("name", Json::Text(record.name.clone())));
    members.push(member("last_accessed", number_json(&record.last_accessed)));
    members.push(member("access_count", Json::Integer(record.access_count as i64)));
    members.push(member("created_at", Json::Integer(record.created_at)));
    members.push(member("layout", text_json(&record.layout)));
    proof {
        lemma_members_view(members);
        assert(members_view(members) =~= record_document(record@)->Object_0);
    }
    Json::Object(members)
}

fn write_session(session: &SessionRecord) -> (value: Json)
    ensures
        value@ == session_document(session@),
{
    let mut members: Vec<(String, Json)> = Vec::new();
    members.push(member("name", Json::Text(session.name.clone())));
    members.push(member("project_path", Json::Text(session.project_path.clone())));
    proof {
        lemma_members_view(members);
        assert(members_view(members) =~= session_document(session@)->Object_0);
    }
    Json::Object(members)
}

/// The document of a dataset.
pub fn encode(data: &StorageData) -> (document: Json)
    ensures
        document@ == document_of(data@),
{
    let mut projects: Vec<(String, Json)> = Vec::new();
    let mut i: usize = 0;
    while i < data.projects.len()
        invariant
            i <= data.projects.len(),
            projects.len() == i,
            forall|k: int|
                0 <= k < i ==> (#[trigger] projects[k]).0@ == data.projects[k].path@
                    && projects[k].1@ == record_document(data.projects[k]@),
        decreases data.projects.len() - i,
    {
        let record = &data.projects[i];
        projects.push((record.path.clone(), write_record(record)));
        i += 1;
    }
    let mut sessions: Vec<Json> = Vec::new();
    let mut j: usize = 0;
    while j < data.sessions.len()
        invariant
            j <= data.sessions.len(),
            sessions.len() == j,
            forall|k: int|
                0 <= k < j ==> (#[trigger] sessions[k])@ == session_document(data.sessions[k]@),
        decreases data.sessions.len() - j,
    {
        sessions.push(write_session(&data.sessions[j]));
        j += 1;
    }
    proof {
        lemma_members_view(projects);
        lemma_items_view(sessions);
        assert(members_view(projects) =~= project_members(data@.projects));
        assert(items_view(sessions) =~= session_items(data@.sessions));
    }
    let mut members: Vec<(String, Json)> = Vec::new();
    members.push(member("version", Json::Integer(data.version as i64)));
    members.push(member("projects", Json::Object(projects)));
    members.push(member("sessions", Json::List(sessions)));
    proof {
        lemma_members_view(members);
        assert(members_view(members) =~= document_of(data@)->Object_0);
    }
    Json::Object(members)
}

fn decode_record(key: &String, value: &Json) -> (record: Option<ProjectRecord>)
    ensures
        match record {
            Some(r) => read_record(key@, value@) == Some(r@),
            None => read_record(key@, value@) is None,
        },
{
    let path = required_text(lookup(value, "path"));
    let name = required_text(lookup(value, "name"));
    let last_accessed = optional_number(lookup(value, "last_accessed"));
    let access_count = required_number(lookup(value, "access_count"), -0x8000_0000, 0x7fff_ffff);
    let created_at = required_number(
        lookup(value, "created_at"),
        -0x8000_0000_0000_0000,
        0x7fff_ffff_ffff_ffff,
    );
    let layout = optional_text(lookup(value, "layout"));
    match (path, name, last_accessed, access_count, created_at, layout) {
        (Some(_), Some(name), Some(last_accessed), Some(access_count), Some(created_at), Some(layout)) => {
            Some(
                ProjectRecord {
                    path: key.clone(),
                    name,
                    last_accessed,
                    access_count: access_count as i32,
                    created_at,
                    layout,
                },
            )
        },
        _ => None,
    }
}

fn decode_session(value: &Json) -> (session: Option<SessionRecord>)
    ensures
        match session {
            Some(s) => read_session(value@) == Some(s@),
            None => read_session(value@) is None,
        },
{
    let name = required_text(lookup(value, "name"));
    let project_path = required_text(lookup(value, "project_path"));
    match (name, project_path) {
        (Some(name), Some(project_path)) => Some(SessionRecord { name, project_path }),
        _ => None,
    }
}

fn decode_records(members: &Vec<(String, Json)>) -> (records: Option<Vec<ProjectRecord>>)
    ensures
        match records {
            Some(r) => read_records(members_view(*members)) == Some(r.deep_view()),
            None => read_records(members_view(*members)) is None,
        },
{
    let ghost views = members_view(*members);
    let mut records: Vec<ProjectRecord> = Vec::new();
    let mut i: usize = 0;
    proof {
        lemma_members_view(*members);
        assert(views.take(0) =~= Seq::<(Seq<char>, JsonView)>::empty());
        assert(records.deep_view() =~= Seq::<ProjectRecordView>::empty());
    }
    while i < members.len()
        invariant
            i <= members.len(),
            views == members_view(*members),
            views.len() == members.len(),
            forall|k: int|
                0 <= k < members.len() ==> #[trigger] views[k] == (members[k].0@, members[k].1@),
            read_records(views.take(i as int)) == Some(records.deep_view()),
        decreases members.len() - i,
    {
        let ghost before = records.deep_view();
        assert(views.take(i + 1).drop_last() =~= views.take(i as int));
        assert(views.take(i + 1).last() == views[i as int]);
        match decode_record(&members[i].0, &members[i].1) {
            Some(record) => {
                records.push(record);
                assert(records.deep_view() =~= before.push(record@));
            },
            None => {
                proof {
                    lemma_read_records_fail(views, i + 1);
                }
                return None;
            },
        }
        i += 1;
    }
    assert(views.take(members.len() as int) =~= views);
    Some(records)
}

/// Members that cannot all be read up to some point cannot all be read.
proof fn lemma_read_records_fail(members: Seq<(Seq<char>, JsonView)>, count: int)
    requires
        0 <= count <= members.len(),
        read_records(members.take(count)) is None,
    ensures
        read_records(members) is None,
    decreases members.len(),
{
    if count < members.len() {
        assert(members.drop_last().take(count) =~= members.take(count));
        lemma_read_records_fail(members.drop_last(), count);
    } else {
        assert(members.take(count) =~= members);
    }
}

/// Items that cannot all be read up to some point cannot all be read.
proof fn lemma_read_sessions_fail(items: Seq<JsonView>, count: int)
    requires
        0 <= count <= items.len(),
        read_sessions(items.take(count)) is None,
    ensures
        read_sessions(items) is None,
    decreases items.len(),
{
    if count < items.len() {
        assert(items.drop_last().take(count) =~= items.take(count));
        lemma_read_sessions_fail(items.drop_last(), count);
    } else {
        assert(items.take(count) =~= items);
    }
}

fn decode_sessions(items: &Vec<Json>) -> (sessions: Option<Vec<SessionRecord>>)
    ensures
        match sessions {
            Some(s) => read_sessions(items_view(*items)) == Some(s.deep_view()),
            None => read_sessions(items_view(*items)) is None,
        },
{
    let ghost views = items_view(*items);
    let mut sessions: Vec<SessionRecord> = Vec::new();
    let mut i: usize = 0;
    proof {
        lemma_items_view(*items);
        assert(views.take(0) =~= Seq::<JsonView>::empty());
        assert(sessions.deep_view() =~= Seq::<SessionRecordView>::empty());
    }
    while i < items.len()
        invariant
            i <= items.len(),
            views == items_view(*items),
            views.len() == items.len(),
            forall|k: int| 0 <= k < items.len() ==> #[trigger] views[k] == items[k]@,
            read_sessions(views.take(i as int)) == Some(sessions.deep_view()),
        decreases items.len() - i,
    {
        let ghost before = sessions.deep_view();
        assert(views.take(i + 1).drop_last() =~= views.take(i as int));
        assert(views.take(i + 1).last() == views[i as int]);
        match decode_session(&items[i]) {
            Some(session) => {
                sessions.push(session);
                assert(sessions.deep_view() =~= before.push(session@));
            },
            None => {
                proof {
                    lemma_read_sessions_fail(views, i + 1);
                }
                return None;
            },
        }
        i += 1;
    }
    assert(views.take(items.len() as int) =~= views);
    Some(sessions)
}

/// The dataset that the document holds, or what about the document does
/// not have the form of a storage file.
pub fn decode(document: &Json) -> (result: Result<StorageData, Flaw>)
    ensures
        match result {
            Ok(data) => dataset_of(document@) == Ok::<StorageDataView, Flaw>(data@),
            Err(flaw) => dataset_of(document@) == Err::<StorageDataView, Flaw>(flaw),
        },
{
    if document.object().is_none() {
        return Err(Flaw::Document);
    }
    let version = match required_number(lookup(document, "version"), 0, 0xffff_ffff) {
        Some(version) => version as u32,
        None => {
            return Err(Flaw::Version);
        },
    };
    let projects = match lookup(document, "projects") {
        None => {
            let none: Vec<ProjectRecord> = Vec::new();
            assert(none.deep_view() =~= Seq::<ProjectRecordView>::empty());
            none
        },
        Some(value) => match value.object() {
            Some(members) => match decode_records(members) {
                Some(records) => records,
                None => {
                    return Err(Flaw::Project);
                },
            },
            None => {
                return Err(Flaw::Projects);
            },
        },
    };
    let sessions = match lookup(document, "sessions") {
        None => {
            let none: Vec<SessionRecord> = Vec::new();
            assert(none.deep_view() =~= Seq::<SessionRecordView>::empty());
            none
        },
        Some(value) => match value.list() {
            Some(items) => match decode_sessions(items) {
                Some(sessions) => sessions,
                None => {
                    return Err(Flaw::Session);
                },
            },
            None => {
                return Err(Flaw::Sessions);
            },
        },
    };
    Ok(StorageData { version, projects, sessions })
}

} // verus!
