//! The messages of the protocol as JSON documents.
//!
//! A message is an object with a single member: the name of its variant,
//! with an object of the variant's fields as value. A request carries its
//! trace context in the field `trace_context`; a request without trace
//! context has no such field. A response never has one.

use crate::document::{
    items_view, lemma_items_view, lemma_member_at, lemma_member_missing, lemma_members_view,
    lemma_read_all_fails, lemma_read_all_reads, lookup, member, member_of, members_view,
    number_json, number_or_null, optional_number, optional_text, read_all, read_bool, read_list,
    read_number, read_optional_number, read_optional_text, read_text, required_bool,
    required_list, required_number, required_text, text_json, text_or_null, Json, JsonView,
};
use crate::domain::project::{Project, ProjectView};
use crate::text::optional_view;
use crate::worker::messages::{
    trace_view, TraceContext, TraceContextView, WorkerMessage, WorkerMessageView, WorkerResponse,
    WorkerResponseView,
};
use vstd::prelude::*;
use vstd::string::StringExecFns;

verus! {

/// The document of a trace context.
pub open spec fn trace_document(trace: TraceContextView) -> JsonView {
    JsonView::Object(
        seq![
            ("trace_id"@, JsonView::Text(trace.trace_id)),
            ("parent_span_id"@, JsonView::Text(trace.parent_span_id)),
        ],
    )
}

/// The fields of a request, with the trace context behind them if there
/// is one.
pub open spec fn with_trace(
    fields: Seq<(Seq<char>, JsonView)>,
    trace: Option<TraceContextView>,
) -> Seq<(Seq<char>, JsonView)> {
    match trace {
        Some(t) => fields.push(("trace_context"@, trace_document(t))),
        None => fields,
    }
}

/// The document of a variant: one member, the fields under the name.
pub open spec fn tagged(name: Seq<char>, fields: Seq<(Seq<char>, JsonView)>) -> JsonView {
    JsonView::Object(seq![(name, JsonView::Object(fields))])
}

/// A path and a name as a list of two.
pub open spec fn pair_document(pair: (Seq<char>, Seq<char>)) -> JsonView {
    JsonView::List(seq![JsonView::Text(pair.0), JsonView::Text(pair.1)])
}

/// Paths and names as a list of lists of two.
pub open spec fn pair_items(pairs: Seq<(Seq<char>, Seq<char>)>) -> Seq<JsonView> {
    Seq::new(pairs.len(), |k: int| pair_document(pairs[k]))
}

/// Texts as a list.
pub open spec fn text_items(texts: Seq<Seq<char>>) -> Seq<JsonView> {
    Seq::new(texts.len(), |k: int| JsonView::Text(texts[k]))
}

/// The document of a request.
pub open spec fn message_document(message: WorkerMessageView) -> JsonView {
    match message {
        WorkerMessageView::LoadProjects { with_sessions, trace_context } => tagged(
            "LoadProjects"@,
            with_trace(seq![("with_sessions"@, JsonView::Bool(with_sessions))], trace_context),
        ),
        WorkerMessageView::UpdateFrecency { path, trace_context } => tagged(
            "UpdateFrecency"@,
            with_trace(seq![("path"@, JsonView::Text(path))], trace_context),
        ),
        WorkerMessageView::AddProjectsBatch { projects, trace_context } => tagged(
            "AddProjectsBatch"@,
            with_trace(
                seq![("projects"@, JsonView::List(pair_items(projects)))],
                trace_context,
            ),
        ),
        WorkerMessageView::SyncSessions { active_sessions, trace_context } => tagged(
            "SyncSessions"@,
            with_trace(
                seq![("active_sessions"@, JsonView::List(text_items(active_sessions)))],
                trace_context,
            ),
        ),
        WorkerMessageView::UpdateProjectLayout { path, layout, trace_context } => tagged(
            "UpdateProjectLayout"@,
            with_trace(
                seq![("path"@, JsonView::Text(path)), ("layout"@, text_or_null(layout))],
                trace_context,
            ),
        ),
    }
}

/// The document of a project.
pub open spec fn project_document(project: ProjectView) -> JsonView {
    JsonView::Object(
        seq![
            ("id"@, number_or_null(project.id)),
            ("path"@, JsonView::Text(project.path)),
            ("name"@, JsonView::Text(project.name)),
            ("last_accessed"@, JsonView::Integer(project.last_accessed)),
            ("created_at"@, JsonView::Integer(project.created_at)),
            ("layout"@, text_or_null(project.layout)),
        ],
    )
}

/// Projects as a list.
pub open spec fn project_items(projects: Seq<ProjectView>) -> Seq<JsonView> {
    Seq::new(projects.len(), |k: int| project_document(projects[k]))
}

/// A count as a number; a count beyond 64 bits with sign is no integer of
/// a document.
pub open spec fn count_document(count: usize) -> JsonView {
    if count <= i64::MAX {
        JsonView::Integer(count as i64)
    } else {
        JsonView::OtherNumber
    }
}

/// The document of a response.
pub open spec fn response_document(response: WorkerResponseView) -> JsonView {
    match response {
        WorkerResponseView::ProjectsLoaded { projects } => tagged(
            "ProjectsLoaded"@,
            seq![("projects"@, JsonView::List(project_items(projects)))],
        ),
        WorkerResponseView::FrecencyUpdated { path } => tagged(
            "FrecencyUpdated"@,
            seq![("path"@, JsonView::Text(path))],
        ),
        WorkerResponseView::ProjectsBatchAdded { count, projects } => tagged(
            "ProjectsBatchAdded"@,
            seq![
                ("count"@, count_document(count)),
                ("projects"@, JsonView::List(project_items(projects))),
            ],
        ),
        WorkerResponseView::SessionsSynced { count } => tagged(
            "SessionsSynced"@,
            seq![("count"@, count_document(count))],
        ),
        WorkerResponseView::Error { message } => tagged(
            "Error"@,
            seq![("message"@, JsonView::Text(message))],
        ),
        WorkerResponseView::LayoutUpdated { path } => tagged(
            "LayoutUpdated"@,
            seq![("path"@, JsonView::Text(path))],
        ),
    }
}

/// The name and the fields of a variant, for a document that is one.
pub open spec fn read_tagged(document: JsonView) -> Option<(Seq<char>, JsonView)> {
    match document {
        JsonView::Object(members) => if members.len() == 1 && members[0].1 is Object {
            Some(members[0])
        } else {
            None
        },
        _ => None,
    }
}

/// What a trace context reads as: none for `null` and for a missing field.
pub open spec fn read_trace(value: Option<JsonView>) -> Option<Option<TraceContextView>> {
    match value {
        None => Some(None),
        Some(JsonView::Null) => Some(None),
        Some(object) => {
            let trace_id = read_text(object.member("trace_id"@));
            let parent_span_id = read_text(object.member("parent_span_id"@));
            if trace_id is Some && parent_span_id is Some {
                Some(
                    Some(
                        TraceContextView {
                            trace_id: trace_id->0,
                            parent_span_id: parent_span_id->0,
                        },
                    ),
                )
            } else {
                None
            }
        },
    }
}

/// What a list of two texts reads as.
pub open spec fn read_pair(value: JsonView) -> Option<(Seq<char>, Seq<char>)> {
    match value {
        JsonView::List(items) => if items.len() == 2 && items[0] is Text && items[1] is Text {
            Some((items[0]->Text_0, items[1]->Text_0))
        } else {
            None
        },
        _ => None,
    }
}

/// What a text reads as.
pub open spec fn read_plain_text(value: JsonView) -> Option<Seq<char>> {
    read_text(Some(value))
}

/// What a list of lists of two texts reads as.
pub open spec fn read_pairs(value: Option<JsonView>) -> Option<Seq<(Seq<char>, Seq<char>)>> {
    match read_list(value) {
        Some(items) => read_all(items, |item: JsonView| read_pair(item)),
        None => None,
    }
}

/// What a list of texts reads as.
pub open spec fn read_texts(value: Option<JsonView>) -> Option<Seq<Seq<char>>> {
    match read_list(value) {
        Some(items) => read_all(items, |item: JsonView| read_plain_text(item)),
        None => None,
    }
}

/// The request that a document holds, if it holds one: a single member
/// with the name of a variant and every field of that variant. Fields that
/// the variant does not have are ignored.
pub open spec fn read_message(document: JsonView) -> Option<WorkerMessageView> {
    match read_tagged(document) {
        None => None,
        Some((name, fields)) => match read_trace(fields.member("trace_context"@)) {
            None => None,
            Some(trace_context) => if name == "LoadProjects"@ {
                match read_bool(fields.member("with_sessions"@)) {
                    Some(with_sessions) => Some(
                        WorkerMessageView::LoadProjects { with_sessions, trace_context },
                    ),
                    None => None,
                }
            } else if name == "UpdateFrecency"@ {
                match read_text(fields.member("path"@)) {
                    Some(path) => Some(WorkerMessageView::UpdateFrecency { path, trace_context }),
                    None => None,
                }
            } else if name == "AddProjectsBatch"@ {
                match read_pairs(fields.member("projects"@)) {
                    Some(projects) => Some(
                        WorkerMessageView::AddProjectsBatch { projects, trace_context },
                    ),
                    None => None,
                }
            } else if name == "SyncSessions"@ {
                match read_texts(fields.member("active_sessions"@)) {
                    Some(active_sessions) => Some(
                        WorkerMessageView::SyncSessions { active_sessions, trace_context },
                    ),
                    None => None,
                }
            } else if name == "UpdateProjectLayout"@ {
                match (
                    read_text(fields.member("path"@)),
                    read_optional_text(fields.member("layout"@)),
                ) {
                    (Some(path), Some(layout)) => Some(
                        WorkerMessageView::UpdateProjectLayout { path, layout, trace_context },
                    ),
                    _ => None,
                }
            } else {
                None
            },
        },
    }
}

/// The project that a document holds, if it holds one.
pub open spec fn read_project(value: JsonView) -> Option<ProjectView> {
    let id = read_optional_number(value.member("id"@));
    let path = read_text(value.member("path"@));
    let name = read_text(value.member("name"@));
    let last_accessed = read_number(
        value.member("last_accessed"@),
        i64::MIN as int,
        i64::MAX as int,
    );
    let created_at = read_number(value.member("created_at"@), i64::MIN as int, i64::MAX as int);
    let layout = read_optional_text(value.member("layout"@));
    if id is Some && path is Some && name is Some && last_accessed is Some && created_at is Some
        && layout is Some {
        Some(
            ProjectView {
                id: id->0,
                path: path->0,
                name: name->0,
                last_accessed: last_accessed->0,
                created_at: created_at->0,
                layout: layout->0,
            },
        )
    } else {
        None
    }
}

/// What a list of projects reads as.
pub open spec fn read_projects(value: Option<JsonView>) -> Option<Seq<ProjectView>> {
    match read_list(value) {
        Some(items) => read_all(items, |item: JsonView| read_project(item)),
        None => None,
    }
}

/// What a count reads as.
pub open spec fn read_count(value: Option<JsonView>) -> Option<usize> {
    match read_number(value, 0, usize::MAX as int) {
        Some(n) => Some(n as usize),
        None => None,
    }
}

/// The response that a document holds, if it holds one.
pub open spec fn read_response(document: JsonView) -> Option<WorkerResponseView> {
    match read_tagged(document) {
        None => None,
        Some((name, fields)) => if name == "ProjectsLoaded"@ {
            match read_projects(fields.member("projects"@)) {
                Some(projects) => Some(WorkerResponseView::ProjectsLoaded { projects }),
                None => None,
            }
        } else if name == "FrecencyUpdated"@ {
            match read_text(fields.member("path"@)) {
                Some(path) => Some(WorkerResponseView::FrecencyUpdated { path }),
                None => None,
            }
        } else if name == "ProjectsBatchAdded"@ {
            match (
                read_count(fields.member("count"@)),
                read_projects(fields.member("projects"@)),
            ) {
                (Some(count), Some(projects)) => Some(
                    WorkerResponseView::ProjectsBatchAdded { count, projects },
                ),
                _ => None,
            }
        } else if name == "SessionsSynced"@ {
            match read_count(fields.member("count"@)) {
                Some(count) => Some(WorkerResponseView::SessionsSynced { count }),
                None => None,
            }
        } else if name == "Error"@ {
            match read_text(fields.member("message"@)) {
                Some(message) => Some(WorkerResponseView::Error { message }),
                None => None,
            }
        } else if name == "LayoutUpdated"@ {
            match read_text(fields.member("path"@)) {
                Some(path) => Some(WorkerResponseView::LayoutUpdated { path }),
                None => None,
            }
        } else {
            None
        },
    }
}

/// The keys and variant names that occur, letter by letter.
proof fn reveal_words()
    ensures
        "trace_context"@.len() == 13,
        "trace_context"@[0] == 't',
        "trace_id"@.len() == 8,
        "parent_span_id"@.len() == 14,
        "with_sessions"@.len() == 13,
        "with_sessions"@[0] == 'w',
        "path"@.len() == 4,
        "path"@[0] == 'p',
        "name"@.len() == 4,
        "name"@[0] == 'n',
        "layout"@.len() == 6,
        "projects"@.len() == 8,
        "active_sessions"@.len() == 15,
        "id"@.len() == 2,
        "last_accessed"@.len() == 13,
        "last_accessed"@[0] == 'l',
        "created_at"@.len() == 10,
        "count"@.len() == 5,
        "message"@.len() == 7,
        "LoadProjects"@.len() == 12,
        "LoadProjects"@[0] == 'L',
        "UpdateFrecency"@.len() == 14,
        "AddProjectsBatch"@.len() == 16,
        "SyncSessions"@.len() == 12,
        "SyncSessions"@[0] == 'S',
        "UpdateProjectLayout"@.len() == 19,
        "ProjectsLoaded"@.len() == 14,
        "ProjectsLoaded"@[0] == 'P',
        "FrecencyUpdated"@.len() == 15,
        "ProjectsBatchAdded"@.len() == 18,
        "SessionsSynced"@.len() == 14,
        "SessionsSynced"@[0] == 'S',
        "Error"@.len() == 5,
        "LayoutUpdated"@.len() == 13,
{
    reveal_strlit("trace_context");
    reveal_strlit("trace_id");
    reveal_strlit("parent_span_id");
    reveal_strlit("with_sessions");
    reveal_strlit("path");
    reveal_strlit("name");
    reveal_strlit("layout");
    reveal_strlit("projects");
    reveal_strlit("active_sessions");
    reveal_strlit("id");
    reveal_strlit("last_accessed");
    reveal_strlit("created_at");
    reveal_strlit("count");
    reveal_strlit("message");
    reveal_strlit("LoadProjects");
    reveal_strlit("UpdateFrecency");
    reveal_strlit("AddProjectsBatch");
    reveal_strlit("SyncSessions");
    reveal_strlit("UpdateProjectLayout");
    reveal_strlit("ProjectsLoaded");
    reveal_strlit("FrecencyUpdated");
    reveal_strlit("ProjectsBatchAdded");
    reveal_strlit("SessionsSynced");
    reveal_strlit("Error");
    reveal_strlit("LayoutUpdated");
}

/// The trace context reads back from the fields that carry it, and none
/// reads from fields without it.
proof fn lemma_trace_round_trip(fields: Seq<(Seq<char>, JsonView)>, trace: Option<TraceContextView>)
    requires
        forall|k: int| 0 <= k < fields.len() ==> (#[trigger] fields[k]).0 != "trace_context"@,
    ensures
        read_trace(member_of(with_trace(fields, trace), "trace_context"@)) == Some(trace),
        forall|key: Seq<char>|
            member_of(fields, key) is Some ==> #[trigger] member_of(with_trace(fields, trace), key)
                == member_of(fields, key),
{
    reveal_words();
    match trace {
        Some(t) => {
            let all = with_trace(fields, trace);
            assert forall|k: int| 0 <= k < fields.len() implies (#[trigger] all[k]).0
                != "trace_context"@ by {
                assert(all[k] == fields[k]);
            }
            lemma_member_at(all, fields.len() as int, "trace_context"@);
            let members = trace_document(t)->Object_0;
            lemma_member_at(members, 0, "trace_id"@);
            lemma_member_at(members, 1, "parent_span_id"@);
            assert forall|key: Seq<char>| member_of(fields, key) is Some implies #[trigger] member_of(
                all,
                key,
            ) == member_of(fields, key) by {
                lemma_member_of_push(fields, ("trace_context"@, trace_document(t)), key);
            }
        },
        None => {
            lemma_member_missing(fields, "trace_context"@);
        },
    }
}

/// A member that is found stays found when another member follows.
proof fn lemma_member_of_push(
    members: Seq<(Seq<char>, JsonView)>,
    last: (Seq<char>, JsonView),
    key: Seq<char>,
)
    requires
        member_of(members, key) is Some,
    ensures
        member_of(members.push(last), key) == member_of(members, key),
    decreases members.len(),
{
    if members.len() > 0 {
        assert(members.push(last)[0] == members[0]);
        if members[0].0 != key {
            assert(members.push(last).skip(1) =~= members.skip(1).push(last));
            lemma_member_of_push(members.skip(1), last, key);
        }
    }
}

/// A request that is written as a document reads back as the same
/// request, with its trace context or without.
pub proof fn lemma_message_round_trip(message: WorkerMessageView)
    ensures
        read_message(message_document(message)) == Some(message),
{
    reveal_words();
    match message {
        WorkerMessageView::LoadProjects { with_sessions, trace_context } => {
            let fields = seq![("with_sessions"@, JsonView::Bool(with_sessions))];
            lemma_member_at(fields, 0, "with_sessions"@);
            lemma_trace_round_trip(fields, trace_context);
            assert(member_of(with_trace(fields, trace_context), "with_sessions"@) == Some(fields[0].1));
        },
        WorkerMessageView::UpdateFrecency { path, trace_context } => {
            let fields = seq![("path"@, JsonView::Text(path))];
            lemma_member_at(fields, 0, "path"@);
            lemma_trace_round_trip(fields, trace_context);
            assert(member_of(with_trace(fields, trace_context), "path"@) == Some(fields[0].1));
        },
        WorkerMessageView::AddProjectsBatch { projects, trace_context } => {
            let fields = seq![("projects"@, JsonView::List(pair_items(projects)))];
            lemma_member_at(fields, 0, "projects"@);
            lemma_trace_round_trip(fields, trace_context);
            assert(member_of(with_trace(fields, trace_context), "projects"@) == Some(fields[0].1));
            lemma_read_all_reads(
                pair_items(projects),
                |item: JsonView| read_pair(item),
                projects,
            );
        },
        WorkerMessageView::SyncSessions { active_sessions, trace_context } => {
            let fields = seq![("active_sessions"@, JsonView::List(text_items(active_sessions)))];
            lemma_member_at(fields, 0, "active_sessions"@);
            lemma_trace_round_trip(fields, trace_context);
            assert(member_of(with_trace(fields, trace_context), "active_sessions"@) == Some(fields[0].1));
            lemma_read_all_reads(
                text_items(active_sessions),
                |item: JsonView| read_plain_text(item),
                active_sessions,
            );
        },
        WorkerMessageView::UpdateProjectLayout { path, layout, trace_context } => {
            let fields = seq![("path"@, JsonView::Text(path)), ("layout"@, text_or_null(layout))];
            lemma_member_at(fields, 0, "path"@);
            lemma_member_at(fields, 1, "layout"@);
            lemma_trace_round_trip(fields, trace_context);
            assert(member_of(with_trace(fields, trace_context), "path"@) == Some(fields[0].1));
            assert(member_of(with_trace(fields, trace_context), "layout"@) == Some(fields[1].1));
        },
    }
}

proof fn lemma_project_round_trip(project: ProjectView)
    ensures
        read_project(project_document(project)) == Some(project),
{
    reveal_words();
    let members = project_document(project)->Object_0;
    lemma_member_at(members, 0, "id"@);
    lemma_member_at(members, 1, "path"@);
    lemma_member_at(members, 2, "name"@);
    lemma_member_at(members, 3, "last_accessed"@);
    lemma_member_at(members, 4, "created_at"@);
    lemma_member_at(members, 5, "layout"@);
}

proof fn lemma_projects_round_trip(projects: Seq<ProjectView>)
    ensures
        read_all(project_items(projects), |item: JsonView| read_project(item)) == Some(projects),
{
    assert forall|k: int| 0 <= k < projects.len() implies read_project(
        #[trigger] project_items(projects)[k],
    ) == Some(projects[k]) by {
        lemma_project_round_trip(projects[k]);
    }
    lemma_read_all_reads(project_items(projects), |item: JsonView| read_project(item), projects);
}

/// Whether the counts of a response are integers of a document.
pub open spec fn counts_fit(response: WorkerResponseView) -> bool {
    match response {
        WorkerResponseView::ProjectsBatchAdded { count, .. } => count <= i64::MAX,
        WorkerResponseView::SessionsSynced { count } => count <= i64::MAX,
        _ => true,
    }
}

/// A response that is written as a document reads back as the same
/// response.
pub proof fn lemma_response_round_trip(response: WorkerResponseView)
    requires
        counts_fit(response),
    ensures
        read_response(response_document(response)) == Some(response),
{
    reveal_words();
    match response {
        WorkerResponseView::ProjectsLoaded { projects } => {
            let fields = seq![("projects"@, JsonView::List(project_items(projects)))];
            lemma_member_at(fields, 0, "projects"@);
            lemma_projects_round_trip(projects);
        },
        WorkerResponseView::FrecencyUpdated { path } => {
            let fields = seq![("path"@, JsonView::Text(path))];
            lemma_member_at(fields, 0, "path"@);
        },
        WorkerResponseView::ProjectsBatchAdded { count, projects } => {
            let fields = seq![
                ("count"@, count_document(count)),
                ("projects"@, JsonView::List(project_items(projects))),
            ];
            lemma_member_at(fields, 0, "count"@);
            lemma_member_at(fields, 1, "projects"@);
            lemma_projects_round_trip(projects);
        },
        WorkerResponseView::SessionsSynced { count } => {
            let fields = seq![("count"@, count_document(count))];
            lemma_member_at(fields, 0, "count"@);
        },
        WorkerResponseView::Error { message } => {
            let fields = seq![("message"@, JsonView::Text(message))];
            lemma_member_at(fields, 0, "message"@);
        },
        WorkerResponseView::LayoutUpdated { path } => {
            let fields = seq![("path"@, JsonView::Text(path))];
            lemma_member_at(fields, 0, "path"@);
        },
    }
}

fn same_text(text: &String, word: &str) -> (same: bool)
    ensures
        same == (text@ == word@),
{
    let word = String::from_str(word);
    *text == word
}

fn tag(name: &str, fields: Vec<(String, Json)>) -> (document: Json)
    ensures
        document@ == tagged(name@, members_view(fields)),
{
    let body = Json::Object(fields);
    let mut members: Vec<(String, Json)> = Vec::new();
    members.push(member(name, body));
    proof {
        lemma_members_view(members);
        assert(members_view(members) =~= seq![(name@, JsonView::Object(members_view(fields)))]);
    }
    Json::Object(members)
}

fn push_trace(fields: &mut Vec<(String, Json)>, trace: &Option<TraceContext>)
    ensures
        members_view(*final(fields)) == with_trace(members_view(*old(fields)), trace_view(*trace)),
{
    proof {
        lemma_members_view(*fields);
    }
    match trace {
        Some(context) => {
            let mut members: Vec<(String, Json)> = Vec::new();
            members.push(member("trace_id", Json::Text(context.trace_id.clone())));
            members.push(member("parent_span_id", Json::Text(context.parent_span_id.clone())));
            proof {
                lemma_members_view(members);
                assert(members_view(members) =~= trace_document(context@)->Object_0);
            }
            fields.push(member("trace_context", Json::Object(members)));
            proof {
                lemma_members_view(*fields);
                assert(members_view(*fields) =~= members_view(*old(fields)).push(
                    ("trace_context"@, trace_document(context@)),
                ));
            }
        },
        None => {},
    }
}

fn one_field(key: &str, value: Json) -> (fields: Vec<(String, Json)>)
    ensures
        members_view(fields) == seq![(key@, value@)],
{
    let mut fields: Vec<(String, Json)> = Vec::new();
    fields.push(member(key, value));
    proof {
        lemma_members_view(fields);
        assert(members_view(fields) =~= seq![(key@, value@)]);
    }
    fields
}

fn write_pairs(pairs: &Vec<(String, String)>) -> (list: Json)
    ensures
        list@ == JsonView::List(pair_items(pairs.deep_view())),
{
    let mut items: Vec<Json> = Vec::new();
    let mut i: usize = 0;
    while i < pairs.len()
        invariant
            i <= pairs.len(),
            items.len() == i,
            forall|k: int|
                0 <= k < i ==> (#[trigger] items[k])@ == pair_document(pairs.deep_view()[k]),
        decreases pairs.len() - i,
    {
        let mut pair: Vec<Json> = Vec::new();
        pair.push(Json::Text(pairs[i].0.clone()));
        pair.push(Json::Text(pairs[i].1.clone()));
        proof {
            lemma_items_view(pair);
            assert(items_view(pair) =~= pair_document(pairs.deep_view()[i as int])->List_0);
        }
        items.push(Json::List(pair));
        i += 1;
    }
    proof {
        lemma_items_view(items);
        assert(items_view(items) =~= pair_items(pairs.deep_view()));
    }
    Json::List(items)
}

fn write_texts(texts: &Vec<String>) -> (list: Json)
    ensures
        list@ == JsonView::List(text_items(texts.deep_view())),
{
    let mut items: Vec<Json> = Vec::new();
    let mut i: usize = 0;
    while i < texts.len()
        invariant
            i <= texts.len(),
            items.len() == i,
            forall|k: int|
                0 <= k < i ==> (#[trigger] items[k])@ == JsonView::Text(texts.deep_view()[k]),
        decreases texts.len() - i,
    {
        items.push(Json::Text(texts[i].clone()));
        i += 1;
    }
    proof {
        lemma_items_view(items);
        assert(items_view(items) =~= text_items(texts.deep_view()));
    }
    Json::List(items)
}

fn write_project(project: &Project) -> (value: Json)
    ensures
        value@ == project_document(project@),
{
    let mut members: Vec<(String, Json)> = Vec::new();
    members.push(member("id", number_json(&project.id)));
    members.push(member("path", Json::Text(project.path.clone())));
    members.push(member("name", Json::Text(project.name.clone())));
    members.push(member("last_accessed", Json::Integer(project.last_accessed)));
    members.push(member("created_at", Json::Integer(project.created_at)));
    members.push(member("layout", text_json(&project.layout)));
    proof {
        lemma_members_view(members);
        assert(members_view(members) =~= project_document(project@)->Object_0);
    }
    Json::Object(members)
}

fn write_projects(projects: &Vec<Project>) -> (list: Json)
    ensures
        list@ == JsonView::List(project_items(projects.deep_view())),
{
    let mut items: Vec<Json> = Vec::new();
    let mut i: usize = 0;
    while i < projects.len()
        invariant
            i <= projects.len(),
            items.len() == i,
            forall|k: int|
                0 <= k < i ==> (#[trigger] items[k])@ == project_document(
                    projects.deep_view()[k],
                ),
        decreases projects.len() - i,
    {
        items.push(write_project(&projects[i]));
        i += 1;
    }
    proof {
        lemma_items_view(items);
        assert(items_view(items) =~= project_items(projects.deep_view()));
    }
    Json::List(items)
}

fn write_count(count: usize) -> (value: Json)
    ensures
        value@ == count_document(count),
{
    if count as u64 <= 0x7fff_ffff_ffff_ffff {
        Json::Integer(count as i64)
    } else {
        Json::OtherNumber
    }
}

fn decode_trace(value: Option<&Json>) -> (trace: Option<Option<TraceContext>>)
    ensures
        match trace {
            Some(t) => read_trace(
                match value {
                    Some(v) => Some(v@),
                    None => None,
                },
            ) == Some(trace_view(t)),
            None => read_trace(
                match value {
                    Some(v) => Some(v@),
                    None => None,
                },
            ) is None,
        },
{
    match value {
        None => Some(None),
        Some(json) => {
            if json.is_null() {
                return Some(None);
            }
            let trace_id = required_text(lookup(json, "trace_id"));
            let parent_span_id = required_text(lookup(json, "parent_span_id"));
            match (trace_id, parent_span_id) {
                (Some(trace_id), Some(parent_span_id)) => Some(
                    Some(TraceContext { trace_id, parent_span_id }),
                ),
                _ => None,
            }
        },
    }
}

fn decode_pair(value: &Json) -> (pair: Option<(String, String)>)
    ensures
        match pair {
            Some(p) => read_pair(value@) == Some((p.0@, p.1@)),
            None => read_pair(value@) is None,
        },
{
    match value.list() {
        Some(items) => {
            proof {
                lemma_items_view(*items);
            }
            if items.len() != 2 {
                return None;
            }
            match (items[0].text(), items[1].text()) {
                (Some(path), Some(name)) => Some((path.clone(), name.clone())),
                _ => None,
            }
        },
        None => None,
    }
}

fn decode_pairs(value: Option<&Json>) -> (pairs: Option<Vec<(String, String)>>)
    ensures
        match pairs {
            Some(p) => read_pairs(
                match value {
                    Some(v) => Some(v@),
                    None => None,
                },
            ) == Some(p.deep_view()),
            None => read_pairs(
                match value {
                    Some(v) => Some(v@),
                    None => None,
                },
            ) is None,
        },
{
    let items = match required_list(value) {
        Some(items) => items,
        None => {
            return None;
        },
    };
    let ghost views = items_view(*items);
    let ghost read = |item: JsonView| read_pair(item);
    let mut pairs: Vec<(String, String)> = Vec::new();
    let mut i: usize = 0;
    proof {
        lemma_items_view(*items);
        assert(views.take(0) =~= Seq::<JsonView>::empty());
        assert(pairs.deep_view() =~= Seq::<(Seq<char>, Seq<char>)>::empty());
    }
    while i < items.len()
        invariant
            i <= items.len(),
            views == items_view(*items),
            views.len() == items.len(),
            read == (|item: JsonView| read_pair(item)),
            read_list(
                match value {
                    Some(v) => Some(v@),
                    None => None,
                },
            ) == Some(views),
            forall|k: int| 0 <= k < items.len() ==> #[trigger] views[k] == items[k]@,
            read_all(views.take(i as int), read) == Some(pairs.deep_view()),
        decreases items.len() - i,
    {
        let ghost before = pairs.deep_view();
        assert(views.take(i + 1).drop_last() =~= views.take(i as int));
        assert(views.take(i + 1).last() == views[i as int]);
        match decode_pair(&items[i]) {
            Some(pair) => {
                pairs.push(pair);
                assert(pairs.deep_view() =~= before.push((pair.0@, pair.1@)));
            },
            None => {
                proof {
                    assert(read(views[i as int]) is None);
                    assert(read_all(views.take(i + 1), read) is None);
                    lemma_read_all_fails(views, read, i + 1);
                }
                return None;
            },
        }
        i += 1;
    }
    assert(views.take(items.len() as int) =~= views);
    Some(pairs)
}

fn decode_texts(value: Option<&Json>) -> (texts: Option<Vec<String>>)
    ensures
        match texts {
            Some(t) => read_texts(
                match value {
                    Some(v) => Some(v@),
                    None => None,
                },
            ) == Some(t.deep_view()),
            None => read_texts(
                match value {
                    Some(v) => Some(v@),
                    None => None,
                },
            ) is None,
        },
{
    let items = match required_list(value) {
        Some(items) => items,
        None => {
            return None;
        },
    };
    let ghost views = items_view(*items);
    let ghost read = |item: JsonView| read_plain_text(item);
    let mut texts: Vec<String> = Vec::new();
    let mut i: usize = 0;
    proof {
        lemma_items_view(*items);
        assert(views.take(0) =~= Seq::<JsonView>::empty());
        assert(texts.deep_view() =~= Seq::<Seq<char>>::empty());
    }
    while i < items.len()
        invariant
            i <= items.len(),
            views == items_view(*items),
            views.len() == items.len(),
            read == (|item: JsonView| read_plain_text(item)),
            read_list(
                match value {
                    Some(v) => Some(v@),
                    None => None,
                },
            ) == Some(views),
            forall|k: int| 0 <= k < items.len() ==> #[trigger] views[k] == items[k]@,
            read_all(views.take(i as int), read) == Some(texts.deep_view()),
        decreases items.len() - i,
    {
        let ghost before = texts.deep_view();
        assert(views.take(i + 1).drop_last() =~= views.take(i as int));
        assert(views.take(i + 1).last() == views[i as int]);
        match items[i].text() {
            Some(text) => {
                texts.push(text.clone());
                assert(texts.deep_view() =~= before.push(text@));
            },
            None => {
                proof {
                    assert(read(views[i as int]) is None);
                    assert(read_all(views.take(i + 1), read) is None);
                    lemma_read_all_fails(views, read, i + 1);
                }
                return None;
            },
        }
        i += 1;
    }
    assert(views.take(items.len() as int) =~= views);
    Some(texts)
}

fn decode_project(value: &Json) -> (project: Option<Project>)
    ensures
        match project {
            Some(p) => read_project(value@) == Some(p@),
            None => read_project(value@) is None,
        },
{
    let id = optional_number(lookup(value, "id"));
    let path = required_text(lookup(value, "path"));
    let name = required_text(lookup(value, "name"));
    let last_accessed = required_number(
        lookup(value, "last_accessed"),
        -0x8000_0000_0000_0000,
        0x7fff_ffff_ffff_ffff,
    );
    let created_at = required_number(
        lookup(value, "created_at"),
        -0x8000_0000_0000_0000,
        0x7fff_ffff_ffff_ffff,
    );
    let layout = optional_text(lookup(value, "layout"));
    match (id, path, name, last_accessed, created_at, layout) {
        (Some(id), Some(path), Some(name), Some(last_accessed), Some(created_at), Some(layout)) => {
            Some(Project { id, path, name, last_accessed, created_at, layout })
        },
        _ => None,
    }
}

fn decode_projects(value: Option<&Json>) -> (projects: Option<Vec<Project>>)
    ensures
        match projects {
            Some(p) => read_projects(
                match value {
                    Some(v) => Some(v@),
                    None => None,
                },
            ) == Some(p.deep_view()),
            None => read_projects(
                match value {
                    Some(v) => Some(v@),
                    None => None,
                },
            ) is None,
        },
{
    let items = match required_list(value) {
        Some(items) => items,
        None => {
            return None;
        },
    };
    let ghost views = items_view(*items);
    let ghost read = |item: JsonView| read_project(item);
    let mut projects: Vec<Project> = Vec::new();
    let mut i: usize = 0;
    proof {
        lemma_items_view(*items);
        assert(views.take(0) =~= Seq::<JsonView>::empty());
        assert(projects.deep_view() =~= Seq::<ProjectView>::empty());
    }
    while i < items.len()
        invariant
            i <= items.len(),
            views == items_view(*items),
            views.len() == items.len(),
            read == (|item: JsonView| read_project(item)),
            read_list(
                match value {
                    Some(v) => Some(v@),
                    None => None,
                },
            ) == Some(views),
            forall|k: int| 0 <= k < items.len() ==> #[trigger] views[k] == items[k]@,
            read_all(views.take(i as int), read) == Some(projects.deep_view()),
        decreases items.len() - i,
    {
        let ghost before = projects.deep_view();
        assert(views.take(i + 1).drop_last() =~= views.take(i as int));
        assert(views.take(i + 1).last() == views[i as int]);
        match decode_project(&items[i]) {
            Some(project) => {
                projects.push(project);
                assert(projects.deep_view() =~= before.push(project@));
            },
            None => {
                proof {
                    assert(read(views[i as int]) is None);
                    assert(read_all(views.take(i + 1), read) is None);
                    lemma_read_all_fails(views, read, i + 1);
                }
                return None;
            },
        }
        i += 1;
    }
    assert(views.take(items.len() as int) =~= views);
    Some(projects)
}

fn decode_count(value: Option<&Json>) -> (count: Option<usize>)
    ensures
        count == read_count(
            match value {
                Some(v) => Some(v@),
                None => None,
            },
        ),
{
    match value {
        Some(Json::Integer(n)) => {
            if *n >= 0 && *n as u64 <= usize::MAX as u64 {
                Some(*n as usize)
            } else {
                None
            }
        },
        _ => None,
    }
}

fn decode_tagged(document: &Json) -> (variant: Option<(&String, &Json)>)
    ensures
        match variant {
            Some((name, fields)) => read_tagged(document@) == Some((name@, fields@)),
            None => read_tagged(document@) is None,
        },
{
    match document.object() {
        Some(members) => {
            proof {
                lemma_members_view(*members);
            }
            if members.len() == 1 && members[0].1.object().is_some() {
                Some((&members[0].0, &members[0].1))
            } else {
                None
            }
        },
        None => None,
    }
}

impl WorkerMessage {
    /// The request as a document.
    pub fn to_document(&self) -> (document: Json)
        ensures
            document@ == message_document(self@),
    {
        match self {
            WorkerMessage::LoadProjects { with_sessions, trace_context } => {
                let mut fields = one_field("with_sessions", Json::Bool(*with_sessions));
                push_trace(&mut fields, trace_context);
                tag("LoadProjects", fields)
            },
            WorkerMessage::UpdateFrecency { path, trace_context } => {
                let mut fields = one_field("path", Json::Text(path.clone()));
                push_trace(&mut fields, trace_context);
                tag("UpdateFrecency", fields)
            },
            WorkerMessage::AddProjectsBatch { projects, trace_context } => {
                let mut fields = one_field("projects", write_pairs(projects));
                push_trace(&mut fields, trace_context);
                tag("AddProjectsBatch", fields)
            },
            WorkerMessage::SyncSessions { active_sessions, trace_context } => {
                let mut fields = one_field("active_sessions", write_texts(active_sessions));
                push_trace(&mut fields, trace_context);
                tag("SyncSessions", fields)
            },
            WorkerMessage::UpdateProjectLayout { path, layout, trace_context } => {
                let mut fields: Vec<(String, Json)> = Vec::new();
                fields.push(member("path", Json::Text(path.clone())));
                fields.push(member("layout", text_json(layout)));
                proof {
                    lemma_members_view(fields);
                    assert(members_view(fields) =~= seq![
                        ("path"@, JsonView::Text(path@)),
                        ("layout"@, text_or_null(optional_view(*layout))),
                    ]);
                }
                push_trace(&mut fields, trace_context);
                tag("UpdateProjectLayout", fields)
            },
        }
    }

    /// The request that the document holds, if it holds one.
    pub fn from_document(document: &Json) -> (message: Option<WorkerMessage>)
        ensures
            match message {
                Some(m) => read_message(document@) == Some(m@),
                None => read_message(document@) is None,
            },
    {
        let (name, fields) = match decode_tagged(document) {
            Some(variant) => variant,
            None => {
                return None;
            },
        };
        let trace_context = match decode_trace(lookup(fields, "trace_context")) {
            Some(trace_context) => trace_context,
            None => {
                return None;
            },
        };
        if same_text(name, "LoadProjects") {
            match required_bool(lookup(fields, "with_sessions")) {
                Some(with_sessions) => Some(
                    WorkerMessage::LoadProjects { with_sessions, trace_context },
                ),
                None => None,
            }
        } else if same_text(name, "UpdateFrecency") {
            match required_text(lookup(fields, "path")) {
                Some(path) => Some(WorkerMessage::UpdateFrecency { path, trace_context }),
                None => None,
            }
        } else if same_text(name, "AddProjectsBatch") {
            match decode_pairs(lookup(fields, "projects")) {
                Some(projects) => Some(WorkerMessage::AddProjectsBatch { projects, trace_context }),
                None => None,
            }
        } else if same_text(name, "SyncSessions") {
            match decode_texts(lookup(fields, "active_sessions")) {
                Some(active_sessions) => Some(
                    WorkerMessage::SyncSessions { active_sessions, trace_context },
                ),
                None => None,
            }
        } else if same_text(name, "UpdateProjectLayout") {
            match (
                required_text(lookup(fields, "path")),
                optional_text(lookup(fields, "layout")),
            ) {
                (Some(path), Some(layout)) => Some(
                    WorkerMessage::UpdateProjectLayout { path, layout, trace_context },
                ),
                _ => None,
            }
        } else {
            None
        }
    }
}

impl WorkerResponse {
    /// The response as a document.
    pub fn to_document(&self) -> (document: Json)
        ensures
            document@ == response_document(self@),
    {
        match self {
            WorkerResponse::ProjectsLoaded { projects } => tag(
                "ProjectsLoaded",
                one_field("projects", write_projects(projects)),
            ),
            WorkerResponse::FrecencyUpdated { path } => tag(
                "FrecencyUpdated",
                one_field("path", Json::Text(path.clone())),
            ),
            WorkerResponse::ProjectsBatchAdded { count, projects } => {
                let mut fields: Vec<(String, Json)> = Vec::new();
                fields.push(member("count", write_count(*count)));
                fields.push(member("projects", write_projects(projects)));
                proof {
                    lemma_members_view(fields);
                    assert(members_view(fields) =~= seq![
                        ("count"@, count_document(*count)),
                        ("projects"@, JsonView::List(project_items(projects.deep_view()))),
                    ]);
                }
                tag("ProjectsBatchAdded", fields)
            },
            WorkerResponse::SessionsSynced { count } => tag(
                "SessionsSynced",
                one_field("count", write_count(*count)),
            ),
            WorkerResponse::Error { message } => tag(
                "Error",
                one_field("message", Json::Text(message.clone())),
            ),
            WorkerResponse::LayoutUpdated { path } => tag(
                "LayoutUpdated",
                one_field("path", Json::Text(path.clone())),
            ),
        }
    }

    /// The response that the document holds, if it holds one.
    pub fn from_document(document: &Json) -> (response: Option<WorkerResponse>)
        ensures
            match response {
                Some(r) => read_response(document@) == Some(r@),
                None => read_response(document@) is None,
            },
    {
        let (name, fields) = match decode_tagged(document) {
            Some(variant) => variant,
            None => {
                return None;
            },
        };
        if same_text(name, "ProjectsLoaded") {
            match decode_projects(lookup(fields, "projects")) {
                Some(projects) => Some(WorkerResponse::ProjectsLoaded { projects }),
                None => None,
            }
        } else if same_text(name, "FrecencyUpdated") {
            match required_text(lookup(fields, "path")) {
                Some(path) => Some(WorkerResponse::FrecencyUpdated { path }),
                None => None,
            }
        } else if same_text(name, "ProjectsBatchAdded") {
            match (decode_count(lookup(fields, "count")), decode_projects(lookup(fields, "projects"))) {
                (Some(count), Some(projects)) => Some(
                    WorkerResponse::ProjectsBatchAdded { count, projects },
                ),
                _ => None,
            }
        } else if same_text(name, "SessionsSynced") {
            match decode_count(lookup(fields, "count")) {
                Some(count) => Some(WorkerResponse::SessionsSynced { count }),
                None => None,
            }
        } else if same_text(name, "Error") {
            match required_text(lookup(fields, "message")) {
                Some(message) => Some(WorkerResponse::Error { message }),
                None => None,
            }
        } else if same_text(name, "LayoutUpdated") {
            match required_text(lookup(fields, "path")) {
                Some(path) => Some(WorkerResponse::LayoutUpdated { path }),
                None => None,
            }
        } else {
            None
        }
    }
}

} // verus!
