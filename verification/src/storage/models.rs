//! The records of the store.

use crate::clock::unix_now;
use crate::text::{clone_optional, optional_view, same_optional};
use vstd::prelude::*;
use vstd::string::StringExecFns;

verus! {

/// A project as the store keeps it. The path is its only identity.
#[derive(Debug, PartialEq, Eq)]
pub struct ProjectRecord {
    /// Canonical identity key.
    pub path: String,
    /// Display label.
    pub name: String,
    /// Unix timestamp of the most recent access; `None` if the project was
    /// never accessed since it was created.
    pub last_accessed: Option<i64>,
    /// How often the project was accessed; at least 1 in a record made here.
    pub access_count: i32,
    /// Unix timestamp of the first discovery.
    pub created_at: i64,
    /// Layout to open the session with, if any.
    pub layout: Option<String>,
}

/// The mathematical value of a [`ProjectRecord`].
pub struct ProjectRecordView {
    pub path: Seq<char>,
    pub name: Seq<char>,
    pub last_accessed: Option<i64>,
    pub access_count: i32,
    pub created_at: i64,
    pub layout: Option<Seq<char>>,
}

impl View for ProjectRecord {
    type V = ProjectRecordView;

    open spec fn view(&self) -> ProjectRecordView {
        ProjectRecordView {
            path: self.path@,
            name: self.name@,
            last_accessed: self.last_accessed,
            access_count: self.access_count,
            created_at: self.created_at,
            layout: optional_view(self.layout),
        }
    }
}

impl DeepView for ProjectRecord {
    type V = ProjectRecordView;

    open spec fn deep_view(&self) -> ProjectRecordView {
        self@
    }
}

impl Clone for ProjectRecord {
    fn clone(&self) -> (copy: Self)
        ensures
            copy == *self,
    {
        ProjectRecord {
            path: self.path.clone(),
            name: self.name.clone(),
            last_accessed: self.last_accessed,
            access_count: self.access_count,
            created_at: self.created_at,
            layout: clone_optional(&self.layout),
        }
    }
}

impl ProjectRecord {
    /// A record for a project discovered at `now`: accessed once, never
    /// since, no layout.
    pub fn at(path: &str, name: &str, now: i64) -> (record: ProjectRecord)
        ensures
            record@ == (ProjectRecordView {
                path: path@,
                name: name@,
                last_accessed: None,
                access_count: 1,
                created_at: now,
                layout: None,
            }),
    {
        ProjectRecord {
            path: String::from_str(path),
            name: String::from_str(name),
            last_accessed: None,
            access_count: 1,
            created_at: now,
            layout: None,
        }
    }

    /// A record for a project discovered now, by the system clock.
    pub fn new(path: &str, name: &str) -> (record: ProjectRecord)
        ensures
            record@ == (ProjectRecordView {
                path: path@,
                name: name@,
                last_accessed: None,
                access_count: 1,
                created_at: record.created_at,
                layout: None,
            }),
    {
        let now = unix_now();
        ProjectRecord::at(path, name, now)
    }

    /// Whether two records hold the same values.
    pub fn same(&self, other: &ProjectRecord) -> (same: bool)
        ensures
            same == (self@ == other@),
    {
        self.path == other.path && self.name == other.name && self.last_accessed
            == other.last_accessed && self.access_count == other.access_count && self.created_at
            == other.created_at && same_optional(&self.layout, &other.layout)
    }
}

/// A live session and the project it belongs to. The path refers to a
/// project without owning it: the project may be gone.
#[derive(Debug, PartialEq, Eq)]
pub struct SessionRecord {
    /// Name of the session.
    pub name: String,
    /// Path of the project.
    pub project_path: String,
}

/// The mathematical value of a [`SessionRecord`].
pub struct SessionRecordView {
    pub name: Seq<char>,
    pub project_path: Seq<char>,
}

impl View for SessionRecord {
    type V = SessionRecordView;

    open spec fn view(&self) -> SessionRecordView {
        SessionRecordView { name: self.name@, project_path: self.project_path@ }
    }
}

impl DeepView for SessionRecord {
    type V = SessionRecordView;

    open spec fn deep_view(&self) -> SessionRecordView {
        self@
    }
}

impl Clone for SessionRecord {
    fn clone(&self) -> (copy: Self)
        ensures
            copy == *self,
    {
        SessionRecord { name: self.name.clone(), project_path: self.project_path.clone() }
    }
}

impl SessionRecord {
    /// The session `name` of the project at `project_path`.
    pub fn new(name: &str, project_path: &str) -> (record: SessionRecord)
        ensures
            record@ == (SessionRecordView { name: name@, project_path: project_path@ }),
    {
        SessionRecord {
            name: String::from_str(name),
            project_path: String::from_str(project_path),
        }
    }
}

/// A copy of a list of project records.
pub fn clone_records(list: &Vec<ProjectRecord>) -> (copy: Vec<ProjectRecord>)
    ensures
        copy@ == list@,
        copy.deep_view() == list.deep_view(),
{
    let mut copy: Vec<ProjectRecord> = Vec::new();
    let mut i: usize = 0;
    while i < list.len()
        invariant
            i <= list.len(),
            copy@ == list@.subrange(0, i as int),
        decreases list.len() - i,
    {
        copy.push(list[i].clone());
        i += 1;
        assert(copy@ =~= list@.subrange(0, i as int));
    }
    assert(list@.subrange(0, list@.len() as int) =~= list@);
    assert(copy.deep_view() =~= list.deep_view());
    copy
}

/// A copy of a list of session records.
pub fn clone_sessions(list: &Vec<SessionRecord>) -> (copy: Vec<SessionRecord>)
    ensures
        copy@ == list@,
        copy.deep_view() == list.deep_view(),
{
    let mut copy: Vec<SessionRecord> = Vec::new();
    let mut i: usize = 0;
    while i < list.len()
        invariant
            i <= list.len(),
            copy@ == list@.subrange(0, i as int),
        decreases list.len() - i,
    {
        copy.push(list[i].clone());
        i += 1;
        assert(copy@ =~= list@.subrange(0, i as int));
    }
    assert(list@.subrange(0, list@.len() as int) =~= list@);
    assert(copy.deep_view() =~= list.deep_view());
    copy
}

} // verus!
