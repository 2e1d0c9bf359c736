//! The project entity: a directory that can be opened as a session.

use crate::clock::unix_now;
use crate::text::{clone_optional, decimal, decimal_chars, from_chars, optional_view, same_optional, to_chars};
use vstd::prelude::*;
use vstd::string::StringExecFns;

verus! {

/// A project as the foreground context and the wire see it.
#[derive(Debug, PartialEq, Eq)]
pub struct Project {
    /// Identifier that a store may assign; never used for identity.
    pub id: Option<i64>,
    /// Canonical identity key.
    pub path: String,
    /// Display label, the last segment of the path.
    pub name: String,
    /// Unix timestamp of the most recent access.
    pub last_accessed: i64,
    /// Unix timestamp of the first discovery.
    pub created_at: i64,
    /// Layout to open the session with, if any.
    pub layout: Option<String>,
}

/// The mathematical value of a [`Project`].
pub struct ProjectView {
    pub id: Option<i64>,
    pub path: Seq<char>,
    pub name: Seq<char>,
    pub last_accessed: i64,
    pub created_at: i64,
    pub layout: Option<Seq<char>>,
}

impl View for Project {
    type V = ProjectView;

    open spec fn view(&self) -> ProjectView {
        ProjectView {
            id: self.id,
            path: self.path@,
            name: self.name@,
            last_accessed: self.last_accessed,
            created_at: self.created_at,
            layout: optional_view(self.layout),
        }
    }
}

impl DeepView for Project {
    type V = ProjectView;

    open spec fn deep_view(&self) -> ProjectView {
        self@
    }
}

impl Clone for Project {
    fn clone(&self) -> (copy: Self)
        ensures
            copy == *self,
    {
        Project {
            id: self.id,
            path: self.path.clone(),
            name: self.name.clone(),
            last_accessed: self.last_accessed,
            created_at: self.created_at,
            layout: clone_optional(&self.layout),
        }
    }
}

/// Seconds in a minute, an hour and a day.
pub const SECONDS_PER_MINUTE: i64 = 60;

pub const SECONDS_PER_HOUR: i64 = 3600;

pub const SECONDS_PER_DAY: i64 = 86400;

/// How long ago `last_accessed` lies at `now`, in words: "just now" below a
/// minute, then whole minutes, hours or days, rounded down.
pub open spec fn time_ago_text(last_accessed: i64, now: i64) -> Seq<char> {
    let diff = now - last_accessed;
    if diff < SECONDS_PER_MINUTE {
        "just now"@
    } else if diff < SECONDS_PER_HOUR {
        decimal((diff / SECONDS_PER_MINUTE as int) as nat) + "m ago"@
    } else if diff < SECONDS_PER_DAY {
        decimal((diff / SECONDS_PER_HOUR as int) as nat) + "h ago"@
    } else {
        decimal((diff / SECONDS_PER_DAY as int) as nat) + "d ago"@
    }
}

impl Project {
    /// A project discovered at `now`: no identifier, no layout, and both
    /// timestamps set to `now`.
    pub fn at(path: String, name: String, now: i64) -> (project: Project)
        ensures
            project@ == (ProjectView {
                id: None,
                path: path@,
                name: name@,
                last_accessed: now,
                created_at: now,
                layout: None,
            }),
    {
        Project { id: None, path, name, last_accessed: now, created_at: now, layout: None }
    }

    /// A project discovered now, by the system clock.
    pub fn new(path: String, name: String) -> (project: Project)
        ensures
            project@ == (ProjectView {
                id: None,
                path: path@,
                name: name@,
                last_accessed: project.created_at,
                created_at: project.created_at,
                layout: None,
            }),
    {
        let now = unix_now();
        Project::at(path, name, now)
    }

    /// Whether two projects hold the same values.
    pub fn same(&self, other: &Project) -> (same: bool)
        ensures
            same == (self@ == other@),
    {
        self.id == other.id && self.path == other.path && self.name == other.name
            && self.last_accessed == other.last_accessed && self.created_at == other.created_at
            && same_optional(&self.layout, &other.layout)
    }

    /// How long before `now` the project was last accessed, in words.
    pub fn time_ago_at(&self, now: i64) -> (text: String)
        ensures
            text@ == time_ago_text(self.last_accessed, now),
    {
        let diff: i128 = now as i128 - self.last_accessed as i128;
        if diff < 60 {
            String::from_str("just now")
        } else if diff < 3600 {
            amount_ago((diff / 60) as u64, "m ago")
        } else if diff < 86400 {
            amount_ago((diff / 3600) as u64, "h ago")
        } else {
            amount_ago((diff / 86400) as u64, "d ago")
        }
    }

    /// How long ago the project was last accessed, by the system clock.
    pub fn time_ago(&self) -> (text: String)
        ensures
            exists|now: i64| text@ == time_ago_text(self.last_accessed, now),
    {
        let now = unix_now();
        self.time_ago_at(now)
    }
}

/// The numeral of `amount` followed by `unit`.
fn amount_ago(amount: u64, unit: &str) -> (text: String)
    ensures
        text@ == decimal(amount as nat) + unit@,
{
    let mut chars = decimal_chars(amount);
    let tail = to_chars(unit);
    crate::text::append(&mut chars, &tail);
    from_chars(&chars)
}

/// Whether two lists hold the same projects in the same order.
pub fn same_projects(a: &Vec<Project>, b: &Vec<Project>) -> (same: bool)
    ensures
        same == (a.deep_view() == b.deep_view()),
{
    if a.len() != b.len() {
        assert(a.deep_view().len() != b.deep_view().len());
        return false;
    }
    let mut i: usize = 0;
    while i < a.len()
        invariant
            i <= a.len() == b.len(),
            forall|k: int| 0 <= k < i ==> a@[k]@ == b@[k]@,
        decreases a.len() - i,
    {
        if !a[i].same(&b[i]) {
            assert(a.deep_view()[i as int] != b.deep_view()[i as int]);
            return false;
        }
        i += 1;
    }
    assert(a.deep_view() =~= b.deep_view());
    true
}

/// A copy of a list of projects.
pub fn clone_projects(list: &Vec<Project>) -> (copy: Vec<Project>)
    ensures
        copy@ == list@,
        copy.deep_view() == list.deep_view(),
{
    let mut copy: Vec<Project> = Vec::new();
    let mut i: usize = 0;
    while i < list.len()
        invariant
            i <= list.len(),
            copy@ == list@.subrange(0, i as int),
        decreases list.len() - i,
    {
        copy.push(list[i].clone());
        i += 1;
        assert(copy@ =~= list@.subrange(0, i as int));
    }
    assert(list@.subrange(0, list@.len() as int) =~= list@);
    assert(copy.deep_view() =~= list.deep_view());
    copy
}

} // verus!
