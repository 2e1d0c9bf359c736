//! Requests to the background context and its responses.

use crate::domain::project::{clone_projects, Project, ProjectView};
use crate::text::{clone_optional, optional_view};
use vstd::prelude::*;

verus! {

/// Identifiers that let an outside observer join the two contexts' spans.
/// They travel with a request and have no effect on how it is handled.
#[derive(Debug, PartialEq, Eq)]
pub struct TraceContext {
    /// Trace identifier, as hexadecimal text.
    pub trace_id: String,
    /// Identifier of the parent span, as hexadecimal text.
    pub parent_span_id: String,
}

/// The mathematical value of a [`TraceContext`].
pub struct TraceContextView {
    pub trace_id: Seq<char>,
    pub parent_span_id: Seq<char>,
}

impl View for TraceContext {
    type V = TraceContextView;

    open spec fn view(&self) -> TraceContextView {
        TraceContextView { trace_id: self.trace_id@, parent_span_id: self.parent_span_id@ }
    }
}

impl Clone for TraceContext {
    fn clone(&self) -> (copy: Self)
        ensures
            copy == *self,
    {
        TraceContext { trace_id: self.trace_id.clone(), parent_span_id: self.parent_span_id.clone() }
    }
}

/// The view of an optional trace context.
pub open spec fn trace_view(context: Option<TraceContext>) -> Option<TraceContextView> {
    match context {
        Some(c) => Some(c@),
        None => None,
    }
}

fn clone_trace(context: &Option<TraceContext>) -> (copy: Option<TraceContext>)
    ensures
        copy == *context,
{
    match context {
        Some(c) => Some(c.clone()),
        None => None,
    }
}

/// A copy of a list of strings.
pub fn clone_strings(list: &Vec<String>) -> (copy: Vec<String>)
    ensures
        copy@ == list@,
        copy.deep_view() == list.deep_view(),
{
    let mut copy: Vec<String> = Vec::new();
    let mut i: usize = 0;
    while i < list.len()
        invariant
            i <= list.len(),
            copy@ == list@.subrange(0, i as int),
        decreases list.len() - i,
    {
        copy.push(list[i].clone());
        i += 1;
        assert(copy@ =~= list@.subrange(0, i as int));
    }
    assert(list@.subrange(0, list@.len() as int) =~= list@);
    assert(copy.deep_view() =~= list.deep_view());
    copy
}

/// A copy of a list of path and name pairs.
pub fn clone_pairs(list: &Vec<(String, String)>) -> (copy: Vec<(String, String)>)
    ensures
        copy@ == list@,
        copy.deep_view() == list.deep_view(),
{
    let mut copy: Vec<(String, String)> = Vec::new();
    let mut i: usize = 0;
    while i < list.len()
        invariant
            i <= list.len(),
            copy@ == list@.subrange(0, i as int),
        decreases list.len() - i,
    {
        copy.push((list[i].0.clone(), list[i].1.clone()));
        i += 1;
        assert(copy@ =~= list@.subrange(0, i as int));
    }
    assert(list@.subrange(0, list@.len() as int) =~= list@);
    assert(copy.deep_view() =~= list.deep_view());
    copy
}

/// A request from the foreground context to the background context.
#[derive(Debug, PartialEq, Eq)]
pub enum WorkerMessage {
    /// Load every project, ranked by frecency.
    LoadProjects { with_sessions: bool, trace_context: Option<TraceContext> },
    /// Record an access to the project at `path`.
    UpdateFrecency { path: String, trace_context: Option<TraceContext> },
    /// Add or refresh the given projects, each a path and a name.
    AddProjectsBatch { projects: Vec<(String, String)>, trace_context: Option<TraceContext> },
    /// Replace the stored sessions by the live ones.
    SyncSessions { active_sessions: Vec<String>, trace_context: Option<TraceContext> },
    /// Set or clear the layout of the project at `path`.
    UpdateProjectLayout { path: String, layout: Option<String>, trace_context: Option<TraceContext> },
}

/// The mathematical value of a [`WorkerMessage`].
pub enum WorkerMessageView {
    LoadProjects { with_sessions: bool, trace_context: Option<TraceContextView> },
    UpdateFrecency { path: Seq<char>, trace_context: Option<TraceContextView> },
    AddProjectsBatch {
        projects: Seq<(Seq<char>, Seq<char>)>,
        trace_context: Option<TraceContextView>,
    },
    SyncSessions { active_sessions: Seq<Seq<char>>, trace_context: Option<TraceContextView> },
    UpdateProjectLayout {
        path: Seq<char>,
        layout: Option<Seq<char>>,
        trace_context: Option<TraceContextView>,
    },
}

impl View for WorkerMessage {
    type V = WorkerMessageView;

    open spec fn view(&self) -> WorkerMessageView {
        match *self {
            WorkerMessage::LoadProjects { with_sessions, trace_context } => {
                WorkerMessageView::LoadProjects {
                    with_sessions,
                    trace_context: trace_view(trace_context),
                }
            },
            WorkerMessage::UpdateFrecency { path, trace_context } => {
                WorkerMessageView::UpdateFrecency {
                    path: path@,
                    trace_context: trace_view(trace_context),
                }
            },
            WorkerMessage::AddProjectsBatch { projects, trace_context } => {
                WorkerMessageView::AddProjectsBatch {
                    projects: projects.deep_view(),
                    trace_context: trace_view(trace_context),
                }
            },
            WorkerMessage::SyncSessions { active_sessions, trace_context } => {
                WorkerMessageView::SyncSessions {
                    active_sessions: active_sessions.deep_view(),
                    trace_context: trace_view(trace_context),
                }
            },
            WorkerMessage::UpdateProjectLayout { path, layout, trace_context } => {
                WorkerMessageView::UpdateProjectLayout {
                    path: path@,
                    layout: optional_view(layout),
                    trace_context: trace_view(trace_context),
                }
            },
        }
    }
}

impl WorkerMessage {
    /// A request to load every project, without trace context.
    pub fn load_projects(with_sessions: bool) -> (message: WorkerMessage)
        ensures
            message@ == (WorkerMessageView::LoadProjects { with_sessions, trace_context: None }),
    {
        WorkerMessage::LoadProjects { with_sessions, trace_context: None }
    }

    /// A request to record an access, without trace context.
    pub fn update_frecency(path: String) -> (message: WorkerMessage)
        ensures
            message@ == (WorkerMessageView::UpdateFrecency { path: path@, trace_context: None }),
    {
        WorkerMessage::UpdateFrecency { path, trace_context: None }
    }

    /// A request to set or clear a layout, without trace context.
    pub fn update_project_layout(path: String, layout: Option<String>) -> (message: WorkerMessage)
        ensures
            message@ == (WorkerMessageView::UpdateProjectLayout {
                path: path@,
                layout: optional_view(layout),
                trace_context: None,
            }),
    {
        WorkerMessage::UpdateProjectLayout { path, layout, trace_context: None }
    }

    /// A request to add projects, without trace context.
    pub fn add_projects_batch(projects: Vec<(String, String)>) -> (message: WorkerMessage)
        ensures
            message@ == (WorkerMessageView::AddProjectsBatch {
                projects: projects.deep_view(),
                trace_context: None,
            }),
    {
        WorkerMessage::AddProjectsBatch { projects, trace_context: None }
    }

    /// A request to replace the stored sessions, without trace context.
    pub fn sync_sessions(active_sessions: Vec<String>) -> (message: WorkerMessage)
        ensures
            message@ == (WorkerMessageView::SyncSessions {
                active_sessions: active_sessions.deep_view(),
                trace_context: None,
            }),
    {
        WorkerMessage::SyncSessions { active_sessions, trace_context: None }
    }

    /// The trace context the request carries, if any.
    pub fn trace_context(&self) -> (context: &Option<TraceContext>)
        ensures
            trace_view(*context) == self@.trace(),
    {
        match self {
            WorkerMessage::LoadProjects { trace_context, .. } => trace_context,
            WorkerMessage::UpdateFrecency { trace_context, .. } => trace_context,
            WorkerMessage::AddProjectsBatch { trace_context, .. } => trace_context,
            WorkerMessage::SyncSessions { trace_context, .. } => trace_context,
            WorkerMessage::UpdateProjectLayout { trace_context, .. } => trace_context,
        }
    }

    /// The same request carrying `context` in place of its own.
    pub fn with_trace_context(self, context: Option<TraceContext>) -> (message: WorkerMessage)
        ensures
            message@ == self@.with_trace(trace_view(context)),
    {
        match self {
            WorkerMessage::LoadProjects { with_sessions, .. } => WorkerMessage::LoadProjects {
                with_sessions,
                trace_context: context,
            },
            WorkerMessage::UpdateFrecency { path, .. } => WorkerMessage::UpdateFrecency {
                path,
                trace_context: context,
            },
            WorkerMessage::AddProjectsBatch { projects, .. } => WorkerMessage::AddProjectsBatch {
                projects,
                trace_context: context,
            },
            WorkerMessage::SyncSessions { active_sessions, .. } => WorkerMessage::SyncSessions {
                active_sessions,
                trace_context: context,
            },
            WorkerMessage::UpdateProjectLayout { path, layout, .. } => {
                WorkerMessage::UpdateProjectLayout { path, layout, trace_context: context }
            },
        }
    }
}

impl WorkerMessageView {
    /// The trace context of the request.
    pub open spec fn trace(self) -> Option<TraceContextView> {
        match self {
            WorkerMessageView::LoadProjects { trace_context, .. } => trace_context,
            WorkerMessageView::UpdateFrecency { trace_context, .. } => trace_context,
            WorkerMessageView::AddProjectsBatch { trace_context, .. } => trace_context,
            WorkerMessageView::SyncSessions { trace_context, .. } => trace_context,
            WorkerMessageView::UpdateProjectLayout { trace_context, .. } => trace_context,
        }
    }

    /// The request with its trace context replaced.
    pub open spec fn with_trace(self, context: Option<TraceContextView>) -> WorkerMessageView {
        match self {
            WorkerMessageView::LoadProjects { with_sessions, .. } => {
                WorkerMessageView::LoadProjects { with_sessions, trace_context: context }
            },
            WorkerMessageView::UpdateFrecency { path, .. } => WorkerMessageView::UpdateFrecency {
                path,
                trace_context: context,
            },
            WorkerMessageView::AddProjectsBatch { projects, .. } => {
                WorkerMessageView::AddProjectsBatch { projects, trace_context: context }
            },
            WorkerMessageView::SyncSessions { active_sessions, .. } => {
                WorkerMessageView::SyncSessions { active_sessions, trace_context: context }
            },
            WorkerMessageView::UpdateProjectLayout { path, layout, .. } => {
                WorkerMessageView::UpdateProjectLayout { path, layout, trace_context: context }
            },
        }
    }
}

impl Clone for WorkerMessage {
    fn clone(&self) -> (copy: Self)
        ensures
            copy@ == self@,
    {
        match self {
            WorkerMessage::LoadProjects { with_sessions, trace_context } => {
                WorkerMessage::LoadProjects {
                    with_sessions: *with_sessions,
                    trace_context: clone_trace(trace_context),
                }
            },
            WorkerMessage::UpdateFrecency { path, trace_context } => WorkerMessage::UpdateFrecency {
                path: path.clone(),
                trace_context: clone_trace(trace_context),
            },
            WorkerMessage::AddProjectsBatch { projects, trace_context } => {
                WorkerMessage::AddProjectsBatch {
                    projects: clone_pairs(projects),
                    trace_context: clone_trace(trace_context),
                }
            },
            WorkerMessage::SyncSessions { active_sessions, trace_context } => {
                WorkerMessage::SyncSessions {
                    active_sessions: clone_strings(active_sessions),
                    trace_context: clone_trace(trace_context),
                }
            },
            WorkerMessage::UpdateProjectLayout { path, layout, trace_context } => {
                WorkerMessage::UpdateProjectLayout {
                    path: path.clone(),
                    layout: clone_optional(layout),
                    trace_context: clone_trace(trace_context),
                }
            },
        }
    }
}

/// What the background context answers. A response names no request: the
/// receiver tells by the variant which request it belongs to, so two
/// requests of one kind must not be in flight together.
#[derive(Debug, PartialEq, Eq)]
pub enum WorkerResponse {
    /// Every project, ranked by frecency.
    ProjectsLoaded { projects: Vec<Project> },
    /// The access to `path` was recorded.
    FrecencyUpdated { path: String },
    /// The batch of `count` projects was stored; `projects` holds the
    /// stored records after merging, ranked by frecency.
    ProjectsBatchAdded { count: usize, projects: Vec<Project> },
    /// The stored sessions were replaced, from `count` live names.
    SessionsSynced { count: usize },
    /// The request failed. Every failure takes this one shape: the kind of
    /// error does not cross the boundary, only its text.
    Error { message: String },
    /// The layout of `path` was set or cleared.
    LayoutUpdated { path: String },
}

/// The mathematical value of a [`WorkerResponse`].
pub enum WorkerResponseView {
    ProjectsLoaded { projects: Seq<ProjectView> },
    FrecencyUpdated { path: Seq<char> },
    ProjectsBatchAdded { count: usize, projects: Seq<ProjectView> },
    SessionsSynced { count: usize },
    Error { message: Seq<char> },
    LayoutUpdated { path: Seq<char> },
}

impl View for WorkerResponse {
    type V = WorkerResponseView;

    open spec fn view(&self) -> WorkerResponseView {
        match *self {
            WorkerResponse::ProjectsLoaded { projects } => WorkerResponseView::ProjectsLoaded {
                projects: projects.deep_view(),
            },
            WorkerResponse::FrecencyUpdated { path } => WorkerResponseView::FrecencyUpdated {
                path: path@,
            },
            WorkerResponse::ProjectsBatchAdded { count, projects } => {
                WorkerResponseView::ProjectsBatchAdded { count, projects: projects.deep_view() }
            },
            WorkerResponse::SessionsSynced { count } => WorkerResponseView::SessionsSynced {
                count,
            },
            WorkerResponse::Error { message } => WorkerResponseView::Error { message: message@ },
            WorkerResponse::LayoutUpdated { path } => WorkerResponseView::LayoutUpdated {
                path: path@,
            },
        }
    }
}

impl Clone for WorkerResponse {
    fn clone(&self) -> (copy: Self)
        ensures
            copy@ == self@,
    {
        match self {
            WorkerResponse::ProjectsLoaded { projects } => WorkerResponse::ProjectsLoaded {
                projects: clone_projects(projects),
            },
            WorkerResponse::FrecencyUpdated { path } => WorkerResponse::FrecencyUpdated {
                path: path.clone(),
            },
            WorkerResponse::ProjectsBatchAdded { count, projects } => {
                WorkerResponse::ProjectsBatchAdded {
                    count: *count,
                    projects: clone_projects(projects),
                }
            },
            WorkerResponse::SessionsSynced { count } => WorkerResponse::SessionsSynced {
                count: *count,
            },
            WorkerResponse::Error { message } => WorkerResponse::Error { message: message.clone() },
            WorkerResponse::LayoutUpdated { path } => WorkerResponse::LayoutUpdated {
                path: path.clone(),
            },
        }
    }
}

} // verus!
