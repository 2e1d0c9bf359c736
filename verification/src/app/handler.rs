//! The event handler: one event in, the next state, a redraw hint and the
//! actions out.
//!
//! [`step`] is the transition function of the state machine. It is total:
//! every event is handled in every state, and no event fails.
//! [`handle_event`] carries it out on the executable state.

use crate::app::actions::{Action, ActionView};
use crate::app::modes::{InputMode, SearchFocus, ViewMode};
use crate::app::scan::{discovered, project_batch};
use crate::app::state::{
    contains_name, distinct, distinct_names, lemma_distinct_names, AppState, AppStateView,
};
use crate::domain::error::ZessionizerError;
use crate::domain::project::{clone_projects, same_projects, Project, ProjectView};
use crate::text::{clone_optional, from_chars, optional_view, same_optional, to_chars};
use crate::worker::messages::{
    clone_strings, WorkerMessage, WorkerMessageView, WorkerResponse, WorkerResponseView,
};
use vstd::prelude::*;

verus! {

/// Something that happened: a key, a change on the host, or a response of
/// the background context.
#[derive(Debug, PartialEq, Eq)]
pub enum Event {
    /// Move the selection down, wrapping to the top.
    KeyDown,
    /// Move the selection up, wrapping to the bottom.
    KeyUp,
    /// Hide the switcher.
    CloseFocus,
    /// Open the selected project.
    SelectProject,
    /// End the selected session.
    KillSession,
    /// Start a new search.
    SearchMode,
    /// Move the focus to the search bar.
    FocusSearchBar,
    /// Move the focus to the results.
    FocusResults,
    /// Leave the search.
    ExitSearch,
    /// A character for the search query.
    Char(char),
    /// Remove the last character of the search query.
    Backspace,
    /// Leave whatever mode is active.
    Escape,
    /// Show the projects without a live session.
    ShowProjects,
    /// Show the projects with a live session.
    ShowSessions,
    /// The host reports its live sessions. A name that is reported more than
    /// once counts once.
    SessionUpdate { active_sessions: Vec<String>, current_session: Option<String> },
    /// A scan reports the marker paths it found.
    ProjectsScanned { git_directories: Vec<String> },
    /// A scan failed.
    ScanFailed { error: String },
    /// The host reports which permissions it granted, by name.
    PermissionsResult { granted: Vec<String> },
    /// The background context answered.
    WorkerResponse(WorkerResponse),
    /// Set or clear the layout of a project.
    UpdateProjectLayout { path: String, layout: Option<String> },
}

/// The mathematical value of an [`Event`].
pub enum EventView {
    KeyDown,
    KeyUp,
    CloseFocus,
    SelectProject,
    KillSession,
    SearchMode,
    FocusSearchBar,
    FocusResults,
    ExitSearch,
    Char(char),
    Backspace,
    Escape,
    ShowProjects,
    ShowSessions,
    SessionUpdate { active_sessions: Seq<Seq<char>>, current_session: Option<Seq<char>> },
    ProjectsScanned { git_directories: Seq<Seq<char>> },
    ScanFailed { error: Seq<char> },
    PermissionsResult { granted: Seq<Seq<char>> },
    WorkerResponse(WorkerResponseView),
    UpdateProjectLayout { path: Seq<char>, layout: Option<Seq<char>> },
}

impl View for Event {
    type V = EventView;

    open spec fn view(&self) -> EventView {
        match *self {
            Event::KeyDown => EventView::KeyDown,
            Event::KeyUp => EventView::KeyUp,
            Event::CloseFocus => EventView::CloseFocus,
            Event::SelectProject => EventView::SelectProject,
            Event::KillSession => EventView::KillSession,
            Event::SearchMode => EventView::SearchMode,
            Event::FocusSearchBar => EventView::FocusSearchBar,
            Event::FocusResults => EventView::FocusResults,
            Event::ExitSearch => EventView::ExitSearch,
            Event::Char(c) => EventView::Char(c),
            Event::Backspace => EventView::Backspace,
            Event::Escape => EventView::Escape,
            Event::ShowProjects => EventView::ShowProjects,
            Event::ShowSessions => EventView::ShowSessions,
            Event::SessionUpdate { active_sessions, current_session } => EventView::SessionUpdate {
                active_sessions: active_sessions.deep_view(),
                current_session: optional_view(current_session),
            },
            Event::ProjectsScanned { git_directories } => EventView::ProjectsScanned {
                git_directories: git_directories.deep_view(),
            },
            Event::ScanFailed { error } => EventView::ScanFailed { error: error@ },
            Event::PermissionsResult { granted } => EventView::PermissionsResult {
                granted: granted.deep_view(),
            },
            Event::WorkerResponse(response) => EventView::WorkerResponse(response@),
            Event::UpdateProjectLayout { path, layout } => EventView::UpdateProjectLayout {
                path: path@,
                layout: optional_view(layout),
            },
        }
    }
}

/// What handling one event gives: the next state, whether to redraw, and
/// the actions to perform, in order.
pub struct Outcome {
    pub state: AppStateView,
    pub render: bool,
    pub actions: Seq<ActionView>,
}

/// The selection one row further down, wrapping to the top.
pub open spec fn moved_down(state: AppStateView) -> AppStateView {
    AppStateView {
        selected_index: if state.filtered_projects.len() == 0 {
            state.selected_index
        } else {
            ((state.selected_index + 1) % (state.filtered_projects.len() as int)) as usize
        },
        ..state
    }
}

/// The selection one row further up, wrapping to the bottom.
pub open spec fn moved_up(state: AppStateView) -> AppStateView {
    AppStateView {
        selected_index: if state.filtered_projects.len() == 0 {
            state.selected_index
        } else if state.selected_index == 0 {
            (state.filtered_projects.len() - 1) as usize
        } else {
            (state.selected_index - 1) as usize
        },
        ..state
    }
}

/// Back in `Normal` mode with an empty query, filtered anew.
pub open spec fn search_left(state: AppStateView) -> AppStateView {
    (AppStateView { input_mode: InputMode::Normal, search_query: Seq::empty(), ..state }).refiltered()
}

/// The query without its last character; the empty query stays empty.
pub open spec fn shortened(query: Seq<char>) -> Seq<char> {
    if query.len() == 0 {
        query
    } else {
        query.drop_last()
    }
}

/// Whether two lists name different sets of sessions: some name of one is
/// missing in the other.
pub open spec fn sessions_differ(before: Seq<Seq<char>>, after: Seq<Seq<char>>) -> bool {
    ||| exists|k: int| 0 <= k < after.len() && !before.contains(#[trigger] after[k])
    ||| exists|k: int| 0 <= k < before.len() && !after.contains(#[trigger] before[k])
}

/// The action that opens `project`: a switch if it has a live session, a
/// new session otherwise.
pub open spec fn open_action(state: AppStateView, project: ProjectView) -> ActionView {
    if state.active_sessions.contains(project.name) {
        ActionView::SwitchSession {
            name: project.name,
            path: project.path,
            layout: project.layout,
        }
    } else {
        ActionView::CreateSession {
            name: project.name,
            path: project.path,
            layout: project.layout,
        }
    }
}

/// The state with nothing to draw and nothing to do.
pub open spec fn unchanged(state: AppStateView) -> Outcome {
    Outcome { state, render: false, actions: Seq::empty() }
}

/// The state changed; draw it.
pub open spec fn redrawn(state: AppStateView) -> Outcome {
    Outcome { state, render: true, actions: Seq::empty() }
}

/// The projects of the store replaced by `projects`: filtered anew, and
/// drawn only if what is shown changed.
pub open spec fn projects_replaced(state: AppStateView, projects: Seq<ProjectView>) -> Outcome {
    let next = (AppStateView { projects, ..state }).refiltered();
    Outcome {
        state: next,
        render: next.filtered_projects != state.filtered_projects,
        actions: Seq::empty(),
    }
}

/// How a response of the background context is handled.
pub open spec fn response_step(state: AppStateView, response: WorkerResponseView) -> Outcome {
    match response {
        WorkerResponseView::ProjectsLoaded { projects } => projects_replaced(state, projects),
        WorkerResponseView::ProjectsBatchAdded { projects, .. } => projects_replaced(
            state,
            projects,
        ),
        WorkerResponseView::FrecencyUpdated { .. } => unchanged(state),
        WorkerResponseView::SessionsSynced { .. } => unchanged(state),
        WorkerResponseView::LayoutUpdated { .. } => Outcome {
            state,
            render: false,
            actions: seq![
                ActionView::PostToWorker(
                    WorkerMessageView::LoadProjects { with_sessions: false, trace_context: None },
                ),
            ],
        },
        WorkerResponseView::Error { .. } => redrawn(state),
    }
}

/// The transition function: what handling `event` in `state` gives.
pub open spec fn step(state: AppStateView, event: EventView) -> Outcome {
    match event {
        EventView::KeyDown => redrawn(moved_down(state)),
        EventView::KeyUp => redrawn(moved_up(state)),
        EventView::CloseFocus => Outcome {
            state,
            render: false,
            actions: seq![ActionView::CloseFocus],
        },
        EventView::SelectProject => match state.selected() {
            Some(project) => Outcome {
                state,
                render: false,
                actions: seq![open_action(state, project)],
            },
            None => if state.input_mode.searching() {
                redrawn(search_left(state))
            } else {
                unchanged(state)
            },
        },
        EventView::KillSession => match state.selected() {
            Some(project) => if state.view_mode == ViewMode::Sessions {
                Outcome {
                    state,
                    render: false,
                    actions: seq![ActionView::KillSession { name: project.name }],
                }
            } else {
                unchanged(state)
            },
            None => unchanged(state),
        },
        EventView::SearchMode => redrawn(
            (AppStateView {
                input_mode: InputMode::Search(SearchFocus::Typing),
                search_query: Seq::empty(),
                ..state
            }).refiltered(),
        ),
        EventView::FocusSearchBar => redrawn(
            AppStateView { input_mode: InputMode::Search(SearchFocus::Typing), ..state },
        ),
        EventView::FocusResults => if state.search_query.len() == 0 {
            redrawn((AppStateView { input_mode: InputMode::Normal, ..state }).refiltered())
        } else {
            redrawn(AppStateView { input_mode: InputMode::Search(SearchFocus::Navigating), ..state })
        },
        EventView::ExitSearch => redrawn(search_left(state)),
        EventView::Escape => redrawn(search_left(state)),
        EventView::Char(c) => if state.input_mode.searching() {
            redrawn((AppStateView { search_query: state.search_query.push(c), ..state }).refiltered())
        } else {
            unchanged(state)
        },
        EventView::Backspace => if state.input_mode.searching() {
            redrawn(
                (AppStateView { search_query: shortened(state.search_query), ..state }).refiltered(),
            )
        } else {
            unchanged(state)
        },
        EventView::ShowProjects => redrawn(
            (AppStateView { view_mode: ViewMode::ProjectsWithoutSessions, ..state }).refiltered(),
        ),
        EventView::ShowSessions => redrawn(
            (AppStateView { view_mode: ViewMode::Sessions, ..state }).refiltered(),
        ),
        EventView::SessionUpdate { active_sessions, current_session } => if sessions_differ(
            state.active_sessions,
            distinct_names(active_sessions),
        ) || state.current_session != current_session {
            Outcome {
                state: (AppStateView {
                    active_sessions: distinct_names(active_sessions),
                    current_session,
                    ..state
                }).refiltered(),
                render: true,
                actions: seq![
                    ActionView::PostToWorker(
                        WorkerMessageView::SyncSessions {
                            active_sessions: distinct_names(active_sessions),
                            trace_context: None,
                        },
                    ),
                ],
            }
        } else {
            unchanged(state)
        },
        EventView::ProjectsScanned { git_directories } => Outcome {
            state,
            render: false,
            actions: if discovered(git_directories).len() == 0 {
                Seq::empty()
            } else {
                seq![
                    ActionView::PostToWorker(
                        WorkerMessageView::AddProjectsBatch {
                            projects: discovered(git_directories),
                            trace_context: None,
                        },
                    ),
                ]
            },
        },
        EventView::ScanFailed { .. } => unchanged(state),
        EventView::PermissionsResult { .. } => unchanged(state),
        EventView::WorkerResponse(response) => response_step(state, response),
        EventView::UpdateProjectLayout { path, layout } => Outcome {
            state,
            render: false,
            actions: seq![ActionView::UpdateProjectLayout { path, layout }],
        },
    }
}

/// Whether the query is empty whenever the input mode is `Normal`: what
/// holds at start and after every event.
pub open spec fn query_rests(state: AppStateView) -> bool {
    state.input_mode is Normal ==> state.search_query.len() == 0
}

/// No event leaves a query behind in `Normal` mode: every way out of the
/// search clears the query.
pub proof fn lemma_step_keeps_query_at_rest(state: AppStateView, event: EventView)
    requires
        query_rests(state),
    ensures
        query_rests(step(state, event).state),
{
}

/// Every event leaves a well-formed state well-formed: what is shown is
/// what the sources give, and the selection points into it.
pub proof fn lemma_step_keeps_well_formed(state: AppStateView, event: EventView)
    requires
        state.wf(),
    ensures
        step(state, event).state.wf(),
{
    if state.filtered_projects.len() > 0 {
        vstd::arithmetic::div_mod::lemma_mod_bound(
            state.selected_index + 1,
            state.filtered_projects.len() as int,
        );
    }
    match event {
        EventView::SessionUpdate { active_sessions, .. } => {
            lemma_distinct_names(active_sessions);
        },
        _ => {},
    }
}

/// The projects change only when the background context delivers them:
/// every other event leaves them as they are.
pub proof fn lemma_projects_come_from_worker(state: AppStateView, event: EventView)
    ensures
        step(state, event).state.projects == match event {
            EventView::WorkerResponse(WorkerResponseView::ProjectsLoaded { projects }) => projects,
            EventView::WorkerResponse(
                WorkerResponseView::ProjectsBatchAdded { projects, .. },
            ) => projects,
            _ => state.projects,
        },
{
}

/// The live sessions are a set: whatever the host reports, the state and
/// the request to the background context name each session once, and they
/// name the sessions that the host reported.
pub proof fn lemma_sessions_are_named_once(
    state: AppStateView,
    active_sessions: Seq<Seq<char>>,
    current_session: Option<Seq<char>>,
)
    requires
        state.active_sessions.no_duplicates(),
    ensures
        ({
            let outcome = step(state, EventView::SessionUpdate { active_sessions, current_session });
            &&& outcome.state.active_sessions.no_duplicates()
            &&& forall|k: int|
                0 <= k < outcome.actions.len() ==> (#[trigger] outcome.actions[k])
                    == ActionView::PostToWorker(
                    WorkerMessageView::SyncSessions {
                        active_sessions: distinct_names(active_sessions),
                        trace_context: None,
                    },
                )
            &&& distinct_names(active_sessions).no_duplicates()
            &&& forall|name: Seq<char>|
                distinct_names(active_sessions).contains(name) <==> active_sessions.contains(name)
            &&& outcome.render ==> outcome.state.active_sessions == distinct_names(active_sessions)
        }),
{
    lemma_distinct_names(active_sessions);
}

/// Only an event that changed something asks for a redraw or an action: a
/// session update that brings nothing new does neither.
pub proof fn lemma_repeated_session_update_is_quiet(
    state: AppStateView,
    active_sessions: Seq<Seq<char>>,
    current_session: Option<Seq<char>>,
)
    ensures
        ({
            let event = EventView::SessionUpdate { active_sessions, current_session };
            let once = step(state, event);
            let twice = step(once.state, event);
            &&& twice.state == once.state
            &&& !twice.render
            &&& twice.actions.len() == 0
        }),
{
}

/// Whether every name of `names` is among `others`.
fn all_among(names: &Vec<String>, others: &Vec<String>) -> (all: bool)
    ensures
        all == !(exists|k: int|
            0 <= k < names.len() && !others.deep_view().contains(#[trigger] names.deep_view()[k])),
{
    let mut i: usize = 0;
    while i < names.len()
        invariant
            i <= names.len(),
            forall|k: int|
                0 <= k < i ==> others.deep_view().contains(#[trigger] names.deep_view()[k]),
        decreases names.len() - i,
    {
        if !contains_name(others, &names[i]) {
            assert(!others.deep_view().contains(names.deep_view()[i as int]));
            return false;
        }
        i += 1;
    }
    true
}

fn no_actions() -> (actions: Vec<Action>)
    ensures
        actions.deep_view() == Seq::<ActionView>::empty(),
{
    let actions: Vec<Action> = Vec::new();
    assert(actions.deep_view() =~= Seq::<ActionView>::empty());
    actions
}

fn one_action(action: Action) -> (actions: Vec<Action>)
    ensures
        actions.deep_view() == seq![action@],
{
    let mut actions: Vec<Action> = Vec::new();
    actions.push(action);
    assert(actions.deep_view() =~= seq![action@]);
    actions
}

fn leave_search(state: &mut AppState)
    ensures
        final(state)@ == search_left(old(state)@),
        final(state).theme == old(state).theme,
        old(state).wf() ==> final(state).wf(),
{
    state.input_mode = InputMode::Normal;
    state.search_query = String::new();
    state.apply_search_filter();
}

fn replace_projects(state: &mut AppState, projects: &Vec<Project>) -> (render: bool)
    ensures
        final(state)@ == projects_replaced(old(state)@, projects.deep_view()).state,
        render == projects_replaced(old(state)@, projects.deep_view()).render,
        final(state).theme == old(state).theme,
        old(state).wf() ==> final(state).wf(),
{
    let shown_before = clone_projects(&state.filtered_projects);
    state.projects = clone_projects(projects);
    state.apply_search_filter();
    !same_projects(&state.filtered_projects, &shown_before)
}

fn handle_response(state: &mut AppState, response: &WorkerResponse) -> (result: (bool, Vec<Action>))
    ensures
        final(state)@ == response_step(old(state)@, response@).state,
        result.0 == response_step(old(state)@, response@).render,
        result.1.deep_view() == response_step(old(state)@, response@).actions,
        final(state).theme == old(state).theme,
        old(state).wf() ==> final(state).wf(),
{
    match response {
        WorkerResponse::ProjectsLoaded { projects } => {
            let render = replace_projects(state, projects);
            (render, no_actions())
        },
        WorkerResponse::ProjectsBatchAdded { count: _, projects } => {
            let render = replace_projects(state, projects);
            (render, no_actions())
        },
        WorkerResponse::FrecencyUpdated { path: _ } => (false, no_actions()),
        WorkerResponse::SessionsSynced { count: _ } => (false, no_actions()),
        WorkerResponse::LayoutUpdated { path: _ } => (
            false,
            one_action(Action::PostToWorker(WorkerMessage::load_projects(false))),
        ),
        WorkerResponse::Error { message: _ } => (true, no_actions()),
    }
}

fn select_project(state: &mut AppState) -> (result: (bool, Vec<Action>))
    ensures
        final(state)@ == step(old(state)@, EventView::SelectProject).state,
        result.0 == step(old(state)@, EventView::SelectProject).render,
        result.1.deep_view() == step(old(state)@, EventView::SelectProject).actions,
        final(state).theme == old(state).theme,
        old(state).wf() ==> final(state).wf(),
{
    let action = match state.selected_project() {
        Some(project) => {
            let name = project.name.clone();
            let path = project.path.clone();
            let layout = clone_optional(&project.layout);
            if contains_name(&state.active_sessions, &project.name) {
                Some(Action::SwitchSession { name, path, layout })
            } else {
                Some(Action::CreateSession { name, path, layout })
            }
        },
        None => None,
    };
    match action {
        Some(action) => (false, one_action(action)),
        None => {
            if state.input_mode.is_search() {
                leave_search(state);
                (true, no_actions())
            } else {
                (false, no_actions())
            }
        },
    }
}

fn kill_session(state: &AppState) -> (actions: Vec<Action>)
    ensures
        actions.deep_view() == step(state@, EventView::KillSession).actions,
{
    match state.selected_project() {
        Some(project) => {
            if state.view_mode == ViewMode::Sessions {
                one_action(Action::KillSession { name: project.name.clone() })
            } else {
                no_actions()
            }
        },
        None => no_actions(),
    }
}

fn update_sessions(
    state: &mut AppState,
    active_sessions: &Vec<String>,
    current_session: &Option<String>,
) -> (result: (bool, Vec<Action>))
    ensures
        ({
            let event = EventView::SessionUpdate {
                active_sessions: active_sessions.deep_view(),
                current_session: optional_view(*current_session),
            };
            &&& final(state)@ == step(old(state)@, event).state
            &&& result.0 == step(old(state)@, event).render
            &&& result.1.deep_view() == step(old(state)@, event).actions
        }),
        final(state).theme == old(state).theme,
        old(state).wf() ==> final(state).wf(),
{
    let live = distinct(active_sessions);
    proof {
        lemma_distinct_names(active_sessions.deep_view());
    }
    let added = !all_among(&live, &state.active_sessions);
    let removed = !all_among(&state.active_sessions, &live);
    let current_changed = !same_optional(&state.current_session, current_session);
    if added || removed || current_changed {
        let names = clone_strings(&live);
        state.active_sessions = live;
        state.current_session = clone_optional(current_session);
        state.apply_search_filter();
        (true, one_action(Action::PostToWorker(WorkerMessage::sync_sessions(names))))
    } else {
        (false, no_actions())
    }
}

fn scanned(git_directories: &Vec<String>) -> (actions: Vec<Action>)
    ensures
        actions.deep_view() == if discovered(git_directories.deep_view()).len() == 0 {
            Seq::<ActionView>::empty()
        } else {
            seq![
                ActionView::PostToWorker(
                    WorkerMessageView::AddProjectsBatch {
                        projects: discovered(git_directories.deep_view()),
                        trace_context: None,
                    },
                ),
            ]
        },
{
    let batch = project_batch(git_directories);
    if batch.len() == 0 {
        no_actions()
    } else {
        one_action(Action::PostToWorker(WorkerMessage::add_projects_batch(batch)))
    }
}

fn edit_query(state: &mut AppState, typed: Option<char>) -> (render: bool)
    ensures
        ({
            let event = match typed {
                Some(c) => EventView::Char(c),
                None => EventView::Backspace,
            };
            &&& final(state)@ == step(old(state)@, event).state
            &&& render == step(old(state)@, event).render
        }),
        final(state).theme == old(state).theme,
        old(state).wf() ==> final(state).wf(),
{
    if !state.input_mode.is_search() {
        return false;
    }
    let mut query = to_chars(state.search_query.as_str());
    match typed {
        Some(c) => {
            query.push(c);
        },
        None => {
            if query.len() > 0 {
                query.pop();
            }
        },
    }
    state.search_query = from_chars(&query);
    state.apply_search_filter();
    true
}

/// Handles one event: changes the state as [`step`] says and returns the
/// redraw hint and the actions. It never fails. A state that is
/// well-formed stays so.
pub fn handle_event(state: &mut AppState, event: &Event) -> (result: Result<
    (bool, Vec<Action>),
    ZessionizerError,
>)
    ensures
        result is Ok,
        final(state)@ == step(old(state)@, event@).state,
        result->Ok_0.0 == step(old(state)@, event@).render,
        result->Ok_0.1.deep_view() == step(old(state)@, event@).actions,
        final(state).theme == old(state).theme,
        old(state).wf() ==> final(state).wf(),
{
    match event {
        Event::KeyDown => {
            state.move_selection_down();
            Ok((true, no_actions()))
        },
        Event::KeyUp => {
            state.move_selection_up();
            Ok((true, no_actions()))
        },
        Event::CloseFocus => Ok((false, one_action(Action::CloseFocus))),
        Event::SelectProject => Ok(select_project(state)),
        Event::KillSession => Ok((false, kill_session(state))),
        Event::SearchMode => {
            state.input_mode = InputMode::Search(SearchFocus::Typing);
            state.search_query = String::new();
            state.apply_search_filter();
            Ok((true, no_actions()))
        },
        Event::FocusSearchBar => {
            state.input_mode = InputMode::Search(SearchFocus::Typing);
            Ok((true, no_actions()))
        },
        Event::FocusResults => {
            if state.search_query.as_str().is_empty() {
                state.input_mode = InputMode::Normal;
                state.apply_search_filter();
            } else {
                state.input_mode = InputMode::Search(SearchFocus::Navigating);
            }
            Ok((true, no_actions()))
        },
        Event::ExitSearch => {
            leave_search(state);
            Ok((true, no_actions()))
        },
        Event::Escape => {
            leave_search(state);
            Ok((true, no_actions()))
        },
        Event::Char(c) => {
            let render = edit_query(state, Some(*c));
            Ok((render, no_actions()))
        },
        Event::Backspace => {
            let render = edit_query(state, None);
            Ok((render, no_actions()))
        },
        Event::ShowProjects => {
            state.view_mode = ViewMode::ProjectsWithoutSessions;
            state.apply_search_filter();
            Ok((true, no_actions()))
        },
        Event::ShowSessions => {
            state.view_mode = ViewMode::Sessions;
            state.apply_search_filter();
            Ok((true, no_actions()))
        },
        Event::SessionUpdate { active_sessions, current_session } => Ok(
            update_sessions(state, active_sessions, current_session),
        ),
        Event::ProjectsScanned { git_directories } => Ok((false, scanned(git_directories))),
        Event::ScanFailed { error: _ } => Ok((false, no_actions())),
        Event::PermissionsResult { granted: _ } => Ok((false, no_actions())),
        Event::WorkerResponse(response) => Ok(handle_response(state, response)),
        Event::UpdateProjectLayout { path, layout } => Ok(
            (
                false,
                one_action(
                    Action::UpdateProjectLayout {
                        path: path.clone(),
                        layout: clone_optional(layout),
                    },
                ),
            ),
        ),
    }
}

} // verus!
