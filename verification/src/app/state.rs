//! The state of the foreground context and what is derived from it.
//!
//! `projects`, `view_mode`, `active_sessions` and `search_query` are the
//! sources; `filtered_projects` is computed from them and `selected_index`
//! points into it. [`AppState::wf`] says so, and every transition keeps it.

use crate::app::modes::{InputMode, ViewMode};
use crate::domain::project::{clone_projects, Project, ProjectView};
use crate::matcher::{fuzzy_matches, skim_matches};
use crate::text::{
    clone_optional, lowercase, optional_view, split_whitespace, to_lowercase, whitespace_split,
};
use crate::ui::theme::Theme;
use crate::worker::messages::clone_strings;
use vstd::prelude::*;

verus! {

/// The state of the switcher.
#[derive(Debug)]
pub struct AppState {
    /// Every known project, ranked by frecency, as the last storage
    /// response gave them.
    pub projects: Vec<Project>,
    /// The projects that pass the view mode and the search.
    pub filtered_projects: Vec<Project>,
    /// The selected row of `filtered_projects`; 0 when there is none.
    pub selected_index: usize,
    pub input_mode: InputMode,
    /// The text typed into the search bar.
    pub search_query: String,
    pub view_mode: ViewMode,
    pub theme: Theme,
    /// Names of the live sessions, each once; the order carries no
    /// meaning.
    pub active_sessions: Vec<String>,
    /// Name of the session the host presents, if known.
    pub current_session: Option<String>,
}

/// The search terms of a query: its whitespace-separated pieces, each in
/// lower case.
pub open spec fn search_tokens(query: Seq<char>) -> Seq<Seq<char>> {
    whitespace_split(query).map_values(|piece: Seq<char>| lowercase(piece))
}

/// Whether the view mode admits a project of this name: `Sessions` shows
/// the projects with a live session, `ProjectsWithoutSessions` the others.
pub open spec fn passes_view_mode(mode: ViewMode, active: Seq<Seq<char>>, name: Seq<char>) -> bool {
    match mode {
        ViewMode::Sessions => active.contains(name),
        ViewMode::ProjectsWithoutSessions => !active.contains(name),
    }
}

/// Whether every search term fuzzy-matches the name in lower case.
pub open spec fn matches_every(name: Seq<char>, tokens: Seq<Seq<char>>) -> bool {
    forall|k: int| 0 <= k < tokens.len() ==> skim_matches(lowercase(name), #[trigger] tokens[k])
}

/// Whether a project is shown: the view mode admits it and every search
/// term matches its name.
pub open spec fn shown(
    project: ProjectView,
    mode: ViewMode,
    active: Seq<Seq<char>>,
    tokens: Seq<Seq<char>>,
) -> bool {
    passes_view_mode(mode, active, project.name) && matches_every(project.name, tokens)
}

/// [`shown`] as a predicate on projects.
pub open spec fn shown_in(mode: ViewMode, active: Seq<Seq<char>>, tokens: Seq<Seq<char>>) -> spec_fn(
    ProjectView,
) -> bool {
    |project: ProjectView| shown(project, mode, active, tokens)
}

/// The projects shown for the given sources, in the order of `projects`.
pub open spec fn visible(
    projects: Seq<ProjectView>,
    mode: ViewMode,
    active: Seq<Seq<char>>,
    query: Seq<char>,
) -> Seq<ProjectView> {
    projects.filter(shown_in(mode, active, search_tokens(query)))
}

/// The selection after the list changed to `len` rows: unmoved if it still
/// points at a row, else the last row, and 0 for the empty list.
pub open spec fn clamp_selection(selected: usize, len: nat) -> usize {
    if len == 0 {
        0
    } else if selected < len {
        selected
    } else {
        (len - 1) as usize
    }
}

/// Whether `name` is among `names`.
pub fn contains_name(names: &Vec<String>, name: &String) -> (found: bool)
    ensures
        found == names.deep_view().contains(name@),
{
    let mut i: usize = 0;
    while i < names.len()
        invariant
            i <= names.len(),
            forall|k: int| 0 <= k < i ==> names.deep_view()[k] != name@,
        decreases names.len() - i,
    {
        if names[i] == *name {
            assert(names.deep_view()[i as int] == name@);
            return true;
        }
        i += 1;
    }
    false
}

/// The search terms of `query`.
pub fn query_tokens(query: &String) -> (tokens: Vec<String>)
    ensures
        tokens.deep_view() == search_tokens(query@),
{
    let mut tokens: Vec<String> = Vec::new();
    if query.as_str().is_empty() {
        assert(tokens.deep_view() =~= search_tokens(query@));
        return tokens;
    }
    let pieces = split_whitespace(query.as_str());
    let ghost fold = |piece: Seq<char>| lowercase(piece);
    let mut i: usize = 0;
    while i < pieces.len()
        invariant
            i <= pieces.len(),
            fold == (|piece: Seq<char>| lowercase(piece)),
            tokens.deep_view() == pieces.deep_view().take(i as int).map_values(fold),
        decreases pieces.len() - i,
    {
        let ghost before = tokens.deep_view();
        let lower = to_lowercase(pieces[i].as_str());
        tokens.push(lower);
        i += 1;
        assert(tokens.deep_view() =~= before.push(lowercase(pieces.deep_view()[i - 1])));
        assert(tokens.deep_view() =~= pieces.deep_view().take(i as int).map_values(fold));
    }
    assert(pieces.deep_view().take(pieces.len() as int) =~= pieces.deep_view());
    tokens
}

/// Whether every search term matches `name`.
fn name_matches(name: &String, tokens: &Vec<String>) -> (accepted: bool)
    ensures
        accepted == matches_every(name@, tokens.deep_view()),
{
    if tokens.len() == 0 {
        return true;
    }
    let lower = to_lowercase(name.as_str());
    let mut i: usize = 0;
    while i < tokens.len()
        invariant
            i <= tokens.len(),
            lower@ == lowercase(name@),
            forall|k: int| 0 <= k < i ==> skim_matches(lower@, #[trigger] tokens.deep_view()[k]),
        decreases tokens.len() - i,
    {
        if !fuzzy_matches(lower.as_str(), tokens[i].as_str()) {
            assert(!skim_matches(lowercase(name@), tokens.deep_view()[i as int]));
            return false;
        }
        i += 1;
    }
    true
}

/// The mathematical value of an [`AppState`], without its theme.
pub struct AppStateView {
    pub projects: Seq<ProjectView>,
    pub filtered_projects: Seq<ProjectView>,
    pub selected_index: usize,
    pub input_mode: InputMode,
    pub search_query: Seq<char>,
    pub view_mode: ViewMode,
    pub active_sessions: Seq<Seq<char>>,
    pub current_session: Option<Seq<char>>,
}

impl AppStateView {
    /// The projects shown for the sources of this state.
    pub open spec fn visible(self) -> Seq<ProjectView> {
        visible(self.projects, self.view_mode, self.active_sessions, self.search_query)
    }

    /// The state with `filtered_projects` computed anew from the sources
    /// and the selection clamped to it.
    pub open spec fn refiltered(self) -> AppStateView {
        AppStateView {
            filtered_projects: self.visible(),
            selected_index: clamp_selection(self.selected_index, self.visible().len()),
            ..self
        }
    }

    /// Whether the derived parts agree with the sources.
    pub open spec fn settled(self) -> bool {
        &&& self.filtered_projects == self.visible()
        &&& self.selected_index == clamp_selection(
            self.selected_index,
            self.filtered_projects.len(),
        )
    }

    /// Whether the state is well-formed: the derived parts agree with the
    /// sources, and no live session is named twice.
    pub open spec fn wf(self) -> bool {
        &&& self.settled()
        &&& self.active_sessions.no_duplicates()
    }

    /// The selected project, if the selection points at one.
    pub open spec fn selected(self) -> Option<ProjectView> {
        if self.selected_index < self.filtered_projects.len() {
            Some(self.filtered_projects[self.selected_index as int])
        } else {
            None
        }
    }
}

impl View for AppState {
    type V = AppStateView;

    open spec fn view(&self) -> AppStateView {
        AppStateView {
            projects: self.projects.deep_view(),
            filtered_projects: self.filtered_projects.deep_view(),
            selected_index: self.selected_index,
            input_mode: self.input_mode,
            search_query: self.search_query@,
            view_mode: self.view_mode,
            active_sessions: self.active_sessions.deep_view(),
            current_session: optional_view(self.current_session),
        }
    }
}

impl Clone for AppState {
    fn clone(&self) -> (copy: Self)
        ensures
            copy@ == self@,
            copy.theme == self.theme,
    {
        AppState {
            projects: clone_projects(&self.projects),
            filtered_projects: clone_projects(&self.filtered_projects),
            selected_index: self.selected_index,
            input_mode: self.input_mode,
            search_query: self.search_query.clone(),
            view_mode: self.view_mode,
            theme: self.theme.clone(),
            active_sessions: clone_strings(&self.active_sessions),
            current_session: clone_optional(&self.current_session),
        }
    }
}

impl AppState {
    /// Whether the state is well-formed: `filtered_projects` is what the
    /// sources show, the selection points into it or is 0, and no live
    /// session is named twice.
    pub open spec fn wf(&self) -> bool {
        self@.wf()
    }

    /// The state at start: the given projects, nothing shown yet, `Normal`
    /// input, `Sessions` view, no live session.
    pub fn new(projects: Vec<Project>, theme: Theme) -> (state: AppState)
        ensures
            state@ == (AppStateView {
                projects: projects.deep_view(),
                filtered_projects: Seq::empty(),
                selected_index: 0,
                input_mode: InputMode::Normal,
                search_query: Seq::empty(),
                view_mode: ViewMode::Sessions,
                active_sessions: Seq::empty(),
                current_session: None,
            }),
            state.theme == theme,
            state.wf(),
    {
        let state = AppState {
            projects,
            filtered_projects: Vec::new(),
            selected_index: 0,
            input_mode: InputMode::Normal,
            search_query: String::new(),
            view_mode: ViewMode::Sessions,
            theme,
            active_sessions: Vec::new(),
            current_session: None,
        };
        proof {
            assert(state.filtered_projects.deep_view() =~= Seq::<ProjectView>::empty());
            assert(state.active_sessions.deep_view() =~= Seq::<Seq<char>>::empty());
            lemma_nothing_shown_without_sessions(state@.projects, state@.search_query);
        }
        state
    }

    /// Moves the selection one row down, from the last row to the first.
    /// Nothing moves in an empty list.
    pub fn move_selection_down(&mut self)
        ensures
            final(self)@ == (AppStateView {
                selected_index: if old(self).filtered_projects.len() == 0 {
                    old(self).selected_index
                } else {
                    ((old(self).selected_index + 1) % (old(self).filtered_projects.len() as int)) as usize
                },
                ..old(self)@
            }),
            final(self).theme == old(self).theme,
            old(self).wf() ==> final(self).wf(),
    {
        let len = self.filtered_projects.len();
        if len == 0 {
            return;
        }
        let at: usize = self.selected_index % len;
        proof {
            lemma_successor_mod(self.selected_index as int, len as int);
        }
        if at + 1 == len {
            self.selected_index = 0;
        } else {
            self.selected_index = at + 1;
        }
    }

    /// Moves the selection one row up, from the first row to the last.
    /// Nothing moves in an empty list.
    pub fn move_selection_up(&mut self)
        ensures
            final(self)@ == (AppStateView {
                selected_index: if old(self).filtered_projects.len() == 0 {
                    old(self).selected_index
                } else if old(self).selected_index == 0 {
                    (old(self).filtered_projects.len() - 1) as usize
                } else {
                    (old(self).selected_index - 1) as usize
                },
                ..old(self)@
            }),
            final(self).theme == old(self).theme,
            old(self).wf() ==> final(self).wf(),
    {
        if self.filtered_projects.len() == 0 {
            return;
        }
        if self.selected_index == 0 {
            self.selected_index = self.filtered_projects.len() - 1;
        } else {
            self.selected_index -= 1;
        }
    }

    /// The project under the selection, if there is one.
    pub fn selected_project(&self) -> (project: Option<&Project>)
        ensures
            match project {
                Some(p) => self@.selected() == Some(p@),
                None => self@.selected() is None,
            },
    {
        if self.selected_index < self.filtered_projects.len() {
            Some(&self.filtered_projects[self.selected_index])
        } else {
            None
        }
    }

    /// Computes `filtered_projects` anew from the sources and clamps the
    /// selection to it.
    pub fn apply_search_filter(&mut self)
        ensures
            final(self)@ == old(self)@.refiltered(),
            final(self).theme == old(self).theme,
            final(self).projects == old(self).projects,
            final(self)@.settled(),
            old(self)@.active_sessions.no_duplicates() ==> final(self).wf(),
    {
        let tokens = query_tokens(&self.search_query);
        let ghost pred = shown_in(
            self.view_mode,
            self.active_sessions.deep_view(),
            tokens.deep_view(),
        );
        let mut filtered: Vec<Project> = Vec::new();
        let mut i: usize = 0;
        assert(self.projects.deep_view().take(0) =~= Seq::<ProjectView>::empty());
        assert(filtered.deep_view() =~= Seq::<ProjectView>::empty());
        proof {
            reveal(Seq::filter);
        }
        while i < self.projects.len()
            invariant
                i <= self.projects.len(),
                pred == shown_in(
                    self.view_mode,
                    self.active_sessions.deep_view(),
                    tokens.deep_view(),
                ),
                filtered.deep_view() == self.projects.deep_view().take(i as int).filter(pred),
            decreases self.projects.len() - i,
        {
            let ghost before = filtered.deep_view();
            let ghost seen = self.projects.deep_view().take(i as int);
            let project = &self.projects[i];
            let in_session = contains_name(&self.active_sessions, &project.name);
            let admitted = match self.view_mode {
                ViewMode::Sessions => in_session,
                ViewMode::ProjectsWithoutSessions => !in_session,
            };
            let keep = admitted && name_matches(&project.name, &tokens);
            proof {
                seen.lemma_filter_push(project@, pred);
                assert(self.projects.deep_view().take(i + 1) =~= seen.push(project@));
                assert(keep == pred(project@));
            }
            if keep {
                filtered.push(project.clone());
                assert(filtered.deep_view() =~= before.push(project@));
            }
            i += 1;
        }
        assert(self.projects.deep_view().take(self.projects.len() as int)
            =~= self.projects.deep_view());
        self.filtered_projects = filtered;
        if self.filtered_projects.len() == 0 {
            self.selected_index = 0;
        } else if self.selected_index >= self.filtered_projects.len() {
            self.selected_index = self.filtered_projects.len() - 1;
        }
    }
}

/// The remainder of a successor, from the remainder of the number.
proof fn lemma_successor_mod(n: int, len: int)
    requires
        0 <= n,
        0 < len,
    ensures
        (n + 1) % len == if n % len + 1 == len {
            0
        } else {
            n % len + 1
        },
{
    vstd::arithmetic::div_mod::lemma_fundamental_div_mod(n, len);
    let q = n / len;
    let r = n % len;
    if r + 1 == len {
        assert(n + 1 == (q + 1) * len) by (nonlinear_arith)
            requires
                n == len * q + r,
                r + 1 == len,
        ;
        vstd::arithmetic::div_mod::lemma_fundamental_div_mod_converse(n + 1, len, q + 1, 0);
    } else {
        assert(n + 1 == q * len + (r + 1)) by (nonlinear_arith)
            requires
                n == len * q + r,
        ;
        vstd::arithmetic::div_mod::lemma_fundamental_div_mod_converse(n + 1, len, q, r + 1);
    }
}

/// With no live session the `Sessions` view shows nothing.
pub proof fn lemma_nothing_shown_without_sessions(projects: Seq<ProjectView>, query: Seq<char>)
    ensures
        visible(projects, ViewMode::Sessions, Seq::empty(), query) == Seq::<ProjectView>::empty(),
    decreases projects.len(),
{
    reveal(Seq::filter);
    if projects.len() > 0 {
        lemma_nothing_shown_without_sessions(projects.drop_last(), query);
    }
}

/// Filtering twice in a row gives what filtering once gives: the shown
/// projects depend on the sources alone, and filtering leaves the sources
/// as they are.
pub proof fn lemma_refilter_idempotent(state: AppStateView)
    ensures
        state.refiltered().refiltered() == state.refiltered(),
        state.refiltered().settled(),
{
}

/// The names without those that occurred before.
pub open spec fn distinct_names(names: Seq<Seq<char>>) -> Seq<Seq<char>>
    decreases names.len(),
{
    if names.len() == 0 {
        Seq::empty()
    } else {
        let before = distinct_names(names.drop_last());
        if before.contains(names.last()) {
            before
        } else {
            before.push(names.last())
        }
    }
}

/// Dropping repeated names leaves every name once: the same names, none
/// of them twice.
pub proof fn lemma_distinct_names(names: Seq<Seq<char>>)
    ensures
        distinct_names(names).no_duplicates(),
        forall|name: Seq<char>| distinct_names(names).contains(name) <==> names.contains(name),
        names.no_duplicates() ==> distinct_names(names) == names,
    decreases names.len(),
{
    if names.len() > 0 {
        let front = names.drop_last();
        let before = distinct_names(front);
        let result = distinct_names(names);
        lemma_distinct_names(front);
        assert forall|name: Seq<char>| result.contains(name) <==> names.contains(name) by {
            if result.contains(name) {
                let k = choose|k: int| 0 <= k < result.len() && result[k] == name;
                if k < before.len() {
                    assert(before[k] == name);
                    assert(distinct_names(front).contains(name));
                    assert(front.contains(name));
                    let j = choose|j: int| 0 <= j < front.len() && front[j] == name;
                    assert(front[j] == names[j]);
                } else {
                    assert(names[names.len() - 1] == name);
                }
            }
            if names.contains(name) {
                let j = choose|j: int| 0 <= j < names.len() && names[j] == name;
                if j < front.len() {
                    assert(front[j] == name);
                    assert(front.contains(name));
                    assert(distinct_names(front).contains(name));
                    let k = choose|k: int| 0 <= k < before.len() && before[k] == name;
                    assert(result[k] == name);
                } else if before.contains(name) {
                    let k = choose|k: int| 0 <= k < before.len() && before[k] == name;
                    assert(result[k] == name);
                } else {
                    assert(result[result.len() - 1] == name);
                }
            }
        }
        assert forall|a: int, b: int| 0 <= a < result.len() && 0 <= b < result.len() && a
            != b implies result[a] != result[b] by {
            if a < before.len() && b < before.len() {
                assert(result[a] == before[a] && result[b] == before[b]);
            } else if a < before.len() {
                assert(result[a] == before[a]);
                assert(before.contains(before[a]));
            } else if b < before.len() {
                assert(result[b] == before[b]);
                assert(before.contains(before[b]));
            }
        }
        if names.no_duplicates() {
            assert forall|a: int, b: int| 0 <= a < front.len() && 0 <= b < front.len() && a
                != b implies front[a] != front[b] by {
                assert(front[a] == names[a] && front[b] == names[b]);
            }
            assert(before == front);
            if before.contains(names.last()) {
                let j = choose|j: int| 0 <= j < front.len() && front[j] == names.last();
                assert(names[j] == names[names.len() - 1]);
                assert(false);
            }
            assert(front.push(names.last()) =~= names);
        }
    }
}

/// The names without those that occurred before.
pub fn distinct(names: &Vec<String>) -> (kept: Vec<String>)
    ensures
        kept.deep_view() == distinct_names(names.deep_view()),
{
    let mut kept: Vec<String> = Vec::new();
    let mut i: usize = 0;
    assert(names.deep_view().take(0) =~= Seq::<Seq<char>>::empty());
    assert(kept.deep_view() =~= Seq::<Seq<char>>::empty());
    while i < names.len()
        invariant
            i <= names.len(),
            kept.deep_view() == distinct_names(names.deep_view().take(i as int)),
        decreases names.len() - i,
    {
        let ghost before = kept.deep_view();
        assert(names.deep_view().take(i + 1).drop_last() =~= names.deep_view().take(i as int));
        assert(names.deep_view().take(i + 1).last() == names@[i as int]@);
        if !contains_name(&kept, &names[i]) {
            kept.push(names[i].clone());
            assert(kept.deep_view() =~= before.push(names@[i as int]@));
        }
        i += 1;
    }
    assert(names.deep_view().take(names.len() as int) =~= names.deep_view());
    kept
}

} // verus!
