//! From the state to the view model of one frame.

use crate::app::modes::{InputMode, SearchFocus, ViewMode};
use crate::app::state::{AppState, AppStateView};
use crate::app::window::{coalesce, coalesce_ranges, visible_window, window_end, window_start};
use crate::domain::project::{Project, ProjectView};
use crate::matcher::{fuzzy_positions, match_positions};
use crate::text::{append, decimal, decimal_chars, from_chars, slice, to_chars};
use crate::ui::viewmodel::{
    DisplayItem, DisplayItemView, FooterInfo, HeaderInfo, SearchBarInfo, UIViewModel,
    UIViewModelView,
};
use vstd::prelude::*;
use vstd::string::StringExecFns;

verus! {

/// Rows that the frame needs around the list in `Normal` mode.
pub const NORMAL_CHROME_ROWS: usize = 6;

/// Rows that the frame needs around the list while searching.
pub const SEARCH_CHROME_ROWS: usize = 9;

/// Longest name that is shown whole, in characters.
pub const NAME_LIMIT: usize = 35;

/// Characters kept of a name that is too long, before the ellipsis.
pub const NAME_KEPT: usize = 32;

/// Columns that the name and the margin take from the path.
pub const PATH_MARGIN: usize = 39;

/// `a - b`, or 0 where that would be negative.
pub open spec fn minus(a: usize, b: usize) -> usize {
    if a >= b {
        (a - b) as usize
    } else {
        0
    }
}

/// The rows left for the list in a terminal of `total_rows` rows.
pub open spec fn available_rows(mode: InputMode, total_rows: usize) -> usize {
    match mode {
        InputMode::Normal => minus(total_rows, NORMAL_CHROME_ROWS),
        InputMode::Search(_) => minus(total_rows, SEARCH_CHROME_ROWS),
    }
}

/// The name as shown: whole up to [`NAME_LIMIT`] characters, else its
/// first [`NAME_KEPT`] characters and an ellipsis.
pub open spec fn display_name(name: Seq<char>) -> Seq<char> {
    if name.len() > NAME_LIMIT {
        name.take(NAME_KEPT as int) + "..."@
    } else {
        name
    }
}

/// The path as shown in `max_width` columns: whole if it fits, else an
/// ellipsis and as many of its last characters as fit behind it.
pub open spec fn display_path(path: Seq<char>, max_width: usize) -> Seq<char> {
    if path.len() > max_width {
        "..."@ + path.skip(path.len() - minus(max_width, 3))
    } else {
        path
    }
}

/// Whether matches are highlighted: while searching with a query.
pub open spec fn highlights(state: AppStateView) -> bool {
    state.input_mode.searching() && state.search_query.len() > 0
}

/// The highlight ranges of a name: the positions where the whole query
/// matches it, joined into ranges.
pub open spec fn highlight_ranges(name: Seq<char>, query: Seq<char>) -> Seq<(usize, usize)> {
    coalesce(match_positions(name, query))
}

/// The row for `project` as the shown project at `index`, with or without
/// highlighted matches.
pub open spec fn display_row(
    state: AppStateView,
    project: ProjectView,
    index: int,
    cols: usize,
    highlight: bool,
) -> DisplayItemView {
    DisplayItemView {
        name: display_name(project.name),
        path: display_path(project.path, minus(cols, PATH_MARGIN)),
        is_selected: index == state.selected_index,
        is_current_session: state.current_session == Some(project.name),
        highlight_ranges: if highlight {
            highlight_ranges(project.name, state.search_query)
        } else {
            Seq::empty()
        },
    }
}

/// The row for the project at `index` of the shown projects.
pub open spec fn display_item(state: AppStateView, index: int, cols: usize) -> DisplayItemView {
    display_row(state, state.filtered_projects[index], index, cols, highlights(state))
}

/// The title of the header: the name of the view and the number of shown
/// projects.
pub open spec fn header_title(state: AppStateView) -> Seq<char> {
    " "@ + match state.view_mode {
        ViewMode::Sessions => "Active Sessions"@,
        ViewMode::ProjectsWithoutSessions => "All Projects"@,
    } + " ("@ + decimal(state.filtered_projects.len()) + ") "@
}

/// The key bindings that the footer shows.
pub open spec fn footer_text(input_mode: InputMode, view_mode: ViewMode) -> Seq<char> {
    match input_mode {
        InputMode::Search(SearchFocus::Typing) => "ESC: exit search  Enter: select  Ctrl+n/p: navigate  Type to filter"@,
        InputMode::Search(SearchFocus::Navigating) => "ESC: exit search  /: edit query  j/k or Ctrl+n/p: navigate  Enter: select"@,
        InputMode::Normal => match view_mode {
            ViewMode::Sessions => "j/k or Ctrl+n/p: navigate  /: search  n: new  K: kill  Enter: switch  q: quit"@,
            ViewMode::ProjectsWithoutSessions => "j/k or Ctrl+n/p: navigate  /: search  s: sessions  Enter: create  q: quit"@,
        },
    }
}

/// The search bar: the query while searching, none otherwise.
pub open spec fn search_bar(state: AppStateView) -> Option<Seq<char>> {
    if state.input_mode.searching() {
        Some(state.search_query)
    } else {
        None
    }
}

/// Whether the selection points at a shown project, or is 0 where none is
/// shown.
pub open spec fn selection_valid(state: AppStateView) -> bool {
    state.selected_index < state.filtered_projects.len() || (state.filtered_projects.len() == 0
        && state.selected_index == 0)
}

/// Whether the frame shows no rows: there are no projects at all, or none
/// is shown.
pub open spec fn shows_nothing(state: AppStateView) -> bool {
    state.projects.len() == 0 || state.filtered_projects.len() == 0
}

/// The first shown project of the window.
pub open spec fn first_row(state: AppStateView, rows: usize) -> int {
    window_start(
        state.selected_index as int,
        state.filtered_projects.len() as int,
        available_rows(state.input_mode, rows) as int,
    )
}

/// The shown project after the last one of the window.
pub open spec fn end_row(state: AppStateView, rows: usize) -> int {
    window_end(
        state.selected_index as int,
        state.filtered_projects.len() as int,
        available_rows(state.input_mode, rows) as int,
    )
}

/// The frame of a state in a terminal of `rows` rows and `cols` columns:
/// the rows of the window around the selection, the selection's row within
/// them, header, footer and search bar. There is never an empty-state
/// message.
pub open spec fn frame(state: AppStateView, rows: usize, cols: usize) -> UIViewModelView {
    UIViewModelView {
        display_items: if shows_nothing(state) {
            Seq::empty()
        } else {
            Seq::new(
                (end_row(state, rows) - first_row(state, rows)) as nat,
                |k: int| display_item(state, first_row(state, rows) + k, cols),
            )
        },
        selected_index: if shows_nothing(state) {
            0
        } else {
            (state.selected_index - first_row(state, rows)) as usize
        },
        title: header_title(state),
        keybindings: footer_text(state.input_mode, state.view_mode),
        empty_state: None,
        search_bar: search_bar(state),
    }
}

fn saturating_minus(a: usize, b: usize) -> (r: usize)
    ensures
        r == minus(a, b),
{
    if a >= b {
        a - b
    } else {
        0
    }
}

fn shown_name(name: &str) -> (shown: String)
    ensures
        shown@ == display_name(name@),
{
    let chars = to_chars(name);
    if chars.len() > NAME_LIMIT {
        let mut shown = slice(&chars, 0, NAME_KEPT);
        assert(chars@.take(NAME_KEPT as int) =~= chars@.subrange(0, NAME_KEPT as int));
        let dots = to_chars("...");
        append(&mut shown, &dots);
        from_chars(&shown)
    } else {
        String::from_str(name)
    }
}

impl AppState {
    /// The header of the frame.
    pub fn compute_header(&self) -> (header: HeaderInfo)
        ensures
            header.title@ == header_title(self@),
    {
        let view_name = match self.view_mode {
            ViewMode::Sessions => "Active Sessions",
            ViewMode::ProjectsWithoutSessions => "All Projects",
        };
        let mut title = to_chars(" ");
        let name = to_chars(view_name);
        append(&mut title, &name);
        let open = to_chars(" (");
        append(&mut title, &open);
        let count = decimal_chars(self.filtered_projects.len() as u64);
        append(&mut title, &count);
        let close = to_chars(") ");
        append(&mut title, &close);
        assert(self.filtered_projects.deep_view().len() == self.filtered_projects.len());
        HeaderInfo { title: from_chars(&title) }
    }

    /// The footer of the frame.
    pub fn compute_footer(&self) -> (footer: FooterInfo)
        ensures
            footer.keybindings@ == footer_text(self.input_mode, self.view_mode),
    {
        let keybindings = match self.input_mode {
            InputMode::Search(SearchFocus::Typing) => "ESC: exit search  Enter: select  Ctrl+n/p: navigate  Type to filter",
            InputMode::Search(SearchFocus::Navigating) => "ESC: exit search  /: edit query  j/k or Ctrl+n/p: navigate  Enter: select",
            InputMode::Normal => match self.view_mode {
                ViewMode::Sessions => "j/k or Ctrl+n/p: navigate  /: search  n: new  K: kill  Enter: switch  q: quit",
                ViewMode::ProjectsWithoutSessions => "j/k or Ctrl+n/p: navigate  /: search  s: sessions  Enter: create  q: quit",
            },
        };
        FooterInfo { keybindings: String::from_str(keybindings) }
    }

    /// The search bar of the frame.
    pub fn compute_search_bar(&self) -> (bar: Option<SearchBarInfo>)
        ensures
            match bar {
                Some(info) => search_bar(self@) == Some(info.query@),
                None => search_bar(self@) is None,
            },
    {
        if self.input_mode.is_search() {
            Some(SearchBarInfo { query: self.search_query.clone() })
        } else {
            None
        }
    }

    /// The rows left for the list in a terminal of `total_rows` rows.
    pub fn calculate_available_rows(&self, total_rows: usize) -> (rows: usize)
        ensures
            rows == available_rows(self.input_mode, total_rows),
    {
        match self.input_mode {
            InputMode::Normal => saturating_minus(total_rows, NORMAL_CHROME_ROWS),
            InputMode::Search(_) => saturating_minus(total_rows, SEARCH_CHROME_ROWS),
        }
    }

    /// The path as shown in `max_width` columns.
    pub fn format_display_path(path: &str, max_width: usize) -> (shown: String)
        ensures
            shown@ == display_path(path@, max_width),
    {
        let chars = to_chars(path);
        if chars.len() > max_width {
            let keep = saturating_minus(max_width, 3);
            let mut shown = to_chars("...");
            let tail = slice(&chars, chars.len() - keep, chars.len());
            assert(chars@.skip(chars@.len() - keep) =~= chars@.subrange(
                chars@.len() - keep,
                chars@.len() as int,
            ));
            append(&mut shown, &tail);
            from_chars(&shown)
        } else {
            String::from_str(path)
        }
    }

    /// The highlight ranges of `text` for the query.
    pub fn compute_highlight_ranges(&self, text: &str) -> (ranges: Vec<(usize, usize)>)
        ensures
            ranges@ == highlight_ranges(text@, self.search_query@),
    {
        let positions = fuzzy_positions(text, self.search_query.as_str());
        coalesce_ranges(&positions)
    }

    /// The row for `project` as the shown project at `absolute_idx`;
    /// `highlight` says whether matches are highlighted.
    pub fn compute_display_item(
        &self,
        project: &Project,
        absolute_idx: usize,
        cols: usize,
        highlight: bool,
    ) -> (item: DisplayItem)
        ensures
            item@ == display_row(self@, project@, absolute_idx as int, cols, highlight),
    {
        let is_current_session = match &self.current_session {
            Some(current) => *current == project.name,
            None => false,
        };
        let highlight_ranges = if highlight {
            self.compute_highlight_ranges(project.name.as_str())
        } else {
            Vec::new()
        };
        DisplayItem {
            name: shown_name(project.name.as_str()),
            path: AppState::format_display_path(
                project.path.as_str(),
                saturating_minus(cols, PATH_MARGIN),
            ),
            is_selected: absolute_idx == self.selected_index,
            is_current_session,
            highlight_ranges,
        }
    }

    /// The frame for a terminal of `rows` rows and `cols` columns.
    pub fn compute_viewmodel(&self, rows: usize, cols: usize) -> (model: UIViewModel)
        requires
            selection_valid(self@),
        ensures
            model@ == frame(self@, rows, cols),
    {
        assert(self.filtered_projects.deep_view().len() == self.filtered_projects.len());
        assert(self.projects.deep_view().len() == self.projects.len());
        if self.projects.len() == 0 || self.filtered_projects.len() == 0 {
            let model = UIViewModel {
                display_items: Vec::new(),
                selected_index: 0,
                header: self.compute_header(),
                footer: self.compute_footer(),
                empty_state: None,
                search_bar: self.compute_search_bar(),
            };
            assert(model.display_items.deep_view() =~= Seq::<DisplayItemView>::empty());
            return model;
        }
        let available = self.calculate_available_rows(rows);
        let (start, end) = visible_window(
            self.selected_index,
            self.filtered_projects.len(),
            available,
        );
        let highlight = self.input_mode.is_search() && !self.search_query.as_str().is_empty();
        let mut display_items: Vec<DisplayItem> = Vec::new();
        let mut index: usize = start;
        while index < end
            invariant
                start <= index <= end <= self.filtered_projects.len(),
                highlight == highlights(self@),
                display_items.len() == index - start,
                forall|k: int|
                    0 <= k < display_items.len() ==> (#[trigger] display_items@[k])@
                        == display_item(self@, start + k, cols),
            decreases end - index,
        {
            let project = &self.filtered_projects[index];
            let item = self.compute_display_item(project, index, cols, highlight);
            display_items.push(item);
            index += 1;
        }
        assert(display_items.deep_view() =~= frame(self@, rows, cols).display_items);
        proof {
            crate::app::window::lemma_window_bounds(
                self.selected_index as int,
                self.filtered_projects.len() as int,
                available as int,
            );
        }
        UIViewModel {
            display_items,
            selected_index: self.selected_index - start,
            header: self.compute_header(),
            footer: self.compute_footer(),
            empty_state: None,
            search_bar: self.compute_search_bar(),
        }
    }
}

} // verus!
