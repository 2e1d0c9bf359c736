//! The view model: what one frame shows, as plain data.

use vstd::prelude::*;

verus! {

/// One frame of the switcher.
#[derive(Debug, PartialEq, Eq)]
pub struct UIViewModel {
    /// The rows of the visible window, top to bottom.
    pub display_items: Vec<DisplayItem>,
    /// The row of the selection within `display_items`.
    pub selected_index: usize,
    pub header: HeaderInfo,
    pub footer: FooterInfo,
    /// A message shown in place of the list, if any.
    pub empty_state: Option<EmptyState>,
    /// The search bar, present while searching.
    pub search_bar: Option<SearchBarInfo>,
}

/// The mathematical value of a [`UIViewModel`].
pub struct UIViewModelView {
    pub display_items: Seq<DisplayItemView>,
    pub selected_index: usize,
    pub title: Seq<char>,
    pub keybindings: Seq<char>,
    /// Message and subtitle of the empty state.
    pub empty_state: Option<(Seq<char>, Seq<char>)>,
    /// The query in the search bar.
    pub search_bar: Option<Seq<char>>,
}

impl View for UIViewModel {
    type V = UIViewModelView;

    open spec fn view(&self) -> UIViewModelView {
        UIViewModelView {
            display_items: self.display_items.deep_view(),
            selected_index: self.selected_index,
            title: self.header.title@,
            keybindings: self.footer.keybindings@,
            empty_state: match self.empty_state {
                Some(empty) => Some((empty.message@, empty.subtitle@)),
                None => None,
            },
            search_bar: match self.search_bar {
                Some(bar) => Some(bar.query@),
                None => None,
            },
        }
    }
}

/// One row of the list.
#[derive(Debug, PartialEq, Eq)]
pub struct DisplayItem {
    /// The name, shortened to fit its column.
    pub name: String,
    /// The path, shortened to fit the terminal.
    pub path: String,
    pub is_selected: bool,
    pub is_current_session: bool,
    /// Closed-open ranges of character positions of the name to highlight.
    pub highlight_ranges: Vec<(usize, usize)>,
}

/// The mathematical value of a [`DisplayItem`].
pub struct DisplayItemView {
    pub name: Seq<char>,
    pub path: Seq<char>,
    pub is_selected: bool,
    pub is_current_session: bool,
    pub highlight_ranges: Seq<(usize, usize)>,
}

impl View for DisplayItem {
    type V = DisplayItemView;

    open spec fn view(&self) -> DisplayItemView {
        DisplayItemView {
            name: self.name@,
            path: self.path@,
            is_selected: self.is_selected,
            is_current_session: self.is_current_session,
            highlight_ranges: self.highlight_ranges@,
        }
    }
}

impl DeepView for DisplayItem {
    type V = DisplayItemView;

    open spec fn deep_view(&self) -> DisplayItemView {
        self@
    }
}

/// The header line.
#[derive(Debug, PartialEq, Eq)]
pub struct HeaderInfo {
    pub title: String,
}

/// The footer line.
#[derive(Debug, PartialEq, Eq)]
pub struct FooterInfo {
    pub keybindings: String,
}

/// A message for an empty list.
#[derive(Debug, PartialEq, Eq)]
pub struct EmptyState {
    pub message: String,
    pub subtitle: String,
}

/// The search bar.
#[derive(Debug, PartialEq, Eq)]
pub struct SearchBarInfo {
    pub query: String,
}

} // verus!
