//! Input and view modes of the state machine.

use vstd::prelude::*;

verus! {

/// Where the keyboard focus lies while searching.
#[derive(Debug, Clone, Copy, PartialEq, Eq, Structural)]
pub enum SearchFocus {
    /// Keys edit the query.
    Typing,
    /// Keys move through the results.
    Navigating,
}

/// How input is interpreted.
#[derive(Debug, Clone, Copy, PartialEq, Eq, Structural)]
pub enum InputMode {
    /// Navigation and commands.
    Normal,
    /// Searching, with the current focus.
    Search(SearchFocus),
}

/// Which coarse subset of the projects is shown before the search applies.
#[derive(Debug, Clone, Copy, PartialEq, Eq, Structural)]
pub enum ViewMode {
    /// Projects that have a live session.
    Sessions,
    /// Projects that have none.
    ProjectsWithoutSessions,
}

impl InputMode {
    /// Whether any search mode is active.
    pub open spec fn searching(self) -> bool {
        self is Search
    }

    /// Whether any search mode is active.
    pub fn is_search(&self) -> (searching: bool)
        ensures
            searching == self.searching(),
    {
        match self {
            InputMode::Search(_) => true,
            InputMode::Normal => false,
        }
    }
}

} // verus!
