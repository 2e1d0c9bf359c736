//! Side effects the event handler asks its caller to perform.

use crate::text::{clone_optional, optional_view};
use crate::worker::messages::{WorkerMessage, WorkerMessageView};
use vstd::prelude::*;

verus! {

/// A side effect. The handler returns actions in the order in which the
/// caller must perform them.
#[derive(Debug, PartialEq, Eq)]
pub enum Action {
    /// Hide the switcher.
    CloseFocus,
    /// Send a request to the background context.
    PostToWorker(WorkerMessage),
    /// Switch to the live session `name`.
    SwitchSession { name: String, path: String, layout: Option<String> },
    /// Create a session `name` rooted at `path`.
    CreateSession { name: String, path: String, layout: Option<String> },
    /// End the session `name`.
    KillSession { name: String },
    /// Set or clear the layout of the project at `path`.
    UpdateProjectLayout { path: String, layout: Option<String> },
}

/// The mathematical value of an [`Action`].
pub enum ActionView {
    CloseFocus,
    PostToWorker(WorkerMessageView),
    SwitchSession { name: Seq<char>, path: Seq<char>, layout: Option<Seq<char>> },
    CreateSession { name: Seq<char>, path: Seq<char>, layout: Option<Seq<char>> },
    KillSession { name: Seq<char> },
    UpdateProjectLayout { path: Seq<char>, layout: Option<Seq<char>> },
}

impl View for Action {
    type V = ActionView;

    open spec fn view(&self) -> ActionView {
        match *self {
            Action::CloseFocus => ActionView::CloseFocus,
            Action::PostToWorker(message) => ActionView::PostToWorker(message@),
            Action::SwitchSession { name, path, layout } => ActionView::SwitchSession {
                name: name@,
                path: path@,
                layout: optional_view(layout),
            },
            Action::CreateSession { name, path, layout } => ActionView::CreateSession {
                name: name@,
                path: path@,
                layout: optional_view(layout),
            },
            Action::KillSession { name } => ActionView::KillSession { name: name@ },
            Action::UpdateProjectLayout { path, layout } => ActionView::UpdateProjectLayout {
                path: path@,
                layout: optional_view(layout),
            },
        }
    }
}

impl DeepView for Action {
    type V = ActionView;

    open spec fn deep_view(&self) -> ActionView {
        self@
    }
}

impl Clone for Action {
    fn clone(&self) -> (copy: Self)
        ensures
            copy@ == self@,
    {
        match self {
            Action::CloseFocus => Action::CloseFocus,
            Action::PostToWorker(message) => Action::PostToWorker(message.clone()),
            Action::SwitchSession { name, path, layout } => Action::SwitchSession {
                name: name.clone(),
                path: path.clone(),
                layout: clone_optional(layout),
            },
            Action::CreateSession { name, path, layout } => Action::CreateSession {
                name: name.clone(),
                path: path.clone(),
                layout: clone_optional(layout),
            },
            Action::KillSession { name } => Action::KillSession { name: name.clone() },
            Action::UpdateProjectLayout { path, layout } => Action::UpdateProjectLayout {
                path: path.clone(),
                layout: clone_optional(layout),
            },
        }
    }
}

} // verus!
