//! The foreground context: state, events and the actions they produce.

pub mod actions;
pub mod handler;
pub mod modes;
pub mod scan;
pub mod state;
pub mod view;
pub mod window;

pub use actions::{Action, ActionView};
pub use handler::{handle_event, Event, EventView};
pub use modes::{InputMode, SearchFocus, ViewMode};
pub use state::{AppState, AppStateView};
