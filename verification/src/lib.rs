//! A fuzzy-searchable, frecency-ranked switcher for projects and their
//! sessions: the verified core.
//!
//! Two contexts that share no memory make up the switcher.
//!
//! The foreground context is a state machine ([`app`]): it owns the search,
//! the selection and the view, takes one [`Event`] at a time and answers
//! with a redraw hint and a list of [`Action`]s. It never touches the
//! store.
//!
//! The background context is the [`worker`] with its store ([`storage`]):
//! it takes one request at a time, applies it to the dataset in memory and
//! has it committed to disk before it confirms.
//!
//! Everything here is computed from plain values. Files and messages are
//! JSON [`document`]s here; reading and writing their text, talking to the
//! host, the floating-point score and drawing are left to the caller. The
//! contracts say what the caller gets for what it hands in.

pub mod app;
pub mod clock;
pub mod config;
pub mod document;
pub mod domain;
pub mod host;
pub mod infrastructure;
pub mod matcher;
pub mod storage;
pub mod text;
pub mod ui;
pub mod worker;

pub use app::{handle_event, Action, AppState, Event, InputMode, SearchFocus, ViewMode};
pub use config::{initialize, Config};
pub use domain::{Project, ZessionizerError};
pub use ui::Theme;
