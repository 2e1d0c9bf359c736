//! Domain types: the project entity and the error taxonomy.

pub mod error;
pub mod project;

pub use error::ZessionizerError;
pub use project::{Project, ProjectView};
