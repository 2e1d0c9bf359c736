//! The capability interface of a storage backend.

use crate::domain::error::ZessionizerError;
use crate::storage::models::{ProjectRecord, SessionRecord};
use vstd::prelude::*;

verus! {

/// What the background context asks of a store. A backend applies each
/// operation to its dataset; how and when the dataset reaches durable
/// storage is the backend's own protocol.
pub trait Storage {
    /// Adds the project, or updates the one stored under its path. Returns
    /// a positional identifier, which is no durable identity.
    fn add_project(&mut self, project: &ProjectRecord) -> Result<i64, ZessionizerError>;

    /// Adds or merges every project of the batch and returns the stored
    /// records, one for each project of the batch.
    fn add_projects_batch(&mut self, projects: &[ProjectRecord]) -> Result<
        Vec<ProjectRecord>,
        ZessionizerError,
    >;

    /// Every stored project, in no particular ranking.
    fn get_all_projects(&self) -> Result<Vec<ProjectRecord>, ZessionizerError>;

    /// Records an access to the project at `path` at `timestamp`.
    fn update_project_access(&mut self, path: &str, timestamp: i64) -> Result<(), ZessionizerError>;

    /// The project stored under `path`, if any.
    fn get_project_by_path(&self, path: &str) -> Result<Option<ProjectRecord>, ZessionizerError>;

    /// Every stored session.
    fn get_all_sessions(&self) -> Result<Vec<SessionRecord>, ZessionizerError>;

    /// Replaces the stored sessions by those of the live names.
    fn sync_sessions(&mut self, active_session_names: &[String]) -> Result<(), ZessionizerError>;

    /// Sets or clears the layout of the project at `path`.
    fn update_project_layout(&mut self, path: &str, layout: Option<String>) -> Result<
        (),
        ZessionizerError,
    >;
}

} // verus!
