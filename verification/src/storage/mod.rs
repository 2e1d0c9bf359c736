//! The storage engine: records, the in-memory store with its commit
//! protocol, and frecency ranking.

pub mod backend;
pub mod commit;
pub mod format;
pub mod frecency;
pub mod json;
pub mod models;

pub use backend::Storage;
pub use format::{decode, encode, Flaw};
pub use frecency::{age_seconds, sort_by_frecency};
pub use commit::CommitPlan;
pub use json::{JsonStorage, LoadOutcome, StorageData};
pub use models::{ProjectRecord, ProjectRecordView, SessionRecord, SessionRecordView};
