//! The background context: the message protocol and the worker that
//! serves it.

pub mod handler;
pub mod messages;
pub mod wire;

pub use handler::{Operation, Staged, Success, ZessionizerWorker};
pub use messages::{TraceContext, WorkerMessage, WorkerMessageView, WorkerResponse, WorkerResponseView};
