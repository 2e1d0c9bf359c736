//! Error kinds of the switcher.

use vstd::prelude::*;
use vstd::string::StringExecFns;

verus! {

/// Everything that can go wrong, by layer. Each variant carries the detail
/// as text.
#[derive(Debug, PartialEq, Eq)]
pub enum ZessionizerError {
    /// Reading, parsing or writing the store failed, or a record is missing.
    Storage(String),
    /// A filesystem operation below the store failed.
    Io(String),
    /// A theme could not be parsed or applied.
    Theme(String),
    /// The background context could not do its work.
    Worker(String),
    /// A configuration value is invalid or missing.
    Config(String),
}

impl ZessionizerError {
    /// The text that introduces errors of this kind.
    pub open spec fn prefix(self) -> Seq<char> {
        match self {
            ZessionizerError::Storage(_) => "Storage error: "@,
            ZessionizerError::Io(_) => "IO error: "@,
            ZessionizerError::Theme(_) => "Theme error: "@,
            ZessionizerError::Worker(_) => "Worker communication error: "@,
            ZessionizerError::Config(_) => "Configuration error: "@,
        }
    }

    /// The detail carried by the error.
    pub open spec fn detail(self) -> Seq<char> {
        match self {
            ZessionizerError::Storage(d) => d@,
            ZessionizerError::Io(d) => d@,
            ZessionizerError::Theme(d) => d@,
            ZessionizerError::Worker(d) => d@,
            ZessionizerError::Config(d) => d@,
        }
    }

    /// The rendered error: the prefix of its kind, then the detail.
    pub open spec fn rendered(self) -> Seq<char> {
        self.prefix() + self.detail()
    }

    /// Renders the error for people.
    pub fn to_string(&self) -> (text: String)
        ensures
            text@ == self.rendered(),
    {
        match self {
            ZessionizerError::Storage(d) => String::from_str("Storage error: ").concat(d.as_str()),
            ZessionizerError::Io(d) => String::from_str("IO error: ").concat(d.as_str()),
            ZessionizerError::Theme(d) => String::from_str("Theme error: ").concat(d.as_str()),
            ZessionizerError::Worker(d) => String::from_str("Worker communication error: ").concat(
                d.as_str(),
            ),
            ZessionizerError::Config(d) => String::from_str("Configuration error: ").concat(
                d.as_str(),
            ),
        }
    }
}

impl Clone for ZessionizerError {
    fn clone(&self) -> (copy: Self)
        ensures
            copy == *self,
    {
        match self {
            ZessionizerError::Storage(d) => ZessionizerError::Storage(d.clone()),
            ZessionizerError::Io(d) => ZessionizerError::Io(d.clone()),
            ZessionizerError::Theme(d) => ZessionizerError::Theme(d.clone()),
            ZessionizerError::Worker(d) => ZessionizerError::Worker(d.clone()),
            ZessionizerError::Config(d) => ZessionizerError::Config(d.clone()),
        }
    }
}

} // verus!
