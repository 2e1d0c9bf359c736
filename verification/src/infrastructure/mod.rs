//! Paths in the sandbox, where the host's files appear under `/host`.

pub mod paths;

pub use paths::{
    expand_tilde, find_layout_for_project, get_data_dir, layout_candidates, strip_host_prefix,
};
