//! Path arithmetic for the sandbox: where the data lives, how `~` and the
//! sandbox prefix translate, and where a project's layout file may be.

use crate::text::{append, from_chars, slice, starts_with, to_chars};
use vstd::prelude::*;
use vstd::string::StringExecFns;

verus! {

/// The directory that holds the store, as the sandbox sees it.
pub open spec fn data_dir() -> Seq<char> {
    "/host/.local/share/zellij"@ + "/"@ + "zessionizer"@
}

/// The directory that holds the layout files, as the sandbox sees it.
pub open spec fn layouts_dir() -> Seq<char> {
    "/host/.config/zellij/layouts/"@
}

/// `path` with a leading `~` that stands for the home directory replaced
/// by `/host`; any other path unchanged.
pub open spec fn tilde_expanded(path: Seq<char>) -> Seq<char> {
    if "~/"@.is_prefix_of(path) || path == "~"@ {
        "/host"@ + path.skip(1)
    } else {
        path
    }
}

/// `path` without the sandbox prefix `/host`, if it begins with it.
pub open spec fn host_prefix_stripped(path: Seq<char>) -> Seq<char> {
    if "/host"@.is_prefix_of(path) {
        path.skip("/host"@.len() as int)
    } else {
        path
    }
}

/// The layout files that may belong to a project, most preferred first.
pub open spec fn layout_paths(project_name: Seq<char>) -> Seq<Seq<char>> {
    seq![
        layouts_dir() + project_name + ".kdl"@,
        layouts_dir() + project_name + ".yaml"@,
        layouts_dir() + project_name + ".yml"@,
    ]
}

/// The index of the first `true` among the first `count` flags.
pub open spec fn first_set(flags: Seq<bool>, count: int) -> Option<int>
    decreases count,
{
    if count <= 0 {
        None
    } else {
        match first_set(flags, count - 1) {
            Some(index) => Some(index),
            None => if count - 1 < flags.len() && flags[count - 1] {
                Some(count - 1)
            } else {
                None
            },
        }
    }
}

/// The directory that holds the store.
pub fn get_data_dir() -> (dir: String)
    ensures
        dir@ == data_dir(),
{
    String::from_str("/host/.local/share/zellij").concat("/").concat("zessionizer")
}

/// The path in the sandbox of a path under the home directory.
pub fn expand_tilde(path: &str) -> (expanded: String)
    ensures
        expanded@ == tilde_expanded(path@),
{
    let chars = to_chars(path);
    let home = to_chars("~/");
    let tilde = to_chars("~");
    proof {
        reveal_strlit("~/");
        reveal_strlit("~");
    }
    if starts_with(&chars, &home) || (chars.len() == 1 && chars[0] == '~') {
        if !starts_with(&chars, &home) {
            assert(chars@ =~= "~"@);
        }
        let mut expanded = to_chars("/host");
        let rest = slice(&chars, 1, chars.len());
        assert(chars@.skip(1) =~= chars@.subrange(1, chars@.len() as int));
        append(&mut expanded, &rest);
        from_chars(&expanded)
    } else {
        String::from_str(path)
    }
}

/// The path on the host of a path in the sandbox.
pub fn strip_host_prefix(path: &str) -> (stripped: String)
    ensures
        stripped@ == host_prefix_stripped(path@),
{
    let chars = to_chars(path);
    let prefix = to_chars("/host");
    if starts_with(&chars, &prefix) {
        let rest = slice(&chars, prefix.len(), chars.len());
        assert(chars@.skip(prefix@.len() as int) =~= chars@.subrange(
            prefix@.len() as int,
            chars@.len() as int,
        ));
        from_chars(&rest)
    } else {
        String::from_str(path)
    }
}

fn layout_path(project_name: &str, extension: &str) -> (path: String)
    ensures
        path@ == layouts_dir() + project_name@ + extension@,
{
    String::from_str("/host/.config/zellij/layouts/").concat(project_name).concat(extension)
}

/// The layout files that may belong to the project, most preferred first.
pub fn layout_candidates(project_name: &str) -> (candidates: Vec<String>)
    ensures
        candidates.deep_view() == layout_paths(project_name@),
        candidates.len() == 3,
{
    let mut candidates: Vec<String> = Vec::new();
    candidates.push(layout_path(project_name, ".kdl"));
    candidates.push(layout_path(project_name, ".yaml"));
    candidates.push(layout_path(project_name, ".yml"));
    assert(candidates.deep_view() =~= layout_paths(project_name@));
    candidates
}

/// The layout file of the project: the first of its candidates that
/// exists. `exists` says of each candidate of [`layout_candidates`], by
/// position, whether the file is there; a candidate without a flag counts
/// as missing.
pub fn find_layout_for_project(project_name: &str, exists: &Vec<bool>) -> (layout: Option<String>)
    ensures
        match first_set(exists@, 3) {
            Some(index) => layout is Some && layout->0@ == layout_paths(project_name@)[index],
            None => layout is None,
        },
{
    let candidates = layout_candidates(project_name);
    let mut i: usize = 0;
    while i < 3
        invariant
            i <= 3,
            candidates.len() == 3,
            candidates.deep_view() == layout_paths(project_name@),
            first_set(exists@, i as int) is None,
        decreases 3 - i,
    {
        if i < exists.len() && exists[i] {
            assert(first_set(exists@, i + 1) == Some(i as int));
            assert(first_set(exists@, 3) == Some(i as int)) by {
                reveal_with_fuel(first_set, 4);
            }
            assert(candidates.deep_view()[i as int] == candidates@[i as int]@);
            return Some(candidates[i].clone());
        }
        i += 1;
    }
    None
}

} // verus!
