//! From the marker paths of a scan to the projects they stand for.
//!
//! A scan reports the path of each marker it found: a `.git` directory or a
//! `.zessionizer` file. The project is the directory that holds the marker.
//! A scan that ran inside the sandbox reports paths under the sandbox
//! prefix `/host`, which is not part of the path on the host.

use crate::text::{append, ends_with, from_chars, slice, starts_with, to_chars};
use vstd::prelude::*;

verus! {

/// The prefix under which the sandbox sees the host's files.
pub open spec fn sandbox_prefix() -> Seq<char> {
    "/host"@
}

/// The marker suffix of a repository.
pub open spec fn git_marker() -> Seq<char> {
    "/.git"@
}

/// The marker suffix of a directory declared a project by hand.
pub open spec fn app_marker() -> Seq<char> {
    "/.zessionizer"@
}

/// `text` without `suffix` at its end, if it ends with it.
pub open spec fn without_suffix(text: Seq<char>, suffix: Seq<char>) -> Option<Seq<char>> {
    if suffix.is_suffix_of(text) {
        Some(text.take(text.len() - suffix.len()))
    } else {
        None
    }
}

/// The path without its marker: the `.git` marker is tried first, then the
/// `.zessionizer` marker; a path that ends in neither stays as it is.
pub open spec fn without_marker(path: Seq<char>) -> Seq<char> {
    match without_suffix(path, git_marker()) {
        Some(directory) => directory,
        None => match without_suffix(path, app_marker()) {
            Some(directory) => directory,
            None => path,
        },
    }
}

/// Whether a path is rooted: absolute, or under the home directory `~/`.
pub open spec fn is_rooted(path: Seq<char>) -> bool {
    "~/"@.is_prefix_of(path) || (path.len() > 0 && path[0] == '/')
}

/// The project directory that a marker path stands for. The sandbox prefix
/// and the marker are taken off. What is then rooted stays as it is; what
/// lost its root with the sandbox prefix gets a single leading slash; any
/// other relative path stays as it is.
pub open spec fn normalized_path(marker: Seq<char>) -> Seq<char> {
    let sandboxed = sandbox_prefix().is_prefix_of(marker);
    let inner = if sandboxed {
        marker.skip(sandbox_prefix().len() as int)
    } else {
        marker
    };
    let directory = without_marker(inner);
    if is_rooted(directory) || !sandboxed {
        directory
    } else {
        seq!['/'] + directory
    }
}

/// What follows the last `/` of a path; the whole path if it has none.
pub open spec fn last_segment(path: Seq<char>) -> Seq<char>
    decreases path.len(),
{
    if path.len() == 0 {
        Seq::empty()
    } else if path.last() == '/' {
        Seq::empty()
    } else {
        last_segment(path.drop_last()).push(path.last())
    }
}

/// The project of a marker path, as path and name: its directory, and the
/// last segment of the directory. Every marker path has one; the name is
/// empty where the directory ends in `/` or is empty.
pub open spec fn project_of(marker: Seq<char>) -> (Seq<char>, Seq<char>) {
    (normalized_path(marker), last_segment(normalized_path(marker)))
}

/// Whether one of `entries` has the name `name`.
pub open spec fn has_name(entries: Seq<(Seq<char>, Seq<char>)>, name: Seq<char>) -> bool {
    exists|k: int| 0 <= k < entries.len() && (#[trigger] entries[k]).1 == name
}

/// The projects of a scan, in the order of the marker paths: the project
/// of every path, except that of several paths that give the same name
/// only the first is kept.
pub open spec fn discovered(markers: Seq<Seq<char>>) -> Seq<(Seq<char>, Seq<char>)>
    decreases markers.len(),
{
    if markers.len() == 0 {
        Seq::empty()
    } else {
        let before = discovered(markers.drop_last());
        if has_name(before, project_name(markers.last())) {
            before
        } else {
            before.push(project_of(markers.last()))
        }
    }
}

/// The name of the project of a marker path: the last segment of its
/// directory.
pub open spec fn project_name(marker: Seq<char>) -> Seq<char> {
    last_segment(normalized_path(marker))
}

/// Whether the marker path at `index` stands for a project of this name.
pub open spec fn gives_name(markers: Seq<Seq<char>>, index: int, name: Seq<char>) -> bool {
    &&& 0 <= index < markers.len()
    &&& project_name(markers[index]) == name
}

/// Whether the marker path at `index` is the first that stands for a
/// project of its name.
pub open spec fn is_first_of_name(markers: Seq<Seq<char>>, index: int) -> bool {
    &&& 0 <= index < markers.len()
    &&& forall|earlier: int|
        0 <= earlier < index ==> !gives_name(markers, earlier, project_name(markers[index]))
}

/// A name is among the discovered projects exactly if some marker path
/// gives it.
pub proof fn lemma_discovered_names(markers: Seq<Seq<char>>, name: Seq<char>)
    ensures
        has_name(discovered(markers), name) <==> exists|index: int|
            gives_name(markers, index, name),
    decreases markers.len(),
{
    if markers.len() == 0 {
    } else {
        let front = markers.drop_last();
        let before = discovered(front);
        let last = markers.len() - 1;
        lemma_discovered_names(front, name);
        assert forall|index: int| gives_name(front, index, name) implies gives_name(
            markers,
            index,
            name,
        ) by {
            assert(front[index] == markers[index]);
        }
        assert forall|index: int| index != last && gives_name(
            markers,
            index,
            name,
        ) implies gives_name(front, index, name) by {
            assert(front[index] == markers[index]);
        }
        let result = discovered(markers);
        if has_name(result, name) {
            let k = choose|k: int| 0 <= k < result.len() && (#[trigger] result[k]).1 == name;
            if k < before.len() {
                assert(before[k] == result[k]);
                assert(has_name(before, name));
                let index = choose|index: int| gives_name(front, index, name);
                assert(gives_name(markers, index, name));
            } else {
                assert(gives_name(markers, last, name));
            }
        }
        if exists|index: int| gives_name(markers, index, name) {
            let index = choose|index: int| gives_name(markers, index, name);
            if index != last {
                assert(gives_name(front, index, name));
                assert(has_name(before, name));
                let k = choose|k: int| 0 <= k < before.len() && (#[trigger] before[k]).1 == name;
                assert(result[k] == before[k]);
            } else if has_name(before, name) {
                let k = choose|k: int| 0 <= k < before.len() && (#[trigger] before[k]).1 == name;
                assert(result[k] == before[k]);
            } else {
                assert(result[result.len() - 1].1 == name);
            }
        }
    }
}

/// No marker path is lost: the name of the project of every marker path
/// is the name of a discovered project.
pub proof fn lemma_discovered_has_every_name(markers: Seq<Seq<char>>, index: int)
    requires
        0 <= index < markers.len(),
    ensures
        has_name(discovered(markers), project_name(markers[index])),
{
    lemma_discovered_names(markers, project_name(markers[index]));
    assert(gives_name(markers, index, project_name(markers[index])));
}

/// No two discovered projects have the same name.
pub proof fn lemma_discovered_names_distinct(markers: Seq<Seq<char>>)
    ensures
        forall|a: int, b: int|
            0 <= a < b < discovered(markers).len() ==> (#[trigger] discovered(markers)[a]).1 != (
            #[trigger] discovered(markers)[b]).1,
    decreases markers.len(),
{
    if markers.len() > 0 {
        let before = discovered(markers.drop_last());
        lemma_discovered_names_distinct(markers.drop_last());
        let result = discovered(markers);
        assert forall|a: int, b: int| 0 <= a < b < result.len() implies (#[trigger] result[a]).1 != (
        #[trigger] result[b]).1 by {
            if b < before.len() {
                assert(result[a] == before[a] && result[b] == before[b]);
            } else {
                assert(result[a] == before[a]);
                assert(!has_name(before, result[b].1));
            }
        }
    }
}

/// Of the marker paths that give one name, the first survives: its project
/// is among the discovered ones.
pub proof fn lemma_discovered_keeps_first(markers: Seq<Seq<char>>, index: int)
    requires
        is_first_of_name(markers, index),
    ensures
        discovered(markers).contains(project_of(markers[index])),
    decreases markers.len(),
{
    let front = markers.drop_last();
    let before = discovered(front);
    let result = discovered(markers);
    let entry = project_of(markers[index]);
    let name = project_name(markers[index]);
    assert(entry == (normalized_path(markers[index]), name));
    if index == markers.len() - 1 {
        lemma_discovered_names(front, name);
        if has_name(before, name) {
            let earlier = choose|earlier: int| gives_name(front, earlier, name);
            assert(front[earlier] == markers[earlier]);
            assert(gives_name(markers, earlier, name));
            assert(false);
        }
        assert(markers.last() == markers[index]);
        assert(result == before.push(entry));
        assert(result[result.len() - 1] == entry);
    } else {
        assert(front[index] == markers[index]);
        assert forall|earlier: int| 0 <= earlier < index implies !gives_name(
            front,
            earlier,
            name,
        ) by {
            assert(front[earlier] == markers[earlier]);
            assert(!gives_name(markers, earlier, name));
        }
        assert(is_first_of_name(front, index));
        lemma_discovered_keeps_first(front, index);
        let k = choose|k: int| 0 <= k < before.len() && before[k] == entry;
        assert(result[k] == entry);
    }
}

/// Every discovered project is the project of the first marker path that
/// gives its name: a later path with the same name, whatever directory it
/// names, leaves no trace.
pub proof fn lemma_discovered_are_first(markers: Seq<Seq<char>>, position: int)
    requires
        0 <= position < discovered(markers).len(),
    ensures
        exists|index: int|
            #![trigger is_first_of_name(markers, index)]
            is_first_of_name(markers, index) && project_of(markers[index]) == discovered(
                markers,
            )[position],
    decreases markers.len(),
{
    let front = markers.drop_last();
    let before = discovered(front);
    let result = discovered(markers);
    let last = markers.len() - 1;
    if position < before.len() {
        assert(result[position] == before[position]);
        lemma_discovered_are_first(front, position);
        let index = choose|index: int|
            #![trigger is_first_of_name(front, index)]
            is_first_of_name(front, index) && project_of(front[index]) == before[position];
        assert(front[index] == markers[index]);
        assert forall|earlier: int| 0 <= earlier < index implies !gives_name(
            markers,
            earlier,
            project_name(markers[index]),
        ) by {
            assert(front[earlier] == markers[earlier]);
            assert(!gives_name(front, earlier, project_name(front[index])));
        }
        assert(is_first_of_name(markers, index));
    } else {
        let entry = project_of(markers[last]);
        lemma_discovered_names(front, entry.1);
        assert forall|earlier: int| 0 <= earlier < last implies !gives_name(
            markers,
            earlier,
            entry.1,
        ) by {
            assert(front[earlier] == markers[earlier]);
            if gives_name(markers, earlier, entry.1) {
                assert(gives_name(front, earlier, entry.1));
            }
        }
        assert(is_first_of_name(markers, last));
    }
}

fn strip_suffix(text: &Vec<char>, suffix: &Vec<char>) -> (rest: Option<Vec<char>>)
    ensures
        match rest {
            Some(r) => without_suffix(text@, suffix@) == Some(r@),
            None => without_suffix(text@, suffix@) is None,
        },
{
    if ends_with(text, suffix) {
        let rest = slice(text, 0, text.len() - suffix.len());
        assert(text@.take(text@.len() - suffix@.len()) =~= text@.subrange(
            0,
            text@.len() - suffix@.len(),
        ));
        Some(rest)
    } else {
        None
    }
}

fn strip_marker(path: Vec<char>) -> (directory: Vec<char>)
    ensures
        directory@ == without_marker(path@),
{
    let git = to_chars("/.git");
    match strip_suffix(&path, &git) {
        Some(directory) => directory,
        None => {
            let app = to_chars("/.zessionizer");
            match strip_suffix(&path, &app) {
                Some(directory) => directory,
                None => path,
            }
        },
    }
}

fn rooted(path: &Vec<char>) -> (rooted: bool)
    ensures
        rooted == is_rooted(path@),
{
    let home = to_chars("~/");
    starts_with(path, &home) || (path.len() > 0 && path[0] == '/')
}

/// The project directory that the marker path stands for.
pub fn normalize_marker_path(marker: &str) -> (path: Vec<char>)
    ensures
        path@ == normalized_path(marker@),
{
    let chars = to_chars(marker);
    let prefix = to_chars("/host");
    let sandboxed = starts_with(&chars, &prefix);
    let inner = if sandboxed {
        let inner = slice(&chars, prefix.len(), chars.len());
        assert(chars@.skip(prefix@.len() as int) =~= chars@.subrange(
            prefix@.len() as int,
            chars@.len() as int,
        ));
        inner
    } else {
        chars
    };
    let directory = strip_marker(inner);
    if rooted(&directory) || !sandboxed {
        directory
    } else {
        let mut path: Vec<char> = Vec::new();
        path.push('/');
        append(&mut path, &directory);
        assert(path@ =~= seq!['/'] + directory@);
        path
    }
}

/// What follows the last `/` of `path`.
pub fn final_segment(path: &Vec<char>) -> (segment: Vec<char>)
    ensures
        segment@ == last_segment(path@),
{
    let mut segment: Vec<char> = Vec::new();
    let mut i: usize = 0;
    assert(path@.take(0) =~= Seq::<char>::empty());
    while i < path.len()
        invariant
            i <= path.len(),
            segment@ == last_segment(path@.take(i as int)),
        decreases path.len() - i,
    {
        assert(path@.take(i + 1).drop_last() =~= path@.take(i as int));
        if path[i] == '/' {
            segment = Vec::new();
        } else {
            segment.push(path[i]);
        }
        i += 1;
    }
    assert(path@.take(path.len() as int) =~= path@);
    segment
}

fn names_hold(entries: &Vec<(String, String)>, name: &String) -> (found: bool)
    ensures
        found == has_name(entries.deep_view(), name@),
{
    let mut i: usize = 0;
    while i < entries.len()
        invariant
            i <= entries.len(),
            forall|k: int| 0 <= k < i ==> (#[trigger] entries.deep_view()[k]).1 != name@,
        decreases entries.len() - i,
    {
        if entries[i].1 == *name {
            assert(entries.deep_view()[i as int].1 == name@);
            return true;
        }
        i += 1;
    }
    false
}

/// The projects that the marker paths of a scan stand for, each as path
/// and name, in the order of the paths; where several paths give one name,
/// the first is kept.
pub fn project_batch(markers: &Vec<String>) -> (batch: Vec<(String, String)>)
    ensures
        batch.deep_view() == discovered(markers.deep_view()),
{
    let mut batch: Vec<(String, String)> = Vec::new();
    let mut i: usize = 0;
    assert(markers.deep_view().take(0) =~= Seq::<Seq<char>>::empty());
    assert(batch.deep_view() =~= Seq::<(Seq<char>, Seq<char>)>::empty());
    while i < markers.len()
        invariant
            i <= markers.len(),
            batch.deep_view() == discovered(markers.deep_view().take(i as int)),
        decreases markers.len() - i,
    {
        let ghost before = batch.deep_view();
        assert(markers.deep_view().take(i + 1).drop_last() =~= markers.deep_view().take(i as int));
        assert(markers.deep_view().take(i + 1).last() == markers@[i as int]@);
        let path = normalize_marker_path(markers[i].as_str());
        let segment = final_segment(&path);
        let name = from_chars(&segment);
        if !names_hold(&batch, &name) {
            let path_text = from_chars(&path);
            batch.push((path_text, name));
            assert(batch.deep_view() =~= before.push((path@, segment@)));
        }
        i += 1;
    }
    assert(markers.deep_view().take(markers.len() as int) =~= markers.deep_view());
    batch
}

} // verus!
