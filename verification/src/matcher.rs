//! Fuzzy matching of a name against a pattern.
//!
//! The matching is done by the skim matcher with its default settings. It
//! accepts a name when the pattern's characters occur in the name in order,
//! possibly with gaps. Upper case in the pattern makes the comparison exact;
//! without it, ASCII letters compare without regard to case.

use crate::text::to_chars;
use fuzzy_matcher::skim::SkimMatcherV2;
use fuzzy_matcher::FuzzyMatcher;
use vstd::prelude::*;

verus! {

/// The positions that `SkimMatcherV2::fuzzy_indices` of the default matcher
/// reports for `pattern` in `choice`; `None` where it reports no match.
pub uninterp spec fn skim_indices(choice: Seq<char>, pattern: Seq<char>) -> Option<Seq<usize>>;

/// Longest name or pattern, in characters, that is handed to the matcher
/// for a yes-or-no answer.
pub const MATCH_LIMIT: usize = 1048576;

/// Largest product of the lengths plus one, in characters, for which the
/// matcher is asked for positions: it allocates one cell for each pair.
pub const POSITION_CELLS: usize = 4194304;

/// Whether `c` is an ASCII upper-case letter.
pub open spec fn is_ascii_upper(c: char) -> bool {
    'A' <= c <= 'Z'
}

/// `c` with an ASCII upper-case letter replaced by its lower-case form.
pub open spec fn ascii_fold(c: char) -> char {
    if is_ascii_upper(c) {
        ((c as u32) + 32) as char
    } else {
        c
    }
}

/// Whether the pattern holds an ASCII upper-case letter.
pub open spec fn has_ascii_upper(pattern: Seq<char>) -> bool {
    exists|i: int| 0 <= i < pattern.len() && is_ascii_upper(#[trigger] pattern[i])
}

/// Whether a character of the name stands for a character of the pattern.
pub open spec fn chars_match(c: char, p: char, exact: bool) -> bool {
    if exact {
        c == p
    } else {
        ascii_fold(c) == ascii_fold(p)
    }
}

/// Whether `pattern[i..]` occurs in `choice[j..]` in order, taking for each
/// pattern character the first character of the name that stands for it.
pub open spec fn occurs_from(
    choice: Seq<char>,
    pattern: Seq<char>,
    exact: bool,
    i: int,
    j: int,
) -> bool
    decreases choice.len() - j,
{
    if i >= pattern.len() {
        true
    } else if j >= choice.len() || j < 0 || i < 0 {
        false
    } else if chars_match(choice[j], pattern[i], exact) {
        occurs_from(choice, pattern, exact, i + 1, j + 1)
    } else {
        occurs_from(choice, pattern, exact, i, j + 1)
    }
}

/// Whether the skim matcher accepts `choice` for `pattern`.
pub open spec fn skim_matches(choice: Seq<char>, pattern: Seq<char>) -> bool {
    occurs_from(choice, pattern, has_ascii_upper(pattern), 0, 0)
}

/// Trusted: calls `SkimMatcherV2::fuzzy_match` with the default matcher.
/// The matcher answers `Some` exactly when the pattern is empty or its
/// characters are found in the name in order, under the case rule above.
/// Nothing is claimed of the score. The bound keeps the matcher's 32-bit
/// score arithmetic away from overflow.
#[verifier::external_body]
fn skim_score(choice: &str, pattern: &str) -> (score: Option<i64>)
    requires
        choice@.len() <= MATCH_LIMIT,
        pattern@.len() <= MATCH_LIMIT,
    ensures
        score.is_some() == skim_matches(choice@, pattern@),
{
    SkimMatcherV2::default().fuzzy_match(choice, pattern)
}

/// Trusted: calls `SkimMatcherV2::fuzzy_indices` with the default matcher
/// and keeps the positions. The result is named, not described. The bound
/// keeps the matcher's table, one cell for each pair of characters, small.
#[verifier::external_body]
fn skim_positions(choice: &str, pattern: &str) -> (positions: Option<Vec<usize>>)
    requires
        (choice@.len() + 1) * (pattern@.len() + 1) <= POSITION_CELLS,
    ensures
        positions_view(positions) == skim_indices(choice@, pattern@),
{
    SkimMatcherV2::default().fuzzy_indices(choice, pattern).map(|(_, positions)| positions)
}

/// The view of optional positions.
pub open spec fn positions_view(positions: Option<Vec<usize>>) -> Option<Seq<usize>> {
    match positions {
        Some(p) => Some(p@),
        None => None,
    }
}

fn char_is_ascii_upper(c: char) -> (upper: bool)
    ensures
        upper == is_ascii_upper(c),
{
    'A' <= c && c <= 'Z'
}

fn fold(c: char) -> (folded: u32)
    ensures
        folded == ascii_fold(c) as u32,
{
    if char_is_ascii_upper(c) {
        c as u32 + 32
    } else {
        c as u32
    }
}

fn contains_ascii_upper(pattern: &Vec<char>) -> (found: bool)
    ensures
        found == has_ascii_upper(pattern@),
{
    let mut i: usize = 0;
    while i < pattern.len()
        invariant
            i <= pattern.len(),
            forall|k: int| 0 <= k < i ==> !is_ascii_upper(#[trigger] pattern@[k]),
        decreases pattern.len() - i,
    {
        if char_is_ascii_upper(pattern[i]) {
            return true;
        }
        i += 1;
    }
    false
}

/// The matcher's answer for inputs of any length, computed by one pass
/// over the name.
fn scan(choice: &Vec<char>, pattern: &Vec<char>) -> (found: bool)
    ensures
        found == skim_matches(choice@, pattern@),
{
    let exact = contains_ascii_upper(pattern);
    let mut i: usize = 0;
    let mut j: usize = 0;
    while i < pattern.len() && j < choice.len()
        invariant
            i <= pattern.len(),
            j <= choice.len(),
            exact == has_ascii_upper(pattern@),
            skim_matches(choice@, pattern@) == occurs_from(
                choice@,
                pattern@,
                exact,
                i as int,
                j as int,
            ),
        decreases choice.len() - j,
    {
        let same = if exact {
            choice[j] == pattern[i]
        } else {
            fold(choice[j]) == fold(pattern[i])
        };
        if same {
            i += 1;
        }
        j += 1;
    }
    i >= pattern.len()
}

/// Whether the matcher accepts `choice` for `pattern`. The matcher is
/// asked where both are within [`MATCH_LIMIT`]; beyond it, where the
/// matcher's scores could overflow, the answer is computed by the pass
/// that the matcher's own answer rests on.
pub fn fuzzy_matches(choice: &str, pattern: &str) -> (accepted: bool)
    ensures
        accepted == skim_matches(choice@, pattern@),
{
    let choice_chars = to_chars(choice);
    let pattern_chars = to_chars(pattern);
    if choice_chars.len() <= MATCH_LIMIT && pattern_chars.len() <= MATCH_LIMIT {
        skim_score(choice, pattern).is_some()
    } else {
        scan(&choice_chars, &pattern_chars)
    }
}

/// Whether the positions of `pattern` in `choice` can be asked for and
/// used: the matcher's table stays within [`POSITION_CELLS`], and every
/// position it reports has a successor.
pub open spec fn positions_available(choice: Seq<char>, pattern: Seq<char>) -> bool {
    &&& (choice.len() + 1) * (pattern.len() + 1) <= POSITION_CELLS
    &&& match skim_indices(choice, pattern) {
        Some(indices) => forall|k: int| 0 <= k < indices.len() ==> indices[k] < usize::MAX,
        None => true,
    }
}

/// The positions of `pattern` in `choice`, where they are available; no
/// positions where the name is not accepted or they are not available.
pub open spec fn match_positions(choice: Seq<char>, pattern: Seq<char>) -> Seq<usize> {
    if positions_available(choice, pattern) {
        match skim_indices(choice, pattern) {
            Some(indices) => indices,
            None => Seq::empty(),
        }
    } else {
        Seq::empty()
    }
}

fn all_have_successor(indices: &Vec<usize>) -> (ok: bool)
    ensures
        ok == (forall|k: int| 0 <= k < indices.len() ==> indices@[k] < usize::MAX),
{
    let mut i: usize = 0;
    while i < indices.len()
        invariant
            i <= indices.len(),
            forall|k: int| 0 <= k < i ==> indices@[k] < usize::MAX,
        decreases indices.len() - i,
    {
        if indices[i] == usize::MAX {
            return false;
        }
        i += 1;
    }
    true
}

/// Asks the matcher where `pattern` matches in `choice`.
pub fn fuzzy_positions(choice: &str, pattern: &str) -> (positions: Vec<usize>)
    ensures
        positions@ == match_positions(choice@, pattern@),
        forall|k: int| 0 <= k < positions.len() ==> positions@[k] < usize::MAX,
{
    let choice_len = choice.unicode_len();
    let pattern_len = pattern.unicode_len();
    if choice_len >= POSITION_CELLS || pattern_len >= POSITION_CELLS {
        assert((choice@.len() + 1) * (pattern@.len() + 1) > POSITION_CELLS) by (nonlinear_arith)
            requires
                choice@.len() >= POSITION_CELLS || pattern@.len() >= POSITION_CELLS,
        ;
        return Vec::new();
    }
    assert((choice_len + 1) * (pattern_len + 1) <= 0x4000_0000_0000) by (nonlinear_arith)
        requires
            choice_len < 4194304,
            pattern_len < 4194304,
    ;
    let cells: u64 = (choice_len as u64 + 1) * (pattern_len as u64 + 1);
    if cells > POSITION_CELLS as u64 {
        return Vec::new();
    }
    match skim_positions(choice, pattern) {
        Some(indices) => {
            if all_have_successor(&indices) {
                indices
            } else {
                Vec::new()
            }
        },
        None => Vec::new(),
    }
}

} // verus!
