//! The visible window of the list and the highlight ranges of a match.

use vstd::prelude::*;

verus! {

/// First row of the window when it is centered on the selection.
pub open spec fn centered_start(selected: int, rows: int) -> int {
    if selected >= rows / 2 {
        selected - rows / 2
    } else {
        0
    }
}

/// Row after the last of the window: `rows` past the centered start, cut
/// off at the end of the list.
pub open spec fn window_end(selected: int, len: int, rows: int) -> int {
    let start = centered_start(selected, rows);
    if start + rows <= len {
        start + rows
    } else {
        len
    }
}

/// First row of the window: the centered start, moved up just far enough
/// to fill `rows` rows where the list is long enough and the centered
/// window would run past its end.
pub open spec fn window_start(selected: int, len: int, rows: int) -> int {
    let start = centered_start(selected, rows);
    let end = window_end(selected, len, rows);
    if end - start < rows && len >= rows {
        end - rows
    } else {
        start
    }
}

/// The window of a list of `len` rows around `selected`, for a terminal
/// with `rows` rows to spare: the first row shown and the row after the
/// last one shown.
pub fn visible_window(selected: usize, len: usize, rows: usize) -> (window: (usize, usize))
    requires
        selected < len,
    ensures
        window.0 == window_start(selected as int, len as int, rows as int),
        window.1 == window_end(selected as int, len as int, rows as int),
        window.0 <= window.1 <= len,
{
    let half: usize = rows / 2;
    let mut start: usize = if selected >= half {
        selected - half
    } else {
        0
    };
    let end: usize = if rows <= len - start {
        start + rows
    } else {
        len
    };
    if end - start < rows && len >= rows {
        start = end - rows;
    }
    (start, end)
}

/// A window on a list at least as long as the terminal has rows to spare
/// shows exactly that many rows, and the selection is one of them.
pub proof fn lemma_window_fills_rows(selected: int, len: int, rows: int)
    requires
        0 <= selected < len,
        1 <= rows <= len,
    ensures
        window_end(selected, len, rows) - window_start(selected, len, rows) == rows,
        window_start(selected, len, rows) <= selected < window_end(selected, len, rows),
        0 <= window_start(selected, len, rows),
        window_end(selected, len, rows) <= len,
{
}

/// The selection always lies within the window, whatever the length of the
/// list, as long as the terminal has a row to spare.
pub proof fn lemma_window_holds_selection(selected: int, len: int, rows: int)
    requires
        0 <= selected < len,
        1 <= rows,
    ensures
        window_start(selected, len, rows) <= selected < window_end(selected, len, rows),
        window_end(selected, len, rows) - window_start(selected, len, rows) <= rows,
{
}

/// The window starts at or before the selection and lies within the list.
pub proof fn lemma_window_bounds(selected: int, len: int, rows: int)
    requires
        0 <= selected < len,
        0 <= rows,
    ensures
        0 <= window_start(selected, len, rows) <= selected,
        window_start(selected, len, rows) <= window_end(selected, len, rows) <= len,
{
}

/// The closed-open range that position `index` makes on its own.
pub open spec fn single(index: usize) -> (usize, usize) {
    (index, (index + 1) as usize)
}

/// The matched positions joined into closed-open ranges: a position that
/// follows its predecessor directly extends the last range, any other
/// position starts a new one.
pub open spec fn coalesce(indices: Seq<usize>) -> Seq<(usize, usize)>
    decreases indices.len(),
{
    if indices.len() == 0 {
        Seq::empty()
    } else if indices.len() == 1 {
        seq![single(indices[0])]
    } else {
        let before = coalesce(indices.drop_last());
        let index = indices.last();
        if index == indices[indices.len() - 2] + 1 {
            before.drop_last().push((before.last().0, (index + 1) as usize))
        } else {
            before.push(single(index))
        }
    }
}

/// Joins matched positions into closed-open ranges of consecutive
/// positions.
pub fn coalesce_ranges(indices: &Vec<usize>) -> (ranges: Vec<(usize, usize)>)
    requires
        forall|k: int| 0 <= k < indices.len() ==> indices@[k] < usize::MAX,
    ensures
        ranges@ == coalesce(indices@),
{
    let mut ranges: Vec<(usize, usize)> = Vec::new();
    if indices.len() == 0 {
        return ranges;
    }
    let mut start: usize = indices[0];
    let mut prev: usize = indices[0];
    let mut i: usize = 1;
    assert(indices@.take(1) =~= seq![indices@[0]]);
    while i < indices.len()
        invariant
            1 <= i <= indices.len(),
            forall|k: int| 0 <= k < indices.len() ==> indices@[k] < usize::MAX,
            prev == indices@[i - 1],
            ranges@.push((start, (prev + 1) as usize)) == coalesce(indices@.take(i as int)),
        decreases indices.len() - i,
    {
        let index = indices[i];
        proof {
            let next = indices@.take(i + 1);
            assert(next.drop_last() =~= indices@.take(i as int));
            assert(next.last() == index);
            assert(next[next.len() - 2] == prev);
            let before = coalesce(indices@.take(i as int));
            assert(before.last() == (start, (prev + 1) as usize));
            assert(before.drop_last() =~= ranges@);
        }
        if index == prev + 1 {
            prev = index;
        } else {
            ranges.push((start, prev + 1));
            start = index;
            prev = index;
        }
        i += 1;
    }
    assert(indices@.take(indices.len() as int) =~= indices@);
    ranges.push((start, prev + 1));
    ranges
}

} // verus!
