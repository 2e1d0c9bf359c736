//! The frame as text for the terminal.
//!
//! A frame is drawn line by line: each part moves the cursor to its row
//! and writes its text with the colors of the theme. Widths are counted in
//! bytes of UTF-8, so text beyond ASCII is padded short. Nothing is written
//! to the terminal here; the text is handed to the caller.

use crate::app::state::AppState;
use crate::app::view::{frame, selection_valid};
use crate::text::{append, decimal, decimal_chars, from_chars, slice, to_chars};
use crate::ui::theme::{color_sequence, rgb_of, Theme};
use crate::ui::viewmodel::{
    DisplayItem, DisplayItemView, EmptyState, FooterInfo, HeaderInfo, SearchBarInfo, UIViewModel,
    UIViewModelView,
};
use vstd::prelude::*;
use vstd::string::StringExecFns;
use vstd::utf8::encode_utf8;

verus! {

/// Columns of the name and its margin.
pub const NAME_COLUMN: usize = 37;

/// Columns that a name takes at most.
pub const NAME_WIDTH: usize = 35;

/// Columns between the edge of the terminal and the search box.
pub const SEARCH_BOX_MARGIN: usize = 5;

/// The row of the message of an empty state, and the row of its subtitle
/// below.
pub const EMPTY_STATE_ROW: usize = 6;

/// The width of a text: its length in bytes of UTF-8.
pub open spec fn width(text: Seq<char>) -> usize {
    encode_utf8(text).len() as usize
}

/// `a - b`, or 0 where that would be negative.
pub open spec fn less(a: int, b: int) -> nat {
    if a >= b {
        (a - b) as nat
    } else {
        0
    }
}

/// `count` spaces.
pub open spec fn spaces(count: nat) -> Seq<char> {
    Seq::new(count, |k: int| ' ')
}

/// A horizontal line of `count` columns.
pub open spec fn line(count: nat) -> Seq<char> {
    Seq::new(count, |k: int| '─')
}

/// The sequence that moves the cursor to a row and a column, both counted
/// from 1.
pub open spec fn cursor_to(row: usize, col: usize) -> Seq<char> {
    "\u{1b}["@ + decimal(row as nat) + ";"@ + decimal(col as nat) + "H"@
}

/// The sequence that sets the foreground to a color.
pub open spec fn fg(hex: Seq<char>) -> Seq<char> {
    color_sequence("38"@, rgb_of(hex))
}

/// The sequence that sets the background to a color.
pub open spec fn bg(hex: Seq<char>) -> Seq<char> {
    color_sequence("48"@, rgb_of(hex))
}

/// The sequence for bold text.
pub open spec fn bold() -> Seq<char> {
    "\u{1b}[1m"@
}

/// The sequence for dim text.
pub open spec fn dim() -> Seq<char> {
    "\u{1b}[2m"@
}

/// The sequence that ends all styling.
pub open spec fn reset() -> Seq<char> {
    "\u{1b}[0m"@
}

/// `text` in the middle of `cols` columns, as far as `shown` columns of it
/// count: half of the columns that are left go before it, the rest after.
pub open spec fn centered(text: Seq<char>, shown: usize, cols: usize) -> Seq<char> {
    let padding = less(cols as int, shown as int) / 2;
    spaces(padding) + text + spaces(less(cols as int, padding + shown))
}

/// The row `offset` rows below `row`, at most the last row there is.
pub open spec fn row_below(row: usize, offset: usize) -> usize {
    if row + offset <= usize::MAX {
        (row + offset) as usize
    } else {
        usize::MAX
    }
}

/// The header line: the title, bold and centered, in the header colors.
pub open spec fn header_line(row: usize, title: Seq<char>, theme: Theme, cols: usize) -> Seq<
    char,
> {
    cursor_to(row, 1) + bold() + fg(theme.colors.header_fg@) + match theme.colors.header_bg {
        Some(color) => bg(color@),
        None => Seq::empty(),
    } + centered(title, width(title), cols) + reset()
}

/// A line across the terminal in a color.
pub open spec fn border_line(row: usize, color: Seq<char>, cols: usize) -> Seq<char> {
    cursor_to(row, 1) + fg(color) + line(cols as nat) + reset()
}

/// The line with the names of the columns.
pub open spec fn table_header_line(row: usize, theme: Theme) -> Seq<char> {
    cursor_to(row, 1) + bold() + fg(theme.colors.header_fg@) + "NAME"@ + spaces(
        less(NAME_COLUMN as int, 4),
    ) + " PATH"@ + reset()
}

/// The footer line: the key bindings, centered and dim. Of key bindings
/// that are wider than the terminal only the width of the terminal counts
/// for the centering.
pub open spec fn footer_line(row: usize, keybindings: Seq<char>, theme: Theme, cols: usize) -> Seq<
    char,
> {
    let shown = if width(keybindings) <= cols {
        width(keybindings)
    } else {
        cols
    };
    cursor_to(row, 1) + fg(theme.colors.text_dim@) + centered(keybindings, shown, cols) + reset()
}

/// The text in the search box: a label and the query.
pub open spec fn search_text(query: Seq<char>) -> Seq<char> {
    " Search: "@ + query
}

/// The columns inside the search box.
pub open spec fn search_box_inner(cols: usize) -> nat {
    less(less(cols as int, 2 * SEARCH_BOX_MARGIN) as int, 2)
}

/// The search box: three lines from `row` on, the query in the middle one.
pub open spec fn search_box(row: usize, query: Seq<char>, theme: Theme, cols: usize) -> Seq<char> {
    let border = fg(theme.colors.search_bar_border@);
    let inner = search_box_inner(cols);
    cursor_to(row, 1) + spaces(SEARCH_BOX_MARGIN as nat) + border + "┌"@ + line(inner) + "┐"@
        + reset() + cursor_to(row_below(row, 1), 1) + spaces(SEARCH_BOX_MARGIN as nat) + border
        + "│"@ + fg(theme.colors.text_normal@) + search_text(query) + spaces(
        less(inner as int, width(search_text(query)) as int),
    ) + border + "│"@ + reset() + cursor_to(row_below(row, 2), 1) + spaces(
        SEARCH_BOX_MARGIN as nat,
    ) + border + "└"@ + line(inner) + "┘"@ + reset()
}

/// The two lines of an empty state: the message, centered, and below it
/// the subtitle, centered and dim.
pub open spec fn empty_state_lines(
    message: Seq<char>,
    subtitle: Seq<char>,
    theme: Theme,
    cols: usize,
) -> Seq<char> {
    cursor_to(EMPTY_STATE_ROW, 1) + fg(theme.colors.empty_state_fg@) + centered(
        message,
        width(message),
        cols,
    ) + reset() + cursor_to(row_below(EMPTY_STATE_ROW, 1), 1) + dim() + fg(
        theme.colors.text_dim@,
    ) + centered(subtitle, width(subtitle), cols) + reset()
}

/// Whether every range begins within the text and does not end before it
/// begins.
pub open spec fn ranges_fit(len: nat, ranges: Seq<(usize, usize)>) -> bool {
    forall|k: int|
        0 <= k < ranges.len() ==> (#[trigger] ranges[k]).0 <= ranges[k].1 && ranges[k].0 <= len
}

/// The end of a range within a text of `len` characters.
pub open spec fn clipped(end: usize, len: nat) -> int {
    if end <= len {
        end as int
    } else {
        len as int
    }
}

/// The text from `position` on with the ranges highlighted: what lies
/// before a range in the normal color, the range in the highlight colors,
/// and what follows the last range in the normal color again.
pub open spec fn highlighted_from(
    chars: Seq<char>,
    ranges: Seq<(usize, usize)>,
    position: int,
    theme: Theme,
) -> Seq<char>
    decreases ranges.len(),
{
    if ranges.len() == 0 {
        if 0 <= position < chars.len() {
            chars.skip(position)
        } else {
            Seq::empty()
        }
    } else {
        let start = ranges[0].0 as int;
        let plain = if position < start {
            chars.subrange(position, start)
        } else {
            Seq::empty()
        };
        plain + fg(theme.colors.match_highlight_fg@) + bg(theme.colors.match_highlight_bg@)
            + chars.subrange(start, clipped(ranges[0].1, chars.len())) + reset()
            + highlighted_from(chars, ranges.skip(1), ranges[0].1 as int, theme)
    }
}

/// A name with its matches highlighted. The selected row shows the name
/// plainly, and so does a name that the ranges do not fit.
pub open spec fn highlighted(
    text: Seq<char>,
    ranges: Seq<(usize, usize)>,
    theme: Theme,
    is_selected: bool,
) -> Seq<char> {
    if ranges.len() == 0 || is_selected || !ranges_fit(text.len(), ranges) {
        text
    } else {
        highlighted_from(text, ranges, 0, theme)
    }
}

/// The color of a row: the selection colors for the selected row, the
/// normal color for another.
pub open spec fn row_color(is_selected: bool, theme: Theme) -> Seq<char> {
    if is_selected {
        fg(theme.colors.selection_fg@)
    } else {
        fg(theme.colors.text_normal@)
    }
}

/// The columns that the name of a row takes: its width up to
/// [`NAME_WIDTH`], and two more for the mark of the current session.
pub open spec fn name_columns(name: Seq<char>, is_current_session: bool) -> int {
    (if width(name) <= NAME_WIDTH {
        width(name) as int
    } else {
        NAME_WIDTH as int
    }) + (if is_current_session {
        2int
    } else {
        0int
    })
}

/// One row of the list: the mark of the current session, the name, and
/// the path from column [`NAME_COLUMN`] on, padded to the width of the
/// terminal.
pub open spec fn table_row_line(
    row: usize,
    name: Seq<char>,
    path: Seq<char>,
    is_selected: bool,
    is_current_session: bool,
    ranges: Seq<(usize, usize)>,
    theme: Theme,
    cols: usize,
) -> Seq<char> {
    cursor_to(row, 1) + row_color(is_selected, theme) + (if is_selected {
        bg(theme.colors.selection_bg@)
    } else {
        Seq::empty()
    }) + (if is_current_session {
        fg(theme.colors.active_session_fg@) + "* "@ + row_color(is_selected, theme)
    } else {
        Seq::empty()
    }) + highlighted(name, ranges, theme, is_selected) + spaces(
        less(NAME_COLUMN as int, name_columns(name, is_current_session)),
    ) + path + spaces(less(cols as int, NAME_COLUMN + width(path))) + reset()
}

/// The row of an item.
pub open spec fn item_line(row: usize, item: DisplayItemView, theme: Theme, cols: usize) -> Seq<
    char,
> {
    table_row_line(
        row,
        item.name,
        item.path,
        item.is_selected,
        item.is_current_session,
        item.highlight_ranges,
        theme,
        cols,
    )
}

/// The rows of the first `count` items, one below the other from `row` on.
pub open spec fn table_rows(
    row: usize,
    items: Seq<DisplayItemView>,
    count: int,
    theme: Theme,
    cols: usize,
) -> Seq<char>
    decreases count,
{
    if count <= 0 {
        Seq::empty()
    } else {
        table_rows(row, items, count - 1, theme, cols) + item_line(
            row_below(row, (count - 1) as usize),
            items[count - 1],
            theme,
            cols,
        )
    }
}

/// The two lines at the bottom of a terminal of `rows` rows: a border, and
/// below it the footer.
pub open spec fn bottom_lines(keybindings: Seq<char>, theme: Theme, cols: usize, rows: usize) -> Seq<
    char,
> {
    border_line(less(rows as int, 2) as usize, theme.colors.border@, cols) + footer_line(
        less(rows as int, 1) as usize,
        keybindings,
        theme,
        cols,
    )
}

/// The frame in `Normal` mode: header, border, column names and rows from
/// the second row on, border and footer at the bottom.
pub open spec fn normal_frame(
    model: UIViewModelView,
    theme: Theme,
    cols: usize,
    rows: usize,
) -> Seq<char> {
    header_line(2, model.title, theme, cols) + border_line(3, theme.colors.border@, cols)
        + table_header_line(4, theme) + table_rows(
        5,
        model.display_items,
        model.display_items.len() as int,
        theme,
        cols,
    ) + bottom_lines(model.keybindings, theme, cols, rows)
}

/// The frame while searching: as in `Normal` mode, with the search box
/// between the border and the column names.
pub open spec fn search_frame(
    model: UIViewModelView,
    query: Seq<char>,
    theme: Theme,
    cols: usize,
    rows: usize,
) -> Seq<char> {
    header_line(2, model.title, theme, cols) + border_line(3, theme.colors.border@, cols)
        + search_box(4, query, theme, cols) + table_header_line(7, theme) + table_rows(
        8,
        model.display_items,
        model.display_items.len() as int,
        theme,
        cols,
    ) + bottom_lines(model.keybindings, theme, cols, rows)
}

/// The frame of a view model: the empty state if it has one, else the
/// frame with the search box if it has a search bar, else the frame of
/// `Normal` mode.
pub open spec fn frame_text(
    model: UIViewModelView,
    theme: Theme,
    rows: usize,
    cols: usize,
) -> Seq<char> {
    match model.empty_state {
        Some(empty) => empty_state_lines(empty.0, empty.1, theme, cols),
        None => match model.search_bar {
            Some(query) => search_frame(model, query, theme, cols, rows),
            None => normal_frame(model, theme, cols, rows),
        },
    }
}

fn push_text(out: &mut Vec<char>, text: &str)
    ensures
        final(out)@ == old(out)@ + text@,
{
    let chars = to_chars(text);
    append(out, &chars);
}

fn push_repeated(out: &mut Vec<char>, c: char, count: usize)
    ensures
        final(out)@ == old(out)@ + Seq::new(count as nat, |k: int| c),
{
    let mut i: usize = 0;
    assert(out@ =~= old(out)@ + Seq::new(0, |k: int| c));
    while i < count
        invariant
            i <= count,
            out@ == old(out)@ + Seq::new(i as nat, |k: int| c),
        decreases count - i,
    {
        out.push(c);
        i += 1;
        assert(out@ =~= old(out)@ + Seq::new(i as nat, |k: int| c));
    }
}

fn minus(a: usize, b: usize) -> (r: usize)
    ensures
        r == less(a as int, b as int),
{
    if a >= b {
        a - b
    } else {
        0
    }
}

/// `a - (b + c)`, or 0 where that would be negative.
fn minus_sum(a: usize, b: usize, c: usize) -> (r: usize)
    ensures
        r == less(a as int, b + c),
{
    if b > a {
        0
    } else if c > a - b {
        0
    } else {
        a - b - c
    }
}

fn below(row: usize, offset: usize) -> (r: usize)
    ensures
        r == row_below(row, offset),
{
    if offset <= usize::MAX - row {
        row + offset
    } else {
        usize::MAX
    }
}

fn push_centered(out: &mut Vec<char>, text: &str, shown: usize, cols: usize)
    ensures
        final(out)@ == old(out)@ + centered(text@, shown, cols),
{
    let padding = minus(cols, shown) / 2;
    push_repeated(out, ' ', padding);
    push_text(out, text);
    push_repeated(out, ' ', minus_sum(cols, padding, shown));
    assert(out@ =~= old(out)@ + centered(text@, shown, cols));
}

/// The sequence that moves the cursor to a row and a column, both counted
/// from 1.
pub fn position_cursor(row: usize, col: usize) -> (text: Vec<char>)
    ensures
        text@ == cursor_to(row, col),
{
    let mut out = to_chars("\u{1b}[");
    append(&mut out, &decimal_chars(row as u64));
    push_text(&mut out, ";");
    append(&mut out, &decimal_chars(col as u64));
    push_text(&mut out, "H");
    out
}

fn push_fg(out: &mut Vec<char>, hex: &String)
    ensures
        final(out)@ == old(out)@ + fg(hex@),
{
    let text = Theme::fg(hex.as_str());
    push_text(out, text.as_str());
}

fn push_bg(out: &mut Vec<char>, hex: &String)
    ensures
        final(out)@ == old(out)@ + bg(hex@),
{
    let text = Theme::bg(hex.as_str());
    push_text(out, text.as_str());
}

/// The header line.
pub fn render_header(row: usize, header: &HeaderInfo, theme: &Theme, cols: usize) -> (text: Vec<
    char,
>)
    ensures
        text@ == header_line(row, header.title@, *theme, cols),
{
    let mut out = position_cursor(row, 1);
    push_text(&mut out, Theme::bold());
    push_fg(&mut out, &theme.colors.header_fg);
    match &theme.colors.header_bg {
        Some(color) => {
            push_bg(&mut out, color);
        },
        None => {},
    }
    push_centered(&mut out, header.title.as_str(), header.title.as_str().len(), cols);
    push_text(&mut out, Theme::reset());
    assert(out@ =~= header_line(row, header.title@, *theme, cols));
    out
}

/// A line across the terminal.
pub fn render_border(row: usize, color: &String, cols: usize) -> (text: Vec<char>)
    ensures
        text@ == border_line(row, color@, cols),
{
    let mut out = position_cursor(row, 1);
    push_fg(&mut out, color);
    push_repeated(&mut out, '─', cols);
    push_text(&mut out, Theme::reset());
    out
}

/// The line with the names of the columns.
pub fn render_table_headers(row: usize, theme: &Theme) -> (text: Vec<char>)
    ensures
        text@ == table_header_line(row, *theme),
{
    let mut out = position_cursor(row, 1);
    push_text(&mut out, Theme::bold());
    push_fg(&mut out, &theme.colors.header_fg);
    push_text(&mut out, "NAME");
    push_repeated(&mut out, ' ', minus(NAME_COLUMN, 4));
    push_text(&mut out, " PATH");
    push_text(&mut out, Theme::reset());
    out
}

/// The footer line.
pub fn render_footer(row: usize, footer: &FooterInfo, theme: &Theme, cols: usize) -> (text: Vec<
    char,
>)
    ensures
        text@ == footer_line(row, footer.keybindings@, *theme, cols),
{
    let help = footer.keybindings.as_str();
    let shown = if help.len() <= cols {
        help.len()
    } else {
        cols
    };
    let mut out = position_cursor(row, 1);
    push_fg(&mut out, &theme.colors.text_dim);
    push_centered(&mut out, help, shown, cols);
    push_text(&mut out, Theme::reset());
    assert(out@ =~= footer_line(row, footer.keybindings@, *theme, cols));
    out
}

/// The search box.
pub fn render_search_bar(row: usize, search: &SearchBarInfo, theme: &Theme, cols: usize) -> (text:
    Vec<char>)
    ensures
        text@ == search_box(row, search.query@, *theme, cols),
{
    let inner = minus(minus(cols, 2 * SEARCH_BOX_MARGIN), 2);
    let label = String::from_str(" Search: ").concat(search.query.as_str());
    let border = &theme.colors.search_bar_border;

    let mut out = position_cursor(row, 1);
    push_repeated(&mut out, ' ', SEARCH_BOX_MARGIN);
    push_fg(&mut out, border);
    push_text(&mut out, "┌");
    push_repeated(&mut out, '─', inner);
    push_text(&mut out, "┐");
    push_text(&mut out, Theme::reset());

    append(&mut out, &position_cursor(below(row, 1), 1));
    push_repeated(&mut out, ' ', SEARCH_BOX_MARGIN);
    push_fg(&mut out, border);
    push_text(&mut out, "│");
    push_fg(&mut out, &theme.colors.text_normal);
    push_text(&mut out, label.as_str());
    push_repeated(&mut out, ' ', minus(inner, label.as_str().len()));
    push_fg(&mut out, border);
    push_text(&mut out, "│");
    push_text(&mut out, Theme::reset());

    append(&mut out, &position_cursor(below(row, 2), 1));
    push_repeated(&mut out, ' ', SEARCH_BOX_MARGIN);
    push_fg(&mut out, border);
    push_text(&mut out, "└");
    push_repeated(&mut out, '─', inner);
    push_text(&mut out, "┘");
    push_text(&mut out, Theme::reset());
    assert(out@ =~= search_box(row, search.query@, *theme, cols));
    out
}

/// The lines of an empty state.
pub fn render_empty_state(empty: &EmptyState, theme: &Theme, cols: usize) -> (text: Vec<char>)
    ensures
        text@ == empty_state_lines(empty.message@, empty.subtitle@, *theme, cols),
{
    let mut out = position_cursor(EMPTY_STATE_ROW, 1);
    push_fg(&mut out, &theme.colors.empty_state_fg);
    push_centered(&mut out, empty.message.as_str(), empty.message.as_str().len(), cols);
    push_text(&mut out, Theme::reset());
    append(&mut out, &position_cursor(below(EMPTY_STATE_ROW, 1), 1));
    push_text(&mut out, Theme::dim());
    push_fg(&mut out, &theme.colors.text_dim);
    push_centered(&mut out, empty.subtitle.as_str(), empty.subtitle.as_str().len(), cols);
    push_text(&mut out, Theme::reset());
    assert(out@ =~= empty_state_lines(empty.message@, empty.subtitle@, *theme, cols));
    out
}

fn fit(len: usize, ranges: &Vec<(usize, usize)>) -> (fit: bool)
    ensures
        fit == ranges_fit(len as nat, ranges@),
{
    let mut i: usize = 0;
    while i < ranges.len()
        invariant
            i <= ranges.len(),
            forall|k: int|
                0 <= k < i ==> (#[trigger] ranges@[k]).0 <= ranges@[k].1 && ranges@[k].0 <= len,
        decreases ranges.len() - i,
    {
        if ranges[i].0 > ranges[i].1 || ranges[i].0 > len {
            return false;
        }
        i += 1;
    }
    true
}

/// The name with its matches highlighted.
pub fn render_highlighted_text(
    text: &str,
    ranges: &Vec<(usize, usize)>,
    theme: &Theme,
    is_selected: bool,
) -> (shown: Vec<char>)
    ensures
        shown@ == highlighted(text@, ranges@, *theme, is_selected),
{
    let chars = to_chars(text);
    if ranges.len() == 0 || is_selected || !fit(chars.len(), ranges) {
        return chars;
    }
    let mut out: Vec<char> = Vec::new();
    let mut position: usize = 0;
    let mut i: usize = 0;
    assert(ranges@.skip(0) =~= ranges@);
    assert(out@ + highlighted_from(chars@, ranges@, 0, *theme) =~= highlighted_from(
        chars@,
        ranges@,
        0,
        *theme,
    ));
    while i < ranges.len()
        invariant
            i <= ranges.len(),
            ranges_fit(chars.len() as nat, ranges@),
            highlighted_from(chars@, ranges@, 0, *theme) == out@ + highlighted_from(
                chars@,
                ranges@.skip(i as int),
                position as int,
                *theme,
            ),
        decreases ranges.len() - i,
    {
        let ghost before = out@;
        let ghost rest = ranges@.skip(i as int);
        let (start, end) = ranges[i];
        assert(rest[0] == ranges@[i as int]);
        assert(rest.skip(1) =~= ranges@.skip(i + 1));
        if start > position {
            append(&mut out, &slice(&chars, position, start));
        }
        push_fg(&mut out, &theme.colors.match_highlight_fg);
        push_bg(&mut out, &theme.colors.match_highlight_bg);
        let stop = if end <= chars.len() {
            end
        } else {
            chars.len()
        };
        append(&mut out, &slice(&chars, start, stop));
        push_text(&mut out, Theme::reset());
        assert(out@ + highlighted_from(chars@, ranges@.skip(i + 1), end as int, *theme)
            =~= before + highlighted_from(chars@, rest, position as int, *theme));
        position = end;
        i += 1;
    }
    if position < chars.len() {
        append(&mut out, &slice(&chars, position, chars.len()));
        assert(chars@.skip(position as int) =~= chars@.subrange(
            position as int,
            chars@.len() as int,
        ));
    }
    assert(out@ =~= highlighted_from(chars@, ranges@, 0, *theme));
    out
}

fn push_row_color(out: &mut Vec<char>, is_selected: bool, theme: &Theme)
    ensures
        final(out)@ == old(out)@ + row_color(is_selected, *theme),
{
    if is_selected {
        push_fg(out, &theme.colors.selection_fg);
    } else {
        push_fg(out, &theme.colors.text_normal);
    }
}

/// One row of the list.
pub fn render_table_row(row: usize, item: &DisplayItem, theme: &Theme, cols: usize) -> (text: Vec<
    char,
>)
    ensures
        text@ == item_line(row, item@, *theme, cols),
{
    let mut out = position_cursor(row, 1);
    push_row_color(&mut out, item.is_selected, theme);
    if item.is_selected {
        push_bg(&mut out, &theme.colors.selection_bg);
    }
    if item.is_current_session {
        let ghost before = out@;
        push_fg(&mut out, &theme.colors.active_session_fg);
        push_text(&mut out, "* ");
        push_row_color(&mut out, item.is_selected, theme);
        assert(out@ =~= before + (fg(theme.colors.active_session_fg@) + "* "@ + row_color(
            item.is_selected,
            *theme,
        )));
    }
    let name = render_highlighted_text(
        item.name.as_str(),
        &item.highlight_ranges,
        theme,
        item.is_selected,
    );
    append(&mut out, &name);
    let name_width = item.name.as_str().len();
    let shown = if name_width <= NAME_WIDTH {
        name_width
    } else {
        NAME_WIDTH
    };
    let taken = if item.is_current_session {
        shown + 2
    } else {
        shown
    };
    push_repeated(&mut out, ' ', minus(NAME_COLUMN, taken));
    push_text(&mut out, item.path.as_str());
    push_repeated(&mut out, ' ', minus_sum(cols, NAME_COLUMN, item.path.as_str().len()));
    push_text(&mut out, Theme::reset());
    assert(out@ =~= item_line(row, item@, *theme, cols));
    out
}

/// The rows of the list, one below the other from `row` on.
pub fn render_table_rows(row: usize, items: &Vec<DisplayItem>, theme: &Theme, cols: usize) -> (text:
    Vec<char>)
    ensures
        text@ == table_rows(row, items.deep_view(), items.len() as int, *theme, cols),
{
    let mut out: Vec<char> = Vec::new();
    let mut i: usize = 0;
    while i < items.len()
        invariant
            i <= items.len(),
            out@ == table_rows(row, items.deep_view(), i as int, *theme, cols),
        decreases items.len() - i,
    {
        assert(items.deep_view()[i as int] == items[i as int]@);
        let line = render_table_row(below(row, i), &items[i], theme, cols);
        append(&mut out, &line);
        i += 1;
    }
    out
}

fn render_bottom(footer: &FooterInfo, theme: &Theme, cols: usize, rows: usize) -> (text: Vec<char>)
    ensures
        text@ == bottom_lines(footer.keybindings@, *theme, cols, rows),
{
    let footer_start = minus(rows, 1);
    let border_row = minus(footer_start, 1);
    let mut out = render_border(border_row, &theme.colors.border, cols);
    append(&mut out, &render_footer(footer_start, footer, theme, cols));
    out
}

/// The frame in `Normal` mode.
pub fn render_normal_mode(vm: &UIViewModel, theme: &Theme, cols: usize, rows: usize) -> (text:
    String)
    ensures
        text@ == normal_frame(vm@, *theme, cols, rows),
{
    assert(vm.display_items.deep_view().len() == vm.display_items.len());
    let mut out = render_header(2, &vm.header, theme, cols);
    append(&mut out, &render_border(3, &theme.colors.border, cols));
    append(&mut out, &render_table_headers(4, theme));
    append(&mut out, &render_table_rows(5, &vm.display_items, theme, cols));
    append(&mut out, &render_bottom(&vm.footer, theme, cols, rows));
    from_chars(&out)
}

/// The frame while searching.
pub fn render_search_mode(
    vm: &UIViewModel,
    search: &SearchBarInfo,
    theme: &Theme,
    cols: usize,
    rows: usize,
) -> (text: String)
    ensures
        text@ == search_frame(vm@, search.query@, *theme, cols, rows),
{
    assert(vm.display_items.deep_view().len() == vm.display_items.len());
    let mut out = render_header(2, &vm.header, theme, cols);
    append(&mut out, &render_border(3, &theme.colors.border, cols));
    append(&mut out, &render_search_bar(4, search, theme, cols));
    append(&mut out, &render_table_headers(7, theme));
    append(&mut out, &render_table_rows(8, &vm.display_items, theme, cols));
    append(&mut out, &render_bottom(&vm.footer, theme, cols, rows));
    from_chars(&out)
}

/// The frame of a view model.
pub fn render_viewmodel(vm: &UIViewModel, theme: &Theme, rows: usize, cols: usize) -> (text: String)
    ensures
        text@ == frame_text(vm@, *theme, rows, cols),
{
    match &vm.empty_state {
        Some(empty) => from_chars(&render_empty_state(empty, theme, cols)),
        None => match &vm.search_bar {
            Some(search) => render_search_mode(vm, search, theme, cols, rows),
            None => render_normal_mode(vm, theme, cols, rows),
        },
    }
}

/// The frame of a state for a terminal of `rows` rows and `cols` columns,
/// as text: the frame of its view model in its theme.
pub fn render(state: &AppState, rows: usize, cols: usize) -> (text: String)
    requires
        selection_valid(state@),
    ensures
        text@ == frame_text(frame(state@, rows, cols), state.theme, rows, cols),
{
    let viewmodel = state.compute_viewmodel(rows, cols);
    render_viewmodel(&viewmodel, &state.theme, rows, cols)
}

} // verus!
