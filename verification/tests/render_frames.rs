use zessionizer::ui::render::{
    position_cursor, render_border, render_empty_state, render_footer, render_header,
    render_highlighted_text, render_normal_mode, render_search_bar, render_search_mode,
    render_table_headers, render_table_row, render_table_rows, render_viewmodel,
};
use zessionizer::ui::{
    render, DisplayItem, EmptyState, FooterInfo, HeaderInfo, SearchBarInfo, Theme, ThemeColors,
    UIViewModel,
};
use zessionizer::{handle_event, AppState, Event, Project, ViewMode};

fn theme(header_bg: Option<&str>) -> Theme {
    Theme {
        name: "plain".to_string(),
        colors: ThemeColors {
            header_fg: "#010203".to_string(),
            header_bg: header_bg.map(str::to_string),
            selection_fg: "#040506".to_string(),
            selection_bg: "#070809".to_string(),
            text_normal: "#0a0b0c".to_string(),
            text_dim: "#0d0e0f".to_string(),
            border: "#101112".to_string(),
            search_bar_border: "#131415".to_string(),
            match_highlight_fg: "#161718".to_string(),
            match_highlight_bg: "#191a1b".to_string(),
            empty_state_fg: "#1c1d1e".to_string(),
            active_session_fg: "#1f2021".to_string(),
        },
    }
}

fn text(chars: Vec<char>) -> String {
    chars.into_iter().collect()
}

fn at(row: usize, col: usize) -> String {
    format!("\u{1b}[{row};{col}H")
}

const BOLD: &str = "\u{1b}[1m";
const DIM: &str = "\u{1b}[2m";
const RESET: &str = "\u{1b}[0m";

fn expected_header(row: usize, title: &str, theme: &Theme, cols: usize) -> String {
    let title_len = title.len();
    let padding = (cols.saturating_sub(title_len)) / 2;
    let mut out = String::new();
    out += &at(row, 1);
    out += BOLD;
    out += &Theme::fg(&theme.colors.header_fg);
    if let Some(bg) = &theme.colors.header_bg {
        out += &Theme::bg(bg);
    }
    out += &" ".repeat(padding);
    out += title;
    out += &" ".repeat(cols.saturating_sub(padding + title_len));
    out += RESET;
    out
}

fn expected_border(row: usize, color: &str, cols: usize) -> String {
    format!("{}{}{}{}", at(row, 1), Theme::fg(color), "─".repeat(cols), RESET)
}

fn expected_table_headers(row: usize, theme: &Theme) -> String {
    format!(
        "{}{}{}{:<37} {:<}{}",
        at(row, 1),
        BOLD,
        Theme::fg(&theme.colors.header_fg),
        "NAME",
        "PATH",
        RESET
    )
}

fn expected_footer(row: usize, help: &str, theme: &Theme, cols: usize) -> String {
    let text_len = help.len().min(cols);
    let padding = (cols.saturating_sub(text_len)) / 2;
    format!(
        "{}{}{}{}{}{}",
        at(row, 1),
        Theme::fg(&theme.colors.text_dim),
        " ".repeat(padding),
        help,
        " ".repeat(cols.saturating_sub(padding + text_len)),
        RESET
    )
}

fn expected_search_bar(row: usize, query: &str, theme: &Theme, cols: usize) -> String {
    let box_width = cols.saturating_sub(10);
    let inner_width = box_width.saturating_sub(2);
    let border = Theme::fg(&theme.colors.search_bar_border);
    let search_text = format!(" Search: {query}");
    let padding = inner_width.saturating_sub(search_text.len());
    let mut out = String::new();
    out += &format!("{}{}{}┌{}┐{}", at(row, 1), " ".repeat(5), border, "─".repeat(inner_width), RESET);
    out += &format!(
        "{}{}{}│{}{}{}{}│{}",
        at(row + 1, 1),
        " ".repeat(5),
        border,
        Theme::fg(&theme.colors.text_normal),
        search_text,
        " ".repeat(padding),
        border,
        RESET
    );
    out += &format!("{}{}{}└{}┘{}", at(row + 2, 1), " ".repeat(5), border, "─".repeat(inner_width), RESET);
    out
}

fn expected_highlighted(name: &str, ranges: &[(usize, usize)], theme: &Theme, selected: bool) -> String {
    if ranges.is_empty() || selected {
        return name.to_string();
    }
    let chars: Vec<char> = name.chars().collect();
    let mut out = String::new();
    let mut current_pos = 0;
    for &(start, end) in ranges {
        if start > current_pos {
            out += &chars[current_pos..start].iter().collect::<String>();
        }
        out += &Theme::fg(&theme.colors.match_highlight_fg);
        out += &Theme::bg(&theme.colors.match_highlight_bg);
        out += &chars[start..end.min(chars.len())].iter().collect::<String>();
        out += RESET;
        current_pos = end;
    }
    if current_pos < chars.len() {
        out += &chars[current_pos..].iter().collect::<String>();
    }
    out
}

fn expected_row(row: usize, item: &DisplayItem, theme: &Theme, cols: usize) -> String {
    let mut out = at(row, 1);
    if item.is_selected {
        out += &Theme::fg(&theme.colors.selection_fg);
        out += &Theme::bg(&theme.colors.selection_bg);
    } else {
        out += &Theme::fg(&theme.colors.text_normal);
    }
    if item.is_current_session {
        out += &Theme::fg(&theme.colors.active_session_fg);
        out += "* ";
        if item.is_selected {
            out += &Theme::fg(&theme.colors.selection_fg);
        } else {
            out += &Theme::fg(&theme.colors.text_normal);
        }
    }
    out += &expected_highlighted(&item.name, &item.highlight_ranges, theme, item.is_selected);
    let indicator_len = if item.is_current_session { 2 } else { 0 };
    let name_visual_len = item.name.len().min(35) + indicator_len;
    out += &" ".repeat(37_usize.saturating_sub(name_visual_len));
    out += &item.path;
    out += &" ".repeat(cols.saturating_sub(37 + item.path.len()));
    out += RESET;
    out
}

fn expected_frame(vm: &UIViewModel, theme: &Theme, cols: usize, rows: usize) -> String {
    let mut out = String::new();
    let mut row = 2;
    out += &expected_header(row, &vm.header.title, theme, cols);
    row += 1;
    out += &expected_border(row, &theme.colors.border, cols);
    row += 1;
    if let Some(search) = &vm.search_bar {
        out += &expected_search_bar(row, &search.query, theme, cols);
        row += 3;
    }
    out += &expected_table_headers(row, theme);
    row += 1;
    for item in &vm.display_items {
        out += &expected_row(row, item, theme, cols);
        row += 1;
    }
    let footer_start = rows.saturating_sub(1);
    let border_row = footer_start.saturating_sub(1);
    out += &expected_border(border_row, &theme.colors.border, cols);
    out += &expected_footer(footer_start, &vm.footer.keybindings, theme, cols);
    out
}

fn item(name: &str, path: &str, selected: bool, current: bool, ranges: Vec<(usize, usize)>) -> DisplayItem {
    DisplayItem {
        name: name.to_string(),
        path: path.to_string(),
        is_selected: selected,
        is_current_session: current,
        highlight_ranges: ranges,
    }
}

fn model(items: Vec<DisplayItem>, search: Option<&str>) -> UIViewModel {
    UIViewModel {
        display_items: items,
        selected_index: 0,
        header: HeaderInfo { title: " All Projects (3) ".to_string() },
        footer: FooterInfo { keybindings: "q: quit".to_string() },
        empty_state: None,
        search_bar: search.map(|query| SearchBarInfo { query: query.to_string() }),
    }
}

#[test]
fn cursor_sequence() {
    assert_eq!(text(position_cursor(1, 1)), "\u{1b}[1;1H");
    assert_eq!(text(position_cursor(24, 80)), "\u{1b}[24;80H");
    assert_eq!(text(position_cursor(0, 12345)), "\u{1b}[0;12345H");
}

#[test]
fn header_is_centered_with_optional_background() {
    let header = HeaderInfo { title: " Active Sessions (2) ".to_string() };
    for cols in [0, 1, 20, 21, 22, 40, 41] {
        for bg in [None, Some("#202122")] {
            let theme = theme(bg);
            assert_eq!(
                text(render_header(2, &header, &theme, cols)),
                expected_header(2, &header.title, &theme, cols)
            );
        }
    }
    assert_eq!(
        text(render_header(2, &HeaderInfo { title: "ab".to_string() }, &theme(None), 7)),
        "\u{1b}[2;1H\u{1b}[1m\u{1b}[38;2;1;2;3m  ab   \u{1b}[0m"
    );
}

#[test]
fn header_width_counts_bytes() {
    let header = HeaderInfo { title: "é".to_string() };
    assert_eq!(
        text(render_header(1, &header, &theme(None), 6)),
        "\u{1b}[1;1H\u{1b}[1m\u{1b}[38;2;1;2;3m  é  \u{1b}[0m"
    );
}

#[test]
fn border_spans_the_terminal() {
    assert_eq!(
        text(render_border(3, &"#101112".to_string(), 4)),
        "\u{1b}[3;1H\u{1b}[38;2;16;17;18m────\u{1b}[0m"
    );
    assert_eq!(text(render_border(3, &"x".to_string(), 0)), expected_border(3, "x", 0));
}

#[test]
fn table_headers_are_padded_to_the_name_column() {
    let theme = theme(None);
    assert_eq!(text(render_table_headers(4, &theme)), expected_table_headers(4, &theme));
    assert_eq!(
        text(render_table_headers(4, &theme)),
        format!("\u{1b}[4;1H\u{1b}[1m\u{1b}[38;2;1;2;3mNAME{} PATH\u{1b}[0m", " ".repeat(33))
    );
}

#[test]
fn footer_is_centered_and_clipped_for_centering() {
    let theme = theme(None);
    let footer = FooterInfo { keybindings: "j/k: navigate  q: quit".to_string() };
    for cols in [0, 5, 22, 23, 80] {
        assert_eq!(
            text(render_footer(23, &footer, &theme, cols)),
            expected_footer(23, &footer.keybindings, &theme, cols)
        );
    }
}

#[test]
fn search_bar_is_a_box_of_three_lines() {
    let theme = theme(None);
    for cols in [0, 10, 12, 13, 30, 80] {
        for query in ["", "web", "a much longer query than fits"] {
            let search = SearchBarInfo { query: query.to_string() };
            assert_eq!(
                text(render_search_bar(4, &search, &theme, cols)),
                expected_search_bar(4, query, &theme, cols)
            );
        }
    }
}

#[test]
fn empty_state_has_message_and_subtitle() {
    let theme = theme(None);
    let empty = EmptyState { message: "No projects".to_string(), subtitle: "scan".to_string() };
    assert_eq!(
        text(render_empty_state(&empty, &theme, 15)),
        "\u{1b}[6;1H\u{1b}[38;2;28;29;30m  No projects  \u{1b}[0m\
         \u{1b}[7;1H\u{1b}[2m\u{1b}[38;2;13;14;15m     scan      \u{1b}[0m"
    );
}

#[test]
fn highlights_wrap_matched_ranges() {
    let theme = theme(None);
    let cases: [(&str, Vec<(usize, usize)>); 6] = [
        ("web-api", vec![(0, 2), (4, 5)]),
        ("web-api", vec![(0, 7)]),
        ("web-api", vec![(6, 7)]),
        ("web-api", vec![(2, 3), (3, 4), (4, 9)]),
        ("héllo", vec![(1, 2)]),
        ("abc", vec![(3, 5)]),
    ];
    for (name, ranges) in cases {
        assert_eq!(
            text(render_highlighted_text(name, &ranges, &theme, false)),
            expected_highlighted(name, &ranges, &theme, false),
            "{name} {ranges:?}"
        );
        assert_eq!(text(render_highlighted_text(name, &ranges, &theme, true)), name);
    }
    assert_eq!(
        text(render_highlighted_text("web", &vec![(1, 2)], &theme, false)),
        "w\u{1b}[38;2;22;23;24m\u{1b}[48;2;25;26;27me\u{1b}[0mb"
    );
    assert_eq!(text(render_highlighted_text("web", &vec![], &theme, false)), "web");
}

#[test]
fn ranges_that_do_not_fit_leave_the_name_plain() {
    let theme = theme(None);
    assert_eq!(text(render_highlighted_text("abc", &vec![(4, 5)], &theme, false)), "abc");
    assert_eq!(text(render_highlighted_text("abc", &vec![(2, 1)], &theme, false)), "abc");
    assert_eq!(text(render_highlighted_text("abc", &vec![(0, 1), (9, 9)], &theme, false)), "abc");
}

#[test]
fn rows_show_selection_session_and_path() {
    let theme = theme(None);
    let long = "a-name-that-is-longer-than-the-name-column";
    let items = vec![
        item("proj", "/home/u/proj", false, false, vec![]),
        item("proj", "/home/u/proj", true, false, vec![]),
        item("proj", "/home/u/proj", false, true, vec![(0, 2)]),
        item("proj", "/home/u/proj", true, true, vec![(0, 2)]),
        item(long, "", false, true, vec![]),
        item("", "/a/path/that/is/longer/than/the/terminal/is/wide", false, false, vec![]),
    ];
    for cols in [0, 37, 49, 50, 80] {
        for item in &items {
            assert_eq!(
                text(render_table_row(5, item, &theme, cols)),
                expected_row(5, item, &theme, cols)
            );
        }
    }
    let mut all = String::new();
    for (k, item) in items.iter().enumerate() {
        all += &expected_row(8 + k, item, &theme, 60);
    }
    assert_eq!(text(render_table_rows(8, &items, &theme, 60)), all);
    assert_eq!(text(render_table_rows(8, &vec![], &theme, 60)), "");
}

#[test]
fn frames_in_both_modes() {
    let theme = theme(Some("#000000"));
    let items = vec![
        item("alpha", "/p/alpha", true, false, vec![]),
        item("beta", "/p/beta", false, true, vec![(1, 3)]),
    ];
    for (cols, rows) in [(80, 24), (20, 5), (0, 0), (38, 1)] {
        let normal = model(vec![items[0].clone_for_test(), items[1].clone_for_test()], None);
        assert_eq!(
            render_normal_mode(&normal, &theme, cols, rows),
            expected_frame(&normal, &theme, cols, rows)
        );
        assert_eq!(
            render_viewmodel(&normal, &theme, rows, cols),
            expected_frame(&normal, &theme, cols, rows)
        );
        let search = model(vec![items[1].clone_for_test()], Some("et"));
        assert_eq!(
            render_search_mode(&search, search.search_bar.as_ref().unwrap(), &theme, cols, rows),
            expected_frame(&search, &theme, cols, rows)
        );
        assert_eq!(
            render_viewmodel(&search, &theme, rows, cols),
            expected_frame(&search, &theme, cols, rows)
        );
    }
}

trait CloneForTest {
    fn clone_for_test(&self) -> Self;
}

impl CloneForTest for DisplayItem {
    fn clone_for_test(&self) -> Self {
        item(
            &self.name,
            &self.path,
            self.is_selected,
            self.is_current_session,
            self.highlight_ranges.clone(),
        )
    }
}

#[test]
fn empty_state_replaces_the_frame() {
    let theme = theme(None);
    let mut vm = model(vec![], Some("q"));
    vm.empty_state =
        Some(EmptyState { message: "Nothing".to_string(), subtitle: "here".to_string() });
    assert_eq!(
        render_viewmodel(&vm, &theme, 24, 30),
        text(render_empty_state(vm.empty_state.as_ref().unwrap(), &theme, 30))
    );
}

#[test]
fn state_renders_as_the_frame_of_its_view_model() {
    let projects = vec![
        Project {
            id: None,
            path: "/p/web-api".to_string(),
            name: "web-api".to_string(),
            last_accessed: 1,
            created_at: 1,
            layout: None,
        },
        Project {
            id: None,
            path: "/p/tools".to_string(),
            name: "tools".to_string(),
            last_accessed: 1,
            created_at: 1,
            layout: None,
        },
    ];
    let mut state = AppState::new(projects, theme(None));
    state.view_mode = ViewMode::ProjectsWithoutSessions;
    state.apply_search_filter();
    let vm = state.compute_viewmodel(24, 80);
    assert_eq!(render(&state, 24, 80), expected_frame(&vm, &state.theme, 80, 24));
    handle_event(&mut state, &Event::SearchMode).unwrap();
    handle_event(&mut state, &Event::Char('w')).unwrap();
    handle_event(&mut state, &Event::Char('a')).unwrap();
    handle_event(&mut state, &Event::KeyDown).unwrap();
    let vm = state.compute_viewmodel(24, 80);
    assert_eq!(vm.display_items.len(), 1);
    assert_eq!(render(&state, 24, 80), expected_frame(&vm, &state.theme, 80, 24));
    assert!(render(&state, 24, 80).contains(" Search: wa"));
}
