use zessionizer::app::state::distinct;
use zessionizer::app::window::{coalesce_ranges, visible_window};
use zessionizer::app::{handle_event, AppState, Event, InputMode, SearchFocus, ViewMode};
use zessionizer::matcher::{fuzzy_matches, fuzzy_positions};
use zessionizer::ui::{Theme, ThemeColors};
use zessionizer::Project;

fn theme() -> Theme {
    Theme {
        name: "plain".to_string(),
        colors: ThemeColors {
            header_fg: "#ffffff".to_string(),
            header_bg: None,
            selection_fg: "#000000".to_string(),
            selection_bg: "#ffffff".to_string(),
            text_normal: "#cccccc".to_string(),
            text_dim: "#888888".to_string(),
            border: "#444444".to_string(),
            search_bar_border: "#444444".to_string(),
            match_highlight_fg: "#ff0000".to_string(),
            match_highlight_bg: "#000000".to_string(),
            empty_state_fg: "#888888".to_string(),
            active_session_fg: "#00ff00".to_string(),
        },
    }
}

fn project(path: &str, name: &str) -> Project {
    Project {
        id: None,
        path: path.to_string(),
        name: name.to_string(),
        last_accessed: 100,
        created_at: 50,
        layout: None,
    }
}

fn numbered(count: usize) -> Vec<Project> {
    (0..count).map(|i| project(&format!("/p/item{i}"), &format!("item{i}"))).collect()
}

fn all_projects_state(projects: Vec<Project>) -> AppState {
    let mut state = AppState::new(projects, theme());
    state.view_mode = ViewMode::ProjectsWithoutSessions;
    state.apply_search_filter();
    state
}

#[test]
fn new_state_starts_in_normal_sessions_view() {
    let state = AppState::new(numbered(2), theme());
    assert_eq!(state.projects.len(), 2);
    assert!(state.filtered_projects.is_empty());
    assert_eq!(state.selected_index, 0);
    assert_eq!(state.input_mode, InputMode::Normal);
    assert_eq!(state.view_mode, ViewMode::Sessions);
    assert_eq!(state.search_query, "");
    assert!(state.active_sessions.is_empty());
    assert_eq!(state.current_session, None);
    assert_eq!(state.theme, theme());
    assert!(state.selected_project().is_none());
}

#[test]
fn selection_wraps_in_both_directions() {
    let mut state = all_projects_state(numbered(3));
    assert_eq!(state.selected_index, 0);
    state.move_selection_up();
    assert_eq!(state.selected_index, 2);
    state.move_selection_down();
    assert_eq!(state.selected_index, 0);
    state.move_selection_down();
    state.move_selection_down();
    assert_eq!(state.selected_index, 2);
    assert_eq!(state.selected_project().unwrap().name, "item2");
}

#[test]
fn selection_does_not_move_in_empty_list() {
    let mut state = AppState::new(vec![], theme());
    state.move_selection_down();
    assert_eq!(state.selected_index, 0);
    state.move_selection_up();
    assert_eq!(state.selected_index, 0);
}

#[test]
fn filter_is_idempotent() {
    let mut state = all_projects_state(numbered(12));
    state.search_query = "item 1".to_string();
    state.selected_index = 7;
    state.apply_search_filter();
    let once = state.filtered_projects.clone();
    let selected = state.selected_index;
    state.apply_search_filter();
    assert_eq!(state.filtered_projects, once);
    assert_eq!(state.selected_index, selected);
    assert_eq!(once.len(), 3);
    assert_eq!(selected, 2);
}

#[test]
fn filter_clamps_selection_and_resets_on_empty() {
    let mut state = all_projects_state(numbered(5));
    state.selected_index = 4;
    state.search_query = "item3".to_string();
    state.apply_search_filter();
    assert_eq!(state.filtered_projects.len(), 1);
    assert_eq!(state.selected_index, 0);
    state.selected_index = 0;
    state.search_query = "zzz".to_string();
    state.apply_search_filter();
    assert!(state.filtered_projects.is_empty());
    assert_eq!(state.selected_index, 0);
}

#[test]
fn view_mode_splits_projects_by_session() {
    let mut state = AppState::new(numbered(3), theme());
    state.active_sessions = vec!["item1".to_string()];
    state.apply_search_filter();
    assert_eq!(state.filtered_projects, vec![project("/p/item1", "item1")]);
    state.view_mode = ViewMode::ProjectsWithoutSessions;
    state.apply_search_filter();
    assert_eq!(
        state.filtered_projects,
        vec![project("/p/item0", "item0"), project("/p/item2", "item2")]
    );
}

#[test]
fn whitespace_only_query_filters_nothing() {
    let mut state = all_projects_state(numbered(3));
    state.search_query = "   ".to_string();
    state.apply_search_filter();
    assert_eq!(state.filtered_projects.len(), 3);
}

#[test]
fn names_and_tokens_are_lowercased_beyond_ascii() {
    let mut state = all_projects_state(vec![project("/p/e", "ÉCOLE"), project("/p/t", "Tools")]);
    state.search_query = "école".to_string();
    state.apply_search_filter();
    assert_eq!(state.filtered_projects, vec![project("/p/e", "ÉCOLE")]);
    state.search_query = "ÉC".to_string();
    state.apply_search_filter();
    assert_eq!(state.filtered_projects, vec![project("/p/e", "ÉCOLE")]);
    state.search_query = "TOOLS".to_string();
    state.apply_search_filter();
    assert_eq!(state.filtered_projects, vec![project("/p/t", "Tools")]);
}

#[test]
fn matcher_accepts_subsequences_only() {
    assert!(fuzzy_matches("axbycz", "abc"));
    assert!(fuzzy_matches("axbycz", "xyz"));
    assert!(!fuzzy_matches("abc", "abx"));
    assert!(!fuzzy_matches("", "a"));
    assert!(fuzzy_matches("anything", ""));
    assert!(fuzzy_matches("", ""));
    assert!(!fuzzy_matches("abc", "cb"));
}

#[test]
fn matcher_respects_case_only_with_upper_case_pattern() {
    assert!(fuzzy_matches("CamelCase", "cc"));
    assert!(fuzzy_matches("camelcase", "cc"));
    assert!(fuzzy_matches("CamelCase", "CC"));
    assert!(!fuzzy_matches("camelcase", "CC"));
    assert!(!fuzzy_matches("camelcase", "Cc"));
}

#[test]
fn matcher_reports_positions() {
    assert_eq!(fuzzy_positions("axbycz", "abc"), vec![0, 2, 4]);
    assert_eq!(fuzzy_positions("hello", "ell"), vec![1, 2, 3]);
    assert_eq!(fuzzy_positions("hello", "xyz"), Vec::<usize>::new());
    assert_eq!(fuzzy_positions("hello", ""), Vec::<usize>::new());
}

#[test]
fn ranges_join_consecutive_positions() {
    assert_eq!(coalesce_ranges(&vec![]), vec![]);
    assert_eq!(coalesce_ranges(&vec![4]), vec![(4, 5)]);
    assert_eq!(coalesce_ranges(&vec![0, 1, 2]), vec![(0, 3)]);
    assert_eq!(coalesce_ranges(&vec![0, 2, 3, 7]), vec![(0, 1), (2, 4), (7, 8)]);
    assert_eq!(coalesce_ranges(&vec![5, 5]), vec![(5, 6), (5, 6)]);
    assert_eq!(coalesce_ranges(&vec![3, 2]), vec![(3, 4), (2, 3)]);
}

#[test]
fn window_is_centered_on_selection() {
    assert_eq!(visible_window(10, 30, 6), (7, 13));
    assert_eq!(visible_window(10, 30, 7), (7, 14));
}

#[test]
fn window_stays_at_top_near_start() {
    assert_eq!(visible_window(0, 30, 6), (0, 6));
    assert_eq!(visible_window(2, 30, 6), (0, 6));
}

#[test]
fn window_shifts_up_to_fill_rows_near_end() {
    assert_eq!(visible_window(29, 30, 6), (24, 30));
    assert_eq!(visible_window(28, 30, 6), (24, 30));
}

#[test]
fn window_shows_whole_short_list() {
    assert_eq!(visible_window(2, 3, 10), (0, 3));
    assert_eq!(visible_window(0, 1, usize::MAX), (0, 1));
}

#[test]
fn window_without_rows_is_empty() {
    assert_eq!(visible_window(4, 9, 0), (4, 4));
}

#[test]
fn window_always_has_all_rows_and_holds_selection() {
    for len in 1..20usize {
        for rows in 1..=len {
            for selected in 0..len {
                let (start, end) = visible_window(selected, len, rows);
                assert_eq!(end - start, rows);
                assert!(start <= selected && selected < end);
            }
        }
    }
}

#[test]
fn viewmodel_of_empty_state_has_no_rows() {
    let state = AppState::new(vec![], theme());
    let model = state.compute_viewmodel(24, 80);
    assert!(model.display_items.is_empty());
    assert_eq!(model.selected_index, 0);
    assert_eq!(model.header.title, " Active Sessions (0) ");
    assert_eq!(
        model.footer.keybindings,
        "j/k or Ctrl+n/p: navigate  /: search  n: new  K: kill  Enter: switch  q: quit"
    );
    assert_eq!(model.empty_state, None);
    assert_eq!(model.search_bar, None);
}

#[test]
fn viewmodel_windows_the_list_in_normal_mode() {
    let mut state = all_projects_state(numbered(30));
    state.selected_index = 10;
    let model = state.compute_viewmodel(12, 80);
    assert_eq!(state.calculate_available_rows(12), 6);
    assert_eq!(model.display_items.len(), 6);
    assert_eq!(model.display_items[0].name, "item7");
    assert_eq!(model.display_items[5].name, "item12");
    assert_eq!(model.selected_index, 3);
    assert!(model.display_items[3].is_selected);
    assert!(!model.display_items[2].is_selected);
    assert_eq!(model.header.title, " All Projects (30) ");
    assert_eq!(
        model.footer.keybindings,
        "j/k or Ctrl+n/p: navigate  /: search  s: sessions  Enter: create  q: quit"
    );
}

#[test]
fn viewmodel_in_search_mode_has_fewer_rows_and_highlights() {
    let mut state = all_projects_state(vec![
        project("/p/web-api", "web-api"),
        project("/p/webui", "webui"),
    ]);
    handle_event(&mut state, &Event::SearchMode).unwrap();
    assert_eq!(state.calculate_available_rows(12), 3);
    assert_eq!(state.calculate_available_rows(5), 0);
    for c in "wea".chars() {
        handle_event(&mut state, &Event::Char(c)).unwrap();
    }
    let model = state.compute_viewmodel(24, 80);
    assert_eq!(model.display_items.len(), 1);
    assert_eq!(model.display_items[0].name, "web-api");
    assert_eq!(model.display_items[0].highlight_ranges, vec![(0, 2), (4, 5)]);
    assert_eq!(model.search_bar.unwrap().query, "wea");
    assert_eq!(
        model.footer.keybindings,
        "ESC: exit search  Enter: select  Ctrl+n/p: navigate  Type to filter"
    );
    handle_event(&mut state, &Event::FocusResults).unwrap();
    assert_eq!(state.input_mode, InputMode::Search(SearchFocus::Navigating));
    assert_eq!(
        state.compute_footer().keybindings,
        "ESC: exit search  /: edit query  j/k or Ctrl+n/p: navigate  Enter: select"
    );
}

#[test]
fn viewmodel_marks_current_session() {
    let mut state = AppState::new(numbered(2), theme());
    state.active_sessions = vec!["item0".to_string(), "item1".to_string()];
    state.current_session = Some("item1".to_string());
    state.apply_search_filter();
    let model = state.compute_viewmodel(24, 80);
    assert!(!model.display_items[0].is_current_session);
    assert!(model.display_items[1].is_current_session);
    assert!(model.display_items[0].highlight_ranges.is_empty());
}

#[test]
fn long_names_and_paths_are_shortened() {
    let long_name = "abcdefghijklmnopqrstuvwxyz0123456789";
    let exact = "abcdefghijklmnopqrstuvwxyz012345678";
    let state = all_projects_state(vec![
        project("/a/very/long/path/to/project", long_name),
        project("/s", exact),
    ]);
    let model = state.compute_viewmodel(24, 59);
    assert_eq!(model.display_items[0].name, "abcdefghijklmnopqrstuvwxyz012345...");
    assert_eq!(model.display_items[0].path, "...g/path/to/project");
    assert_eq!(model.display_items[1].name, exact);
    assert_eq!(model.display_items[1].path, "/s");
}

#[test]
fn display_path_formats() {
    assert_eq!(AppState::format_display_path("/home/u/p", 20), "/home/u/p");
    assert_eq!(AppState::format_display_path("/home/u/p", 9), "/home/u/p");
    assert_eq!(AppState::format_display_path("/home/u/p", 8), "...e/u/p");
    assert_eq!(AppState::format_display_path("/home/u/p", 3), "...");
    assert_eq!(AppState::format_display_path("/home/u/p", 0), "...");
    assert_eq!(AppState::format_display_path("/hömé/ü/p", 8), "...é/ü/p");
}

#[test]
fn state_clone_is_equal_in_every_field() {
    let mut state = all_projects_state(numbered(3));
    state.search_query = "it".to_string();
    state.current_session = Some("x".to_string());
    let copy = state.clone();
    assert_eq!(copy.projects, state.projects);
    assert_eq!(copy.filtered_projects, state.filtered_projects);
    assert_eq!(copy.search_query, state.search_query);
    assert_eq!(copy.current_session, state.current_session);
    assert_eq!(copy.theme, state.theme);
}

#[test]
fn distinct_keeps_first_occurrences_in_order() {
    let names = |list: &[&str]| list.iter().map(|n| n.to_string()).collect::<Vec<String>>();
    assert_eq!(distinct(&names(&["b", "a", "b", "c", "a"])), names(&["b", "a", "c"]));
    assert_eq!(distinct(&names(&["x", "x", "x"])), names(&["x"]));
    assert_eq!(distinct(&names(&["a", "b"])), names(&["a", "b"]));
    assert!(distinct(&names(&[])).is_empty());
}
