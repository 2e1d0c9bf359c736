use zessionizer::app::{handle_event, Action, AppState, Event, InputMode, SearchFocus, ViewMode};
use zessionizer::ui::{Theme, ThemeColors};
use zessionizer::worker::{WorkerMessage, WorkerResponse};
use zessionizer::Project;

fn theme() -> Theme {
    Theme {
        name: "plain".to_string(),
        colors: ThemeColors {
            header_fg: "#ffffff".to_string(),
            header_bg: None,
            selection_fg: "#000000".to_string(),
            selection_bg: "#ffffff".to_string(),
            text_normal: "#cccccc".to_string(),
            text_dim: "#888888".to_string(),
            border: "#444444".to_string(),
            search_bar_border: "#444444".to_string(),
            match_highlight_fg: "#ff0000".to_string(),
            match_highlight_bg: "#000000".to_string(),
            empty_state_fg: "#888888".to_string(),
            active_session_fg: "#00ff00".to_string(),
        },
    }
}

fn project(path: &str, name: &str) -> Project {
    Project {
        id: None,
        path: path.to_string(),
        name: name.to_string(),
        last_accessed: 100,
        created_at: 50,
        layout: None,
    }
}

#[test]
fn projects_scanned_strips_sandbox_prefix_and_marker() {
    let mut state = AppState::new(vec![], theme());
    let event = Event::ProjectsScanned {
        git_directories: vec!["/host/home/u/proj/.git".to_string()],
    };
    let (render, actions) = handle_event(&mut state, &event).unwrap();
    assert!(!render);
    assert_eq!(
        actions,
        vec![Action::PostToWorker(WorkerMessage::AddProjectsBatch {
            projects: vec![("/home/u/proj".to_string(), "proj".to_string())],
            trace_context: None,
        })]
    );
}

#[test]
fn projects_scanned_keeps_first_of_equal_names() {
    let mut state = AppState::new(vec![], theme());
    let event = Event::ProjectsScanned {
        git_directories: vec!["/a/b/.git".to_string(), "/a/c/b/.git".to_string()],
    };
    let (_, actions) = handle_event(&mut state, &event).unwrap();
    assert_eq!(
        actions,
        vec![Action::PostToWorker(WorkerMessage::AddProjectsBatch {
            projects: vec![("/a/b".to_string(), "b".to_string())],
            trace_context: None,
        })]
    );
}

#[test]
fn session_update_twice_is_quiet_the_second_time() {
    let mut state = AppState::new(vec![project("/p/alpha", "alpha")], theme());
    let event = Event::SessionUpdate {
        active_sessions: vec!["alpha".to_string(), "beta".to_string()],
        current_session: Some("alpha".to_string()),
    };
    let (render, actions) = handle_event(&mut state, &event).unwrap();
    assert!(render);
    assert_eq!(
        actions,
        vec![Action::PostToWorker(WorkerMessage::SyncSessions {
            active_sessions: vec!["alpha".to_string(), "beta".to_string()],
            trace_context: None,
        })]
    );
    assert_eq!(state.filtered_projects, vec![project("/p/alpha", "alpha")]);
    let (render, actions) = handle_event(&mut state, &event).unwrap();
    assert!(!render);
    assert!(actions.is_empty());
}

#[test]
fn search_filters_by_every_token() {
    let projects = vec![
        project("/p/web-api", "web-api"),
        project("/p/web-ui", "web-ui"),
        project("/p/Tools", "Tools"),
    ];
    let mut state = AppState::new(projects, theme());
    handle_event(&mut state, &Event::ShowProjects).unwrap();
    assert_eq!(state.filtered_projects.len(), 3);
    handle_event(&mut state, &Event::SearchMode).unwrap();
    assert_eq!(state.input_mode, InputMode::Search(SearchFocus::Typing));
    for c in "we pi".chars() {
        handle_event(&mut state, &Event::Char(c)).unwrap();
    }
    assert_eq!(state.search_query, "we pi");
    assert_eq!(state.filtered_projects, vec![project("/p/web-api", "web-api")]);
    handle_event(&mut state, &Event::Backspace).unwrap();
    handle_event(&mut state, &Event::Backspace).unwrap();
    assert_eq!(state.search_query, "we ");
    assert_eq!(state.filtered_projects.len(), 2);
    handle_event(&mut state, &Event::Escape).unwrap();
    assert_eq!(state.input_mode, InputMode::Normal);
    assert_eq!(state.filtered_projects.len(), 3);
    assert_eq!(state.view_mode, ViewMode::ProjectsWithoutSessions);
}

#[test]
fn projects_loaded_redraws_only_when_shown_list_changes() {
    let mut state = AppState::new(vec![], theme());
    handle_event(&mut state, &Event::ShowProjects).unwrap();
    let loaded = Event::WorkerResponse(WorkerResponse::ProjectsLoaded {
        projects: vec![project("/p/a", "a")],
    });
    let (render, _) = handle_event(&mut state, &loaded).unwrap();
    assert!(render);
    let (render, _) = handle_event(&mut state, &loaded).unwrap();
    assert!(!render);
}

fn shown(state: &AppState) -> Vec<String> {
    state.filtered_projects.iter().map(|p| p.name.clone()).collect()
}

fn browsing(names: &[&str]) -> AppState {
    let projects = names.iter().map(|n| project(&format!("/p/{n}"), n)).collect();
    let mut state = AppState::new(projects, theme());
    handle_event(&mut state, &Event::ShowProjects).unwrap();
    state
}

#[test]
fn keys_move_selection_and_redraw() {
    let mut state = browsing(&["a", "b", "c"]);
    assert_eq!(handle_event(&mut state, &Event::KeyDown).unwrap(), (true, vec![]));
    assert_eq!(state.selected_index, 1);
    assert_eq!(handle_event(&mut state, &Event::KeyUp).unwrap(), (true, vec![]));
    assert_eq!(handle_event(&mut state, &Event::KeyUp).unwrap(), (true, vec![]));
    assert_eq!(state.selected_index, 2);
    assert_eq!(handle_event(&mut state, &Event::KeyDown).unwrap(), (true, vec![]));
    assert_eq!(state.selected_index, 0);
}

#[test]
fn keys_in_empty_list_still_redraw() {
    let mut state = AppState::new(vec![], theme());
    assert_eq!(handle_event(&mut state, &Event::KeyDown).unwrap(), (true, vec![]));
    assert_eq!(state.selected_index, 0);
}

#[test]
fn close_focus_emits_action() {
    let mut state = browsing(&["a"]);
    assert_eq!(
        handle_event(&mut state, &Event::CloseFocus).unwrap(),
        (false, vec![Action::CloseFocus])
    );
}

#[test]
fn select_creates_session_for_project_without_one() {
    let mut with_layout = project("/p/a", "a");
    with_layout.layout = Some("dev".to_string());
    let mut state = AppState::new(vec![with_layout], theme());
    handle_event(&mut state, &Event::ShowProjects).unwrap();
    assert_eq!(
        handle_event(&mut state, &Event::SelectProject).unwrap(),
        (
            false,
            vec![Action::CreateSession {
                name: "a".to_string(),
                path: "/p/a".to_string(),
                layout: Some("dev".to_string()),
            }]
        )
    );
}

#[test]
fn select_switches_to_live_session() {
    let mut state = AppState::new(vec![project("/p/a", "a")], theme());
    let update = Event::SessionUpdate {
        active_sessions: vec!["a".to_string()],
        current_session: None,
    };
    handle_event(&mut state, &update).unwrap();
    assert_eq!(
        handle_event(&mut state, &Event::SelectProject).unwrap(),
        (
            false,
            vec![Action::SwitchSession {
                name: "a".to_string(),
                path: "/p/a".to_string(),
                layout: None,
            }]
        )
    );
}

#[test]
fn select_without_selection_leaves_search_or_does_nothing() {
    let mut state = browsing(&["a"]);
    handle_event(&mut state, &Event::SearchMode).unwrap();
    handle_event(&mut state, &Event::Char('z')).unwrap();
    assert!(state.filtered_projects.is_empty());
    assert_eq!(handle_event(&mut state, &Event::SelectProject).unwrap(), (true, vec![]));
    assert_eq!(state.input_mode, InputMode::Normal);
    assert_eq!(state.search_query, "");
    assert_eq!(shown(&state), vec!["a"]);
    let mut empty = AppState::new(vec![], theme());
    assert_eq!(handle_event(&mut empty, &Event::SelectProject).unwrap(), (false, vec![]));
}

#[test]
fn kill_session_only_in_sessions_view_with_selection() {
    let mut state = AppState::new(vec![project("/p/a", "a")], theme());
    assert_eq!(handle_event(&mut state, &Event::KillSession).unwrap(), (false, vec![]));
    let update = Event::SessionUpdate {
        active_sessions: vec!["a".to_string()],
        current_session: None,
    };
    handle_event(&mut state, &update).unwrap();
    assert_eq!(
        handle_event(&mut state, &Event::KillSession).unwrap(),
        (false, vec![Action::KillSession { name: "a".to_string() }])
    );
    let mut other = browsing(&["a"]);
    assert_eq!(handle_event(&mut other, &Event::KillSession).unwrap(), (false, vec![]));
}

#[test]
fn search_mode_resets_query_and_focus_bar_keeps_it() {
    let mut state = browsing(&["ab", "cd"]);
    handle_event(&mut state, &Event::SearchMode).unwrap();
    handle_event(&mut state, &Event::Char('a')).unwrap();
    handle_event(&mut state, &Event::FocusResults).unwrap();
    assert_eq!(state.input_mode, InputMode::Search(SearchFocus::Navigating));
    assert_eq!(handle_event(&mut state, &Event::FocusSearchBar).unwrap(), (true, vec![]));
    assert_eq!(state.input_mode, InputMode::Search(SearchFocus::Typing));
    assert_eq!(state.search_query, "a");
    assert_eq!(handle_event(&mut state, &Event::SearchMode).unwrap(), (true, vec![]));
    assert_eq!(state.search_query, "");
    assert_eq!(shown(&state), vec!["ab", "cd"]);
}

#[test]
fn focus_results_with_empty_query_returns_to_normal() {
    let mut state = browsing(&["a"]);
    handle_event(&mut state, &Event::SearchMode).unwrap();
    assert_eq!(handle_event(&mut state, &Event::FocusResults).unwrap(), (true, vec![]));
    assert_eq!(state.input_mode, InputMode::Normal);
}

#[test]
fn exit_search_clears_query() {
    let mut state = browsing(&["ab", "cd"]);
    handle_event(&mut state, &Event::SearchMode).unwrap();
    handle_event(&mut state, &Event::Char('c')).unwrap();
    assert_eq!(shown(&state), vec!["cd"]);
    assert_eq!(handle_event(&mut state, &Event::ExitSearch).unwrap(), (true, vec![]));
    assert_eq!(state.input_mode, InputMode::Normal);
    assert_eq!(state.search_query, "");
    assert_eq!(shown(&state), vec!["ab", "cd"]);
}

#[test]
fn typing_outside_search_is_ignored() {
    let mut state = browsing(&["ab"]);
    assert_eq!(handle_event(&mut state, &Event::Char('x')).unwrap(), (false, vec![]));
    assert_eq!(handle_event(&mut state, &Event::Backspace).unwrap(), (false, vec![]));
    assert_eq!(state.search_query, "");
    assert_eq!(shown(&state), vec!["ab"]);
}

#[test]
fn backspace_on_empty_query_keeps_it_empty() {
    let mut state = browsing(&["ab"]);
    handle_event(&mut state, &Event::SearchMode).unwrap();
    assert_eq!(handle_event(&mut state, &Event::Backspace).unwrap(), (true, vec![]));
    assert_eq!(state.search_query, "");
}

#[test]
fn show_sessions_and_projects_switch_the_view() {
    let mut state = browsing(&["a", "b"]);
    assert_eq!(state.view_mode, ViewMode::ProjectsWithoutSessions);
    assert_eq!(handle_event(&mut state, &Event::ShowSessions).unwrap(), (true, vec![]));
    assert_eq!(state.view_mode, ViewMode::Sessions);
    assert!(state.filtered_projects.is_empty());
}

#[test]
fn session_update_detects_each_kind_of_change() {
    let mut state = AppState::new(vec![project("/p/a", "a")], theme());
    let first = Event::SessionUpdate {
        active_sessions: vec!["a".to_string(), "b".to_string()],
        current_session: None,
    };
    assert!(handle_event(&mut state, &first).unwrap().0);
    let reordered = Event::SessionUpdate {
        active_sessions: vec!["b".to_string(), "a".to_string()],
        current_session: None,
    };
    assert_eq!(handle_event(&mut state, &reordered).unwrap(), (false, vec![]));
    assert_eq!(state.active_sessions, vec!["a", "b"]);
    let current = Event::SessionUpdate {
        active_sessions: vec!["a".to_string(), "b".to_string()],
        current_session: Some("b".to_string()),
    };
    assert!(handle_event(&mut state, &current).unwrap().0);
    assert_eq!(state.current_session, Some("b".to_string()));
    let removed = Event::SessionUpdate {
        active_sessions: vec!["b".to_string()],
        current_session: Some("b".to_string()),
    };
    let (render, actions) = handle_event(&mut state, &removed).unwrap();
    assert!(render);
    assert_eq!(
        actions,
        vec![Action::PostToWorker(WorkerMessage::SyncSessions {
            active_sessions: vec!["b".to_string()],
            trace_context: None,
        })]
    );
    assert!(state.filtered_projects.is_empty());
}

#[test]
fn scan_without_projects_emits_nothing() {
    let mut state = AppState::new(vec![], theme());
    let event = Event::ProjectsScanned { git_directories: vec![] };
    assert_eq!(handle_event(&mut state, &event).unwrap(), (false, vec![]));
}

#[test]
fn directory_named_unknown_is_a_project_like_any_other() {
    let mut state = AppState::new(vec![], theme());
    let event = Event::ProjectsScanned {
        git_directories: vec!["/home/u/unknown/.git".to_string()],
    };
    assert_eq!(
        handle_event(&mut state, &event).unwrap(),
        (
            false,
            vec![Action::PostToWorker(WorkerMessage::AddProjectsBatch {
                projects: vec![("/home/u/unknown".to_string(), "unknown".to_string())],
                trace_context: None,
            })]
        )
    );
}

#[test]
fn dedup_keeps_first_of_two_directories_with_one_name() {
    let mut state = AppState::new(vec![], theme());
    let event = Event::ProjectsScanned {
        git_directories: vec!["/a/b/.git".to_string(), "/a/c/.git".to_string()],
    };
    let (_, actions) = handle_event(&mut state, &event).unwrap();
    assert_eq!(
        actions,
        vec![Action::PostToWorker(WorkerMessage::AddProjectsBatch {
            projects: vec![
                ("/a/b".to_string(), "b".to_string()),
                ("/a/c".to_string(), "c".to_string()),
            ],
            trace_context: None,
        })]
    );
    let colliding = Event::ProjectsScanned {
        git_directories: vec!["/a/b/x/.git".to_string(), "/a/c/x/.git".to_string()],
    };
    let (_, actions) = handle_event(&mut state, &colliding).unwrap();
    assert_eq!(
        actions,
        vec![Action::PostToWorker(WorkerMessage::AddProjectsBatch {
            projects: vec![("/a/b/x".to_string(), "x".to_string())],
            trace_context: None,
        })]
    );
}

#[test]
fn quiet_events_change_nothing() {
    let mut state = browsing(&["a"]);
    let quiet = vec![
        Event::ScanFailed { error: "find: no such file".to_string() },
        Event::PermissionsResult { granted: vec!["RunCommands".to_string()] },
        Event::WorkerResponse(WorkerResponse::FrecencyUpdated { path: "/p/a".to_string() }),
        Event::WorkerResponse(WorkerResponse::SessionsSynced { count: 2 }),
    ];
    for event in quiet {
        assert_eq!(handle_event(&mut state, &event).unwrap(), (false, vec![]));
    }
    assert_eq!(shown(&state), vec!["a"]);
}

#[test]
fn worker_error_asks_for_redraw() {
    let mut state = browsing(&["a"]);
    let event = Event::WorkerResponse(WorkerResponse::Error { message: "x".to_string() });
    assert_eq!(handle_event(&mut state, &event).unwrap(), (true, vec![]));
}

#[test]
fn layout_updated_reloads_projects() {
    let mut state = browsing(&["a"]);
    let event = Event::WorkerResponse(WorkerResponse::LayoutUpdated { path: "/p/a".to_string() });
    assert_eq!(
        handle_event(&mut state, &event).unwrap(),
        (
            false,
            vec![Action::PostToWorker(WorkerMessage::LoadProjects {
                with_sessions: false,
                trace_context: None,
            })]
        )
    );
}

#[test]
fn batch_added_replaces_projects_and_clamps_selection() {
    let mut state = browsing(&["a", "b", "c"]);
    state.selected_index = 2;
    let event = Event::WorkerResponse(WorkerResponse::ProjectsBatchAdded {
        count: 1,
        projects: vec![project("/p/z", "z")],
    });
    assert_eq!(handle_event(&mut state, &event).unwrap(), (true, vec![]));
    assert_eq!(shown(&state), vec!["z"]);
    assert_eq!(state.selected_index, 0);
}

#[test]
fn loaded_projects_hidden_by_view_do_not_redraw() {
    let mut state = AppState::new(vec![], theme());
    let event = Event::WorkerResponse(WorkerResponse::ProjectsLoaded {
        projects: vec![project("/p/a", "a")],
    });
    assert_eq!(handle_event(&mut state, &event).unwrap(), (false, vec![]));
    assert_eq!(state.projects.len(), 1);
    assert!(state.filtered_projects.is_empty());
}

#[test]
fn update_project_layout_is_passed_on() {
    let mut state = AppState::new(vec![], theme());
    let event = Event::UpdateProjectLayout { path: "/p/a".to_string(), layout: None };
    assert_eq!(
        handle_event(&mut state, &event).unwrap(),
        (false, vec![Action::UpdateProjectLayout { path: "/p/a".to_string(), layout: None }])
    );
    assert_eq!(
        Action::KillSession { name: "n".to_string() }.clone(),
        Action::KillSession { name: "n".to_string() }
    );
}

#[test]
fn session_named_twice_counts_once() {
    let mut state = AppState::new(vec![project("/p/a", "a")], theme());
    let event = Event::SessionUpdate {
        active_sessions: vec![
            "b".to_string(),
            "a".to_string(),
            "b".to_string(),
            "a".to_string(),
            "c".to_string(),
        ],
        current_session: None,
    };
    let (render, actions) = handle_event(&mut state, &event).unwrap();
    assert!(render);
    assert_eq!(state.active_sessions, vec!["b", "a", "c"]);
    assert_eq!(
        actions,
        vec![Action::PostToWorker(WorkerMessage::SyncSessions {
            active_sessions: vec!["b".to_string(), "a".to_string(), "c".to_string()],
            trace_context: None,
        })]
    );
    assert_eq!(handle_event(&mut state, &event).unwrap(), (false, vec![]));
    let once = Event::SessionUpdate {
        active_sessions: vec!["c".to_string(), "b".to_string(), "a".to_string()],
        current_session: None,
    };
    assert_eq!(handle_event(&mut state, &once).unwrap(), (false, vec![]));
}
