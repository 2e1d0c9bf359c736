use zessionizer::host::{
    find_command, lines, map_command_result_event, map_key_event, map_session_update_event, Key,
};
use zessionizer::host::worker_messages_for;
use zessionizer::worker::WorkerMessage;
use zessionizer::{Action, Event, InputMode, SearchFocus};

const NORMAL: InputMode = InputMode::Normal;
const TYPING: InputMode = InputMode::Search(SearchFocus::Typing);
const NAVIGATING: InputMode = InputMode::Search(SearchFocus::Navigating);

#[test]
fn control_keys_move_in_every_mode() {
    for mode in [NORMAL, TYPING, NAVIGATING] {
        assert_eq!(map_key_event(Key::Char('n'), true, mode), Some(Event::KeyDown));
        assert_eq!(map_key_event(Key::Char('p'), true, mode), Some(Event::KeyUp));
    }
}

#[test]
fn keys_in_normal_mode() {
    let key = |key: Key| map_key_event(key, false, NORMAL);
    assert_eq!(key(Key::Char('j')), Some(Event::KeyDown));
    assert_eq!(key(Key::Down), Some(Event::KeyDown));
    assert_eq!(key(Key::Char('k')), Some(Event::KeyUp));
    assert_eq!(key(Key::Up), Some(Event::KeyUp));
    assert_eq!(key(Key::Esc), Some(Event::Escape));
    assert_eq!(key(Key::Char('q')), Some(Event::CloseFocus));
    assert_eq!(key(Key::Char('K')), Some(Event::KillSession));
    assert_eq!(key(Key::Enter), Some(Event::SelectProject));
    assert_eq!(key(Key::Char('/')), Some(Event::SearchMode));
    assert_eq!(key(Key::Char('n')), Some(Event::ShowProjects));
    assert_eq!(key(Key::Char('s')), Some(Event::ShowSessions));
    assert_eq!(key(Key::Backspace), Some(Event::Backspace));
    assert_eq!(key(Key::Char('x')), Some(Event::Char('x')));
    assert_eq!(key(Key::Char('p')), Some(Event::Char('p')));
    assert_eq!(key(Key::Other), None);
}

#[test]
fn keys_while_searching() {
    for mode in [TYPING, NAVIGATING] {
        let key = |key: Key| map_key_event(key, false, mode);
        assert_eq!(key(Key::Char('j')), Some(Event::Char('j')));
        assert_eq!(key(Key::Down), Some(Event::Char('j')));
        assert_eq!(key(Key::Char('k')), Some(Event::Char('k')));
        assert_eq!(key(Key::Up), Some(Event::Char('k')));
        assert_eq!(key(Key::Esc), Some(Event::ExitSearch));
        assert_eq!(key(Key::Char('q')), Some(Event::Char('q')));
        assert_eq!(key(Key::Char('K')), Some(Event::KillSession));
        assert_eq!(key(Key::Enter), Some(Event::SelectProject));
        assert_eq!(key(Key::Char('/')), Some(Event::FocusSearchBar));
        assert_eq!(key(Key::Char('n')), Some(Event::Char('n')));
        assert_eq!(key(Key::Char('s')), Some(Event::Char('s')));
        assert_eq!(key(Key::Backspace), Some(Event::Backspace));
        assert_eq!(key(Key::Other), None);
    }
    assert_eq!(map_key_event(Key::Char('j'), true, TYPING), Some(Event::Char('j')));
}

#[test]
fn scan_command_words() {
    assert_eq!(
        find_command("~/Projects", 4),
        vec![
            "find", "Projects", "-maxdepth", "4", "(", "-name", ".git", "-type", "d", "-o",
            "-name", ".zessionizer", "-type", "f", ")"
        ]
    );
    assert_eq!(find_command("~", 0)[1], ".");
    assert_eq!(find_command("~", 0)[3], "0");
    assert_eq!(find_command("/srv/git", 4_294_967_295)[1], "/srv/git");
    assert_eq!(find_command("/srv/git", 4_294_967_295)[3], "4294967295");
    assert_eq!(find_command("~x", 1)[1], "~x");
    assert_eq!(find_command("~/", 1)[1], "");
}

#[test]
fn lines_agree_with_the_standard_library() {
    let samples = [
        "", "\n", "a", "a\n", "a\nb", "a\nb\n", "a\r\nb\r\n", "a\r", "a\r\r\n", "\r\n", "\r",
        "a\n\nb", "\n\n", "a\n\r", "a\rb\n", " a \n\tb", "/x/.git\n/y/.git\n",
    ];
    for sample in samples {
        let expected: Vec<String> = sample.lines().map(String::from).collect();
        assert_eq!(lines(sample), expected, "sample {sample:?}");
    }
}

#[test]
fn finished_scan_reports_marker_paths() {
    assert_eq!(
        map_command_result_event(Some(0), "/a/.git\n/b/.zessionizer\n", "ignored".to_string()),
        Event::ProjectsScanned {
            git_directories: vec!["/a/.git".to_string(), "/b/.zessionizer".to_string()]
        }
    );
    assert_eq!(
        map_command_result_event(Some(0), "", String::new()),
        Event::ProjectsScanned { git_directories: vec![] }
    );
}

#[test]
fn failed_scan_reports_its_error() {
    assert_eq!(
        map_command_result_event(Some(1), "/a/.git\n", "find: denied".to_string()),
        Event::ScanFailed { error: "find: denied".to_string() }
    );
    assert_eq!(
        map_command_result_event(None, "", String::new()),
        Event::ScanFailed { error: String::new() }
    );
}

#[test]
fn sessions_of_the_host_become_a_session_update() {
    let sessions = vec![
        ("a".to_string(), false),
        ("b".to_string(), true),
        ("c".to_string(), true),
    ];
    assert_eq!(
        map_session_update_event(&sessions),
        Event::SessionUpdate {
            active_sessions: vec!["a".to_string(), "b".to_string(), "c".to_string()],
            current_session: Some("b".to_string()),
        }
    );
    assert_eq!(
        map_session_update_event(&vec![("a".to_string(), false)]),
        Event::SessionUpdate { active_sessions: vec!["a".to_string()], current_session: None }
    );
    assert_eq!(
        map_session_update_event(&vec![]),
        Event::SessionUpdate { active_sessions: vec![], current_session: None }
    );
}

#[test]
fn opening_a_session_records_the_access_and_reloads() {
    let expected = vec![
        WorkerMessage::update_frecency("/p/a".to_string()),
        WorkerMessage::load_projects(false),
    ];
    let switch = Action::SwitchSession {
        name: "a".to_string(),
        path: "/p/a".to_string(),
        layout: None,
    };
    assert_eq!(worker_messages_for(&switch), expected);
    let create = Action::CreateSession {
        name: "a".to_string(),
        path: "/p/a".to_string(),
        layout: Some("l".to_string()),
    };
    assert_eq!(worker_messages_for(&create), expected);
}

#[test]
fn other_actions_send_their_own_request_or_none() {
    let message = WorkerMessage::sync_sessions(vec!["a".to_string()]);
    assert_eq!(worker_messages_for(&Action::PostToWorker(message.clone())), vec![message]);
    assert_eq!(
        worker_messages_for(&Action::UpdateProjectLayout {
            path: "/p".to_string(),
            layout: Some("l".to_string())
        }),
        vec![WorkerMessage::update_project_layout("/p".to_string(), Some("l".to_string()))]
    );
    assert!(worker_messages_for(&Action::CloseFocus).is_empty());
    assert!(worker_messages_for(&Action::KillSession { name: "a".to_string() }).is_empty());
}
