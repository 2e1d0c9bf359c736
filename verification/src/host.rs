//! From what the host reports to the events of the switcher.
//!
//! The host reports keys, the results of the scan command and its sessions.
//! What these mean for the switcher is decided here, on plain values.

use crate::app::actions::{Action, ActionView};
use crate::app::handler::{Event, EventView};
use crate::app::modes::InputMode;
use crate::text::{
    clone_optional, decimal, decimal_chars, from_chars, optional_view, slice, split, split_on,
    starts_with, to_chars,
};
use crate::worker::messages::{WorkerMessage, WorkerMessageView};
use vstd::prelude::*;
use vstd::string::StringExecFns;

verus! {

/// A key, as far as the switcher tells keys apart.
#[derive(Debug, Clone, Copy, PartialEq, Eq, Structural)]
pub enum Key {
    Char(char),
    Down,
    Up,
    Esc,
    Enter,
    Backspace,
    /// Any other key.
    Other,
}

/// What a key means in a mode. `Ctrl+n` and `Ctrl+p` move the selection in
/// every mode. While searching, the letters and the arrow keys for moving
/// go into the query, `/` returns to the search bar and `Esc` leaves the
/// search. In `Normal` mode `j`, `k` and the arrows move, `/` starts a
/// search, `q` closes, `n` and `s` change the view. `K`, `Enter` and
/// `Backspace` mean the same in every mode. Other keys mean nothing.
pub open spec fn key_event(key: Key, ctrl: bool, mode: InputMode) -> Option<EventView> {
    if key == Key::Char('n') && ctrl {
        Some(EventView::KeyDown)
    } else if key == Key::Char('p') && ctrl {
        Some(EventView::KeyUp)
    } else if key == Key::Down || key == Key::Char('j') {
        if mode.searching() {
            Some(EventView::Char('j'))
        } else {
            Some(EventView::KeyDown)
        }
    } else if key == Key::Up || key == Key::Char('k') {
        if mode.searching() {
            Some(EventView::Char('k'))
        } else {
            Some(EventView::KeyUp)
        }
    } else if key == Key::Esc {
        if mode.searching() {
            Some(EventView::ExitSearch)
        } else {
            Some(EventView::Escape)
        }
    } else if key == Key::Char('q') && !mode.searching() {
        Some(EventView::CloseFocus)
    } else if key == Key::Char('K') {
        Some(EventView::KillSession)
    } else if key == Key::Enter {
        Some(EventView::SelectProject)
    } else if key == Key::Char('/') {
        if mode.searching() {
            Some(EventView::FocusSearchBar)
        } else {
            Some(EventView::SearchMode)
        }
    } else if key == Key::Char('n') && !mode.searching() {
        Some(EventView::ShowProjects)
    } else if key == Key::Char('s') && !mode.searching() {
        Some(EventView::ShowSessions)
    } else if key == Key::Backspace {
        Some(EventView::Backspace)
    } else {
        match key {
            Key::Char(c) => Some(EventView::Char(c)),
            _ => None,
        }
    }
}

/// The event that a key stands for in the mode, if it stands for one.
/// `ctrl` says whether the control key was held.
pub fn map_key_event(key: Key, ctrl: bool, mode: InputMode) -> (event: Option<Event>)
    ensures
        match event {
            Some(e) => key_event(key, ctrl, mode) == Some(e@),
            None => key_event(key, ctrl, mode) is None,
        },
{
    let searching = mode.is_search();
    match key {
        Key::Char(c) => {
            if c == 'n' && ctrl {
                Some(Event::KeyDown)
            } else if c == 'p' && ctrl {
                Some(Event::KeyUp)
            } else if c == 'j' {
                if searching {
                    Some(Event::Char('j'))
                } else {
                    Some(Event::KeyDown)
                }
            } else if c == 'k' {
                if searching {
                    Some(Event::Char('k'))
                } else {
                    Some(Event::KeyUp)
                }
            } else if c == 'q' && !searching {
                Some(Event::CloseFocus)
            } else if c == 'K' {
                Some(Event::KillSession)
            } else if c == '/' {
                if searching {
                    Some(Event::FocusSearchBar)
                } else {
                    Some(Event::SearchMode)
                }
            } else if c == 'n' && !searching {
                Some(Event::ShowProjects)
            } else if c == 's' && !searching {
                Some(Event::ShowSessions)
            } else {
                Some(Event::Char(c))
            }
        },
        Key::Down => if searching {
            Some(Event::Char('j'))
        } else {
            Some(Event::KeyDown)
        },
        Key::Up => if searching {
            Some(Event::Char('k'))
        } else {
            Some(Event::KeyUp)
        },
        Key::Esc => if searching {
            Some(Event::ExitSearch)
        } else {
            Some(Event::Escape)
        },
        Key::Enter => Some(Event::SelectProject),
        Key::Backspace => Some(Event::Backspace),
        Key::Other => None,
    }
}

/// The requests that performing an action sends to the background
/// context, in order. Opening a session records the access to its project
/// and asks for the projects anew; a request is sent as it is; a layout
/// change becomes the request for it. Closing and killing send nothing.
pub open spec fn requests_of(action: ActionView) -> Seq<WorkerMessageView> {
    match action {
        ActionView::SwitchSession { path, .. } => seq![
            WorkerMessageView::UpdateFrecency { path, trace_context: None },
            WorkerMessageView::LoadProjects { with_sessions: false, trace_context: None },
        ],
        ActionView::CreateSession { path, .. } => seq![
            WorkerMessageView::UpdateFrecency { path, trace_context: None },
            WorkerMessageView::LoadProjects { with_sessions: false, trace_context: None },
        ],
        ActionView::PostToWorker(message) => seq![message],
        ActionView::UpdateProjectLayout { path, layout } => seq![
            WorkerMessageView::UpdateProjectLayout { path, layout, trace_context: None },
        ],
        ActionView::CloseFocus => Seq::empty(),
        ActionView::KillSession { .. } => Seq::empty(),
    }
}

fn opening(path: &String) -> (requests: Vec<WorkerMessage>)
    ensures
        requests@.map_values(|m: WorkerMessage| m@) == seq![
            WorkerMessageView::UpdateFrecency { path: path@, trace_context: None },
            WorkerMessageView::LoadProjects { with_sessions: false, trace_context: None },
        ],
{
    let mut requests: Vec<WorkerMessage> = Vec::new();
    requests.push(WorkerMessage::update_frecency(path.clone()));
    requests.push(WorkerMessage::load_projects(false));
    assert(requests@.map_values(|m: WorkerMessage| m@) =~= seq![
        WorkerMessageView::UpdateFrecency { path: path@, trace_context: None },
        WorkerMessageView::LoadProjects { with_sessions: false, trace_context: None },
    ]);
    requests
}

/// The requests to send to the background context when the action is
/// performed.
pub fn worker_messages_for(action: &Action) -> (requests: Vec<WorkerMessage>)
    ensures
        requests@.map_values(|m: WorkerMessage| m@) == requests_of(action@),
{
    match action {
        Action::SwitchSession { path, .. } => opening(path),
        Action::CreateSession { path, .. } => opening(path),
        Action::PostToWorker(message) => {
            let mut requests: Vec<WorkerMessage> = Vec::new();
            requests.push(message.clone());
            assert(requests@.map_values(|m: WorkerMessage| m@) =~= seq![message@]);
            requests
        },
        Action::UpdateProjectLayout { path, layout } => {
            let mut requests: Vec<WorkerMessage> = Vec::new();
            requests.push(
                WorkerMessage::update_project_layout(path.clone(), clone_optional(layout)),
            );
            assert(requests@.map_values(|m: WorkerMessage| m@) =~= requests_of(action@));
            requests
        },
        Action::CloseFocus => {
            let requests: Vec<WorkerMessage> = Vec::new();
            assert(requests@.map_values(|m: WorkerMessage| m@) =~= requests_of(action@));
            requests
        },
        Action::KillSession { .. } => {
            let requests: Vec<WorkerMessage> = Vec::new();
            assert(requests@.map_values(|m: WorkerMessage| m@) =~= requests_of(action@));
            requests
        },
    }
}

/// The directory from which a scan path is searched: the scan runs in the
/// home directory, so a path under `~/` is taken relative to it and `~`
/// itself is the current directory. Any other path stays as it is.
pub open spec fn scan_root(scan_path: Seq<char>) -> Seq<char> {
    if "~/"@.is_prefix_of(scan_path) {
        scan_path.skip("~/"@.len() as int)
    } else if scan_path == "~"@ {
        "."@
    } else {
        scan_path
    }
}

/// The command that finds the markers below a scan path down to `depth`:
/// the directories named `.git` and the files named `.zessionizer`.
pub open spec fn scan_command(scan_path: Seq<char>, depth: u32) -> Seq<Seq<char>> {
    seq![
        "find"@,
        scan_root(scan_path),
        "-maxdepth"@,
        decimal(depth as nat),
        "("@,
        "-name"@,
        ".git"@,
        "-type"@,
        "d"@,
        "-o"@,
        "-name"@,
        ".zessionizer"@,
        "-type"@,
        "f"@,
        ")"@,
    ]
}

fn root_of(scan_path: &str) -> (root: String)
    ensures
        root@ == scan_root(scan_path@),
{
    let chars = to_chars(scan_path);
    let home = to_chars("~/");
    if starts_with(&chars, &home) {
        let rest = slice(&chars, home.len(), chars.len());
        assert(chars@.skip(home@.len() as int) =~= chars@.subrange(
            home@.len() as int,
            chars@.len() as int,
        ));
        from_chars(&rest)
    } else {
        let tilde = String::from_str("~");
        let given = String::from_str(scan_path);
        if given == tilde {
            String::from_str(".")
        } else {
            given
        }
    }
}

/// The words of the scan command for a scan path.
pub fn find_command(scan_path: &str, depth: u32) -> (command: Vec<String>)
    ensures
        command.deep_view() == scan_command(scan_path@, depth),
{
    let mut command: Vec<String> = Vec::new();
    command.push(String::from_str("find"));
    command.push(root_of(scan_path));
    command.push(String::from_str("-maxdepth"));
    command.push(from_chars(&decimal_chars(depth as u64)));
    command.push(String::from_str("("));
    command.push(String::from_str("-name"));
    command.push(String::from_str(".git"));
    command.push(String::from_str("-type"));
    command.push(String::from_str("d"));
    command.push(String::from_str("-o"));
    command.push(String::from_str("-name"));
    command.push(String::from_str(".zessionizer"));
    command.push(String::from_str("-type"));
    command.push(String::from_str("f"));
    command.push(String::from_str(")"));
    assert(command.deep_view() =~= scan_command(scan_path@, depth));
    command
}

/// A line without the carriage return that ends it, if one does.
pub open spec fn without_carriage_return(line: Seq<char>) -> Seq<char> {
    if line.len() > 0 && line.last() == '\r' {
        line.drop_last()
    } else {
        line
    }
}

/// The lines of a text. A line ends with a line feed, or with a carriage
/// return and a line feed, neither of which belongs to the line. What
/// follows the last line feed is a line too, unless it is empty.
pub open spec fn lines_of(text: Seq<char>) -> Seq<Seq<char>> {
    let pieces = split_on(text, '\n');
    let ended = pieces.drop_last().map_values(|line: Seq<char>| without_carriage_return(line));
    if pieces.last().len() == 0 {
        ended
    } else {
        ended.push(pieces.last())
    }
}

/// The lines of `text`.
pub fn lines(text: &str) -> (lines: Vec<String>)
    ensures
        lines.deep_view() == lines_of(text@),
{
    let pieces = split(text, '\n');
    proof {
        lemma_split_is_not_empty(text@, '\n');
    }
    let ghost strip = |line: Seq<char>| without_carriage_return(line);
    let mut lines: Vec<String> = Vec::new();
    let mut i: usize = 0;
    assert(lines.deep_view() =~= pieces.deep_view().take(0).map_values(strip));
    while i + 1 < pieces.len()
        invariant
            i + 1 <= pieces.len(),
            strip == (|line: Seq<char>| without_carriage_return(line)),
            lines.deep_view() == pieces.deep_view().take(i as int).map_values(strip),
        decreases pieces.len() - i,
    {
        let ghost before = lines.deep_view();
        let chars = to_chars(pieces[i].as_str());
        let line = if chars.len() > 0 && chars[chars.len() - 1] == '\r' {
            let kept = slice(&chars, 0, chars.len() - 1);
            assert(chars@.drop_last() =~= chars@.subrange(0, chars@.len() - 1));
            from_chars(&kept)
        } else {
            pieces[i].clone()
        };
        lines.push(line);
        i += 1;
        assert(lines.deep_view() =~= before.push(
            without_carriage_return(pieces.deep_view()[i - 1]),
        ));
        assert(lines.deep_view() =~= pieces.deep_view().take(i as int).map_values(strip));
    }
    assert(pieces.deep_view().take(i as int) =~= pieces.deep_view().drop_last());
    let last = &pieces[pieces.len() - 1];
    if !last.as_str().is_empty() {
        let ghost before = lines.deep_view();
        lines.push(last.clone());
        assert(lines.deep_view() =~= before.push(pieces.deep_view().last()));
    }
    lines
}

/// A split has at least one piece.
pub proof fn lemma_split_is_not_empty(text: Seq<char>, separator: char)
    ensures
        split_on(text, separator).len() >= 1,
    decreases text.len(),
{
    if text.len() > 0 {
        lemma_split_is_not_empty(text.drop_last(), separator);
    }
}

/// What the end of the scan command means: the lines of its output are the
/// marker paths if it exited with 0, and its error output says why it
/// failed otherwise.
pub open spec fn scan_event(exit_code: Option<i32>, output: Seq<char>, error: Seq<char>) -> EventView {
    if exit_code == Some(0i32) {
        EventView::ProjectsScanned { git_directories: lines_of(output) }
    } else {
        EventView::ScanFailed { error }
    }
}

/// The event for the end of the scan command.
pub fn map_command_result_event(exit_code: Option<i32>, output: &str, error: String) -> (event:
    Event)
    ensures
        event@ == scan_event(exit_code, output@, error@),
{
    match exit_code {
        Some(0) => Event::ProjectsScanned { git_directories: lines(output) },
        _ => Event::ScanFailed { error },
    }
}

/// The name of the first session that is marked as the current one.
pub open spec fn current_of(sessions: Seq<(Seq<char>, bool)>) -> Option<Seq<char>>
    decreases sessions.len(),
{
    if sessions.len() == 0 {
        None
    } else if sessions[0].1 {
        Some(sessions[0].0)
    } else {
        current_of(sessions.skip(1))
    }
}

/// The names of the sessions, in order.
pub open spec fn names_of(sessions: Seq<(Seq<char>, bool)>) -> Seq<Seq<char>> {
    Seq::new(sessions.len(), |k: int| sessions[k].0)
}

/// The event for the sessions that the host reports, each with its name
/// and whether it is the current one.
pub fn map_session_update_event(sessions: &Vec<(String, bool)>) -> (event: Event)
    ensures
        event@ == (EventView::SessionUpdate {
            active_sessions: names_of(sessions.deep_view()),
            current_session: current_of(sessions.deep_view()),
        }),
{
    let mut names: Vec<String> = Vec::new();
    let mut current: Option<String> = None;
    let mut i: usize = sessions.len();
    assert(sessions.deep_view().skip(i as int) =~= Seq::<(Seq<char>, bool)>::empty());
    while i > 0
        invariant
            i <= sessions.len(),
            optional_view(current) == current_of(sessions.deep_view().skip(i as int)),
        decreases i,
    {
        i -= 1;
        assert(sessions.deep_view().skip(i as int).skip(1) =~= sessions.deep_view().skip(i + 1));
        assert(sessions.deep_view().skip(i as int)[0] == sessions.deep_view()[i as int]);
        if sessions[i].1 {
            current = Some(sessions[i].0.clone());
        }
    }
    assert(sessions.deep_view().skip(0) =~= sessions.deep_view());
    let mut k: usize = 0;
    while k < sessions.len()
        invariant
            k <= sessions.len(),
            names.len() == k,
            forall|j: int| 0 <= j < k ==> (#[trigger] names[j])@ == sessions.deep_view()[j].0,
        decreases sessions.len() - k,
    {
        names.push(sessions[k].0.clone());
        k += 1;
    }
    assert(names.deep_view() =~= names_of(sessions.deep_view()));
    Event::SessionUpdate { active_sessions: names, current_session: current }
}

} // verus!
