//! The configuration of the switcher, as the host hands it over.

use crate::app::modes::{InputMode, ViewMode};
use crate::app::state::{AppState, AppStateView};
use crate::domain::project::{Project, ProjectView};
use crate::text::{optional_view, parse_unsigned, split, split_on, trim, trimmed, unsigned_value};
use crate::ui::theme::Theme;
use vstd::prelude::*;
use vstd::string::StringExecFns;

verus! {

/// The number that a setting writes: decimal digits, which a `+` may
/// precede, for a number that fits 32 bits.
pub open spec fn parsed_u32(text: Seq<char>) -> Option<u32> {
    match unsigned_value(text, 10, 0xffff_ffff) {
        Some(value) => Some(value as u32),
        None => None,
    }
}

fn parse_u32(text: &str) -> (value: Option<u32>)
    ensures
        value == parsed_u32(text@),
{
    match parse_unsigned(text, 10, 0xffff_ffff) {
        Some(value) => Some(value as u32),
        None => None,
    }
}

/// The depth to which directories are scanned unless configured.
pub const DEFAULT_SCAN_DEPTH: u32 = 4;

/// The settings of the switcher.
#[derive(Debug, PartialEq, Eq)]
pub struct Config {
    /// The directories to scan for projects.
    pub scan_paths: Vec<String>,
    /// How deep to scan below them.
    pub scan_depth: u32,
    /// The name of a built-in theme.
    pub theme_name: Option<String>,
    /// The path of a theme file; it takes precedence over the name.
    pub theme_file: Option<String>,
    /// The level of tracing.
    pub trace_level: Option<String>,
}

/// The mathematical value of a [`Config`].
pub struct ConfigView {
    pub scan_paths: Seq<Seq<char>>,
    pub scan_depth: u32,
    pub theme_name: Option<Seq<char>>,
    pub theme_file: Option<Seq<char>>,
    pub trace_level: Option<Seq<char>>,
}

impl View for Config {
    type V = ConfigView;

    open spec fn view(&self) -> ConfigView {
        ConfigView {
            scan_paths: self.scan_paths.deep_view(),
            scan_depth: self.scan_depth,
            theme_name: optional_view(self.theme_name),
            theme_file: optional_view(self.theme_file),
            trace_level: optional_view(self.trace_level),
        }
    }
}

/// The scan paths of a configuration that names none.
pub open spec fn default_scan_paths() -> Seq<Seq<char>> {
    seq!["~/Projects"@]
}

impl Default for Config {
    fn default() -> (config: Config)
        ensures
            config@ == (ConfigView {
                scan_paths: default_scan_paths(),
                scan_depth: DEFAULT_SCAN_DEPTH,
                theme_name: None,
                theme_file: None,
                trace_level: None,
            }),
    {
        Config {
            scan_paths: home_projects(),
            scan_depth: 4,
            theme_name: None,
            theme_file: None,
            trace_level: None,
        }
    }
}

fn home_projects() -> (paths: Vec<String>)
    ensures
        paths.deep_view() == default_scan_paths(),
{
    let mut paths: Vec<String> = Vec::new();
    paths.push(String::from_str("~/Projects"));
    assert(paths.deep_view() =~= default_scan_paths());
    paths
}

/// The value of the first entry with this key.
pub open spec fn value_of(entries: Seq<(Seq<char>, Seq<char>)>, key: Seq<char>) -> Option<
    Seq<char>,
>
    decreases entries.len(),
{
    if entries.len() == 0 {
        None
    } else if entries[0].0 == key {
        Some(entries[0].1)
    } else {
        value_of(entries.skip(1), key)
    }
}

/// The pieces, each trimmed, without those that are empty then.
pub open spec fn trimmed_pieces(pieces: Seq<Seq<char>>) -> Seq<Seq<char>>
    decreases pieces.len(),
{
    if pieces.len() == 0 {
        Seq::empty()
    } else {
        let before = trimmed_pieces(pieces.drop_last());
        if trimmed(pieces.last()).len() == 0 {
            before
        } else {
            before.push(trimmed(pieces.last()))
        }
    }
}

/// The scan paths that a setting names: its comma-separated pieces,
/// trimmed, without the empty ones; the default where there is no setting
/// or it names none.
pub open spec fn scan_paths_of(setting: Option<Seq<char>>) -> Seq<Seq<char>> {
    match setting {
        Some(text) => if trimmed_pieces(split_on(text, ',')).len() == 0 {
            default_scan_paths()
        } else {
            trimmed_pieces(split_on(text, ','))
        },
        None => default_scan_paths(),
    }
}

/// The scan depth that a setting names; the default where there is no
/// setting or it is no number.
pub open spec fn scan_depth_of(setting: Option<Seq<char>>) -> u32 {
    match setting {
        Some(text) => match parsed_u32(text) {
            Some(depth) => depth,
            None => DEFAULT_SCAN_DEPTH,
        },
        None => DEFAULT_SCAN_DEPTH,
    }
}

/// The configuration that the entries of the host describe.
pub open spec fn config_of(entries: Seq<(Seq<char>, Seq<char>)>) -> ConfigView {
    ConfigView {
        scan_paths: scan_paths_of(value_of(entries, "scan_paths"@)),
        scan_depth: scan_depth_of(value_of(entries, "scan_depth"@)),
        theme_name: value_of(entries, "theme"@),
        theme_file: value_of(entries, "theme_file"@),
        trace_level: value_of(entries, "trace_level"@),
    }
}

fn lookup(entries: &Vec<(String, String)>, key: &str) -> (value: Option<String>)
    ensures
        optional_view(value) == value_of(entries.deep_view(), key@),
{
    let wanted = String::from_str(key);
    let mut i: usize = 0;
    assert(entries.deep_view().skip(0) =~= entries.deep_view());
    while i < entries.len()
        invariant
            i <= entries.len(),
            wanted@ == key@,
            value_of(entries.deep_view(), key@) == value_of(
                entries.deep_view().skip(i as int),
                key@,
            ),
        decreases entries.len() - i,
    {
        assert(entries.deep_view().skip(i as int)[0] == entries.deep_view()[i as int]);
        if entries[i].0 == wanted {
            return Some(entries[i].1.clone());
        }
        assert(entries.deep_view().skip(i as int).skip(1) =~= entries.deep_view().skip(i + 1));
        i += 1;
    }
    None
}

fn scan_paths(setting: &Option<String>) -> (paths: Vec<String>)
    ensures
        paths.deep_view() == scan_paths_of(optional_view(*setting)),
{
    match setting {
        Some(text) => {
            let pieces = split(text.as_str(), ',');
            let mut paths: Vec<String> = Vec::new();
            let mut i: usize = 0;
            assert(pieces.deep_view().take(0) =~= Seq::<Seq<char>>::empty());
            assert(paths.deep_view() =~= Seq::<Seq<char>>::empty());
            while i < pieces.len()
                invariant
                    i <= pieces.len(),
                    paths.deep_view() == trimmed_pieces(pieces.deep_view().take(i as int)),
                decreases pieces.len() - i,
            {
                let ghost before = paths.deep_view();
                assert(pieces.deep_view().take(i + 1).drop_last() =~= pieces.deep_view().take(
                    i as int,
                ));
                assert(pieces.deep_view().take(i + 1).last() == pieces@[i as int]@);
                let inner = trim(pieces[i].as_str());
                if !inner.as_str().is_empty() {
                    paths.push(inner);
                    assert(paths.deep_view() =~= before.push(trimmed(pieces@[i as int]@)));
                }
                i += 1;
            }
            assert(pieces.deep_view().take(pieces.len() as int) =~= pieces.deep_view());
            if paths.len() == 0 {
                assert(paths.deep_view().len() == 0);
                home_projects()
            } else {
                assert(paths.deep_view().len() == paths.len());
                paths
            }
        },
        None => home_projects(),
    }
}

/// Where the theme comes from.
#[derive(Debug, PartialEq, Eq)]
pub enum ThemeSource {
    /// The theme file at this path.
    File(String),
    /// The built-in theme of this name.
    Named(String),
    /// The default theme.
    BuiltIn,
}

impl Config {
    /// The configuration that the host's entries describe, each entry a
    /// key and a value. Of several entries with one key the first counts.
    pub fn from_zellij(config: &Vec<(String, String)>) -> (parsed: Config)
        ensures
            parsed@ == config_of(config.deep_view()),
    {
        let depth = match lookup(config, "scan_depth") {
            Some(text) => match parse_u32(text.as_str()) {
                Some(depth) => depth,
                None => 4,
            },
            None => 4,
        };
        Config {
            scan_paths: scan_paths(&lookup(config, "scan_paths")),
            scan_depth: depth,
            theme_name: lookup(config, "theme"),
            theme_file: lookup(config, "theme_file"),
            trace_level: lookup(config, "trace_level"),
        }
    }

    /// Where the theme comes from: the file if one is configured, else the
    /// named theme if one is configured, else the default.
    pub fn theme_source(&self) -> (source: ThemeSource)
        ensures
            match self@.theme_file {
                Some(path) => source is File && source->File_0@ == path,
                None => match self@.theme_name {
                    Some(name) => source is Named && source->Named_0@ == name,
                    None => source is BuiltIn,
                },
            },
    {
        match &self.theme_file {
            Some(path) => ThemeSource::File(path.clone()),
            None => match &self.theme_name {
                Some(name) => ThemeSource::Named(name.clone()),
                None => ThemeSource::BuiltIn,
            },
        }
    }
}

/// The state at start. `configured` is the theme that was loaded from the
/// configured source, if that worked; otherwise `fallback` is used.
pub fn initialize(configured: Option<Theme>, fallback: Theme) -> (state: AppState)
    ensures
        state@ == (AppStateView {
            projects: Seq::<ProjectView>::empty(),
            filtered_projects: Seq::empty(),
            selected_index: 0,
            input_mode: InputMode::Normal,
            search_query: Seq::empty(),
            view_mode: ViewMode::Sessions,
            active_sessions: Seq::empty(),
            current_session: None,
        }),
        state.theme == match configured {
            Some(theme) => theme,
            None => fallback,
        },
        state.wf(),
{
    let theme = match configured {
        Some(theme) => theme,
        None => fallback,
    };
    let projects: Vec<Project> = Vec::new();
    assert(projects.deep_view() =~= Seq::<ProjectView>::empty());
    AppState::new(projects, theme)
}

} // verus!
