use zessionizer::config::ThemeSource;
use zessionizer::document::Json;
use zessionizer::infrastructure::{
    expand_tilde, find_layout_for_project, get_data_dir, layout_candidates, strip_host_prefix,
};
use zessionizer::ui::{Theme, ThemeColors};
use zessionizer::{initialize, Config, InputMode, ViewMode};

fn pairs(entries: &[(&str, &str)]) -> Vec<(String, String)> {
    entries.iter().map(|(k, v)| (k.to_string(), v.to_string())).collect()
}

fn theme(name: &str) -> Theme {
    Theme {
        name: name.to_string(),
        colors: ThemeColors {
            header_fg: "#ffffff".to_string(),
            header_bg: Some("#101010".to_string()),
            selection_fg: "#000000".to_string(),
            selection_bg: "#ffffff".to_string(),
            text_normal: "#cccccc".to_string(),
            text_dim: "#888888".to_string(),
            border: "#444444".to_string(),
            search_bar_border: "#444444".to_string(),
            match_highlight_fg: "#ff0000".to_string(),
            match_highlight_bg: "#000000".to_string(),
            empty_state_fg: "#888888".to_string(),
            active_session_fg: "#00ff00".to_string(),
        },
    }
}

#[test]
fn data_dir_is_fixed() {
    assert_eq!(get_data_dir(), "/host/.local/share/zellij/zessionizer");
}

#[test]
fn tilde_expands_to_host() {
    assert_eq!(expand_tilde("~/projects"), "/host/projects");
    assert_eq!(expand_tilde("~"), "/host");
    assert_eq!(expand_tilde("/absolute/path"), "/absolute/path");
    assert_eq!(expand_tilde("~user/x"), "~user/x");
    assert_eq!(expand_tilde(""), "");
    assert_eq!(expand_tilde("a/~/b"), "a/~/b");
}

#[test]
fn host_prefix_is_stripped_once() {
    assert_eq!(strip_host_prefix("/host/home/user/project"), "/home/user/project");
    assert_eq!(strip_host_prefix("/absolute/path"), "/absolute/path");
    assert_eq!(strip_host_prefix("/host"), "");
    assert_eq!(strip_host_prefix("/host/host/x"), "/host/x");
    assert_eq!(strip_host_prefix("/hostile"), "ile");
}

#[test]
fn layout_candidates_in_order_of_preference() {
    assert_eq!(
        layout_candidates("dotfiles"),
        vec![
            "/host/.config/zellij/layouts/dotfiles.kdl",
            "/host/.config/zellij/layouts/dotfiles.yaml",
            "/host/.config/zellij/layouts/dotfiles.yml",
        ]
    );
}

#[test]
fn layout_is_first_existing_candidate() {
    assert_eq!(
        find_layout_for_project("p", &vec![false, true, true]),
        Some("/host/.config/zellij/layouts/p.yaml".to_string())
    );
    assert_eq!(
        find_layout_for_project("p", &vec![true]),
        Some("/host/.config/zellij/layouts/p.kdl".to_string())
    );
    assert_eq!(
        find_layout_for_project("p", &vec![false, false, true, true]),
        Some("/host/.config/zellij/layouts/p.yml".to_string())
    );
    assert_eq!(find_layout_for_project("p", &vec![false, false, false, true]), None);
    assert_eq!(find_layout_for_project("p", &vec![]), None);
}

#[test]
fn default_config() {
    let config = Config::default();
    assert_eq!(config.scan_paths, vec!["~/Projects"]);
    assert_eq!(config.scan_depth, 4);
    assert_eq!(config.theme_name, None);
    assert_eq!(config.theme_file, None);
    assert_eq!(config.trace_level, None);
    assert_eq!(Config::from_zellij(&vec![]), config);
}

#[test]
fn config_reads_every_setting() {
    let config = Config::from_zellij(&pairs(&[
        ("scan_depth", "7"),
        ("scan_paths", " ~/code , /srv/git ,, "),
        ("theme", "catppuccin-latte"),
        ("theme_file", "/t.toml"),
        ("trace_level", "debug"),
        ("unknown", "x"),
    ]));
    assert_eq!(config.scan_paths, vec!["~/code", "/srv/git"]);
    assert_eq!(config.scan_depth, 7);
    assert_eq!(config.theme_name, Some("catppuccin-latte".to_string()));
    assert_eq!(config.theme_file, Some("/t.toml".to_string()));
    assert_eq!(config.trace_level, Some("debug".to_string()));
}

#[test]
fn config_falls_back_on_unusable_settings() {
    let config = Config::from_zellij(&pairs(&[("scan_depth", "deep"), ("scan_paths", " , ,")]));
    assert_eq!(config.scan_paths, vec!["~/Projects"]);
    assert_eq!(config.scan_depth, 4);
    let negative = Config::from_zellij(&pairs(&[("scan_depth", "-1"), ("scan_paths", "")]));
    assert_eq!(negative.scan_depth, 4);
    assert_eq!(negative.scan_paths, vec!["~/Projects"]);
    let first = Config::from_zellij(&pairs(&[("scan_depth", "2"), ("scan_depth", "3")]));
    assert_eq!(first.scan_depth, 2);
}

#[test]
fn theme_source_prefers_file_over_name() {
    let mut config = Config::default();
    assert_eq!(config.theme_source(), ThemeSource::BuiltIn);
    config.theme_name = Some("n".to_string());
    assert_eq!(config.theme_source(), ThemeSource::Named("n".to_string()));
    config.theme_file = Some("/f".to_string());
    assert_eq!(config.theme_source(), ThemeSource::File("/f".to_string()));
}

#[test]
fn initialize_uses_configured_theme_or_fallback() {
    let state = initialize(Some(theme("configured")), theme("fallback"));
    assert_eq!(state.theme.name, "configured");
    assert!(state.projects.is_empty());
    assert_eq!(state.input_mode, InputMode::Normal);
    assert_eq!(state.view_mode, ViewMode::Sessions);
    let state = initialize(None, theme("fallback"));
    assert_eq!(state.theme.name, "fallback");
    assert_eq!(state.theme.clone(), theme("fallback"));
}

#[test]
fn hex_colors_parse_to_channels() {
    assert_eq!(Theme::hex_to_rgb("#ff8000"), (255, 128, 0));
    assert_eq!(Theme::hex_to_rgb("1e1e2e"), (30, 30, 46));
    assert_eq!(Theme::hex_to_rgb("##ABCDEF"), (171, 205, 239));
    assert_eq!(Theme::hex_to_rgb("# 000000 "), (0, 0, 0));
}

#[test]
fn bad_hex_colors_are_white_or_bright() {
    assert_eq!(Theme::hex_to_rgb(""), (255, 255, 255));
    assert_eq!(Theme::hex_to_rgb("#fff"), (255, 255, 255));
    assert_eq!(Theme::hex_to_rgb("#1234567"), (255, 255, 255));
    assert_eq!(Theme::hex_to_rgb("#gg0010"), (255, 0, 16));
}

#[test]
fn color_escape_sequences() {
    assert_eq!(Theme::fg("#ff8000"), "\u{1b}[38;2;255;128;0m");
    assert_eq!(Theme::bg("#0a0b0c"), "\u{1b}[48;2;10;11;12m");
    assert_eq!(Theme::fg("nonsense"), "\u{1b}[38;2;255;255;255m");
    assert_eq!(Theme::bold(), "\u{1b}[1m");
    assert_eq!(Theme::dim(), "\u{1b}[2m");
    assert_eq!(Theme::reset(), "\u{1b}[0m");
}

fn member(key: &str, value: &str) -> (String, Json) {
    (key.to_string(), Json::Text(value.to_string()))
}

fn theme_document(with_header_bg: bool) -> Json {
    let mut colors = vec![
        member("header_fg", "#ffffff"),
        member("selection_fg", "#000000"),
        member("selection_bg", "#ffffff"),
        member("text_normal", "#cccccc"),
        member("text_dim", "#888888"),
        member("border", "#444444"),
        member("search_bar_border", "#444444"),
        member("match_highlight_fg", "#ff0000"),
        member("match_highlight_bg", "#000000"),
        member("empty_state_fg", "#888888"),
        member("active_session_fg", "#00ff00"),
    ];
    if with_header_bg {
        colors.push(member("header_bg", "#101010"));
    }
    Json::Object(vec![member("name", "t"), ("colors".to_string(), Json::Object(colors))])
}

#[test]
fn theme_reads_from_a_document() {
    assert_eq!(Theme::from_document(&theme_document(true)), Some(theme("t")));
    let without = Theme::from_document(&theme_document(false)).unwrap();
    assert_eq!(without.colors.header_bg, None);
    assert_eq!(without.colors.active_session_fg, "#00ff00");
}

#[test]
fn theme_needs_its_name_and_every_color() {
    assert_eq!(Theme::from_document(&Json::Null), None);
    assert_eq!(Theme::from_document(&Json::Object(vec![member("name", "t")])), None);
    assert_eq!(
        Theme::from_document(&Json::Object(vec![member("name", "t"), member("colors", "x")])),
        None
    );
    for missing in 0..11 {
        let Json::Object(mut top) = theme_document(false) else { unreachable!() };
        let Json::Object(colors) = &mut top[1].1 else { unreachable!() };
        colors.remove(missing);
        assert_eq!(Theme::from_document(&Json::Object(top)), None);
    }
    let Json::Object(mut top) = theme_document(true) else { unreachable!() };
    top.remove(0);
    assert_eq!(Theme::from_document(&Json::Object(top)), None);
    let Json::Object(mut top) = theme_document(false) else { unreachable!() };
    let Json::Object(colors) = &mut top[1].1 else { unreachable!() };
    colors.push(("header_bg".to_string(), Json::Integer(3)));
    assert_eq!(Theme::from_document(&Json::Object(top)), None);
}
