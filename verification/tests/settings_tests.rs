use sicth::settings::{config_path, parse_args_inner, parse_config, ParseError, Parsed, Settings, SortKey};

fn run(argv: &[&str]) -> Result<Parsed, ParseError> {
    let v: Vec<String> = argv.iter().map(|a| a.to_string()).collect();
    parse_args_inner(&v, Settings::default())
}

fn run_settings(argv: &[&str]) -> Settings {
    match run(argv).unwrap() {
        Parsed::Run { settings, .. } => settings,
        _ => panic!("expected Run"),
    }
}

#[test]
fn parse_config_round_trips_all_keys() {
    let content = "\
show_hidden = true
recursive = true
exact = true
case_insensitive = true
quit_on_match = true
ignore_gitignore = true
follow_links = true
show_all = true
sort_by = size
dirs_first = false
reverse = true
icons = false
colors = false
bold_dirs = false
slash_dirs = false
show_cwd = false
mouse = false
fullscreen = true
popup_percent = 70
editor = nvim
open_system = true
wrap_selection = true
keep_open = true
";
    let s = parse_config(content);
    assert!(s.listing.show_hidden);
    assert!(s.listing.recursive);
    assert!(s.search.exact);
    assert!(s.search.case_insensitive);
    assert!(s.search.quit_on_match);
    assert!(s.listing.ignore_gitignore);
    assert!(s.listing.follow_links);
    assert!(s.listing.show_all);
    assert_eq!(s.listing.sort_by, SortKey::Size);
    assert!(!s.listing.dirs_first);
    assert!(s.listing.reverse);
    assert!(!s.display.icons);
    assert!(!s.display.colors);
    assert!(!s.display.bold_dirs);
    assert!(!s.display.slash_dirs);
    assert!(!s.display.show_cwd);
    assert!(!s.display.mouse);
    assert!(s.display.fullscreen);
    assert_eq!(s.display.popup_percent, 70);
    assert_eq!(s.launch.editor.as_deref(), Some("nvim"));
    assert!(s.launch.open_system);
    assert!(s.search.wrap_selection);
    assert!(s.launch.keep_open);
}

#[test]
fn apply_config_rejects_bad_bool() {
    let mut s = Settings::default();
    s.listing.show_hidden = true;
    s.apply_config("show_hidden", "nope");
    assert!(s.listing.show_hidden, "bad bool leaves field unchanged");
}

#[test]
fn apply_config_rejects_bad_sort_key() {
    let mut s = Settings::default();
    s.listing.sort_by = SortKey::Size;
    s.apply_config("sort_by", "banana");
    assert_eq!(s.listing.sort_by, SortKey::Size, "unknown sort word leaves field unchanged");
}

#[test]
fn apply_config_unknown_key_is_noop() {
    let mut s = Settings::default();
    let snap = s.clone();
    s.apply_config("nonexistent", "true");
    assert_eq!(s, snap);
}

#[test]
fn missing_config_file_returns_defaults() {
    // A missing file is read as no text at all.
    let s = parse_config("");
    assert_eq!(s, Settings::default());
}

#[test]
fn cli_overrides_config() {
    let config = parse_config("show_hidden = false\n");
    let argv = ["--config".to_string(), "/tmp/sicth_cfg/config".to_string(), "-a".to_string()];
    let parsed = parse_args_inner(&argv, config).unwrap();
    match parsed {
        Parsed::Run { settings, .. } => {
            assert!(settings.listing.show_hidden, "CLI -a overrides config show_hidden=false");
        }
        _ => panic!("expected Run"),
    }
}

#[test]
fn cluster_minus_nmc() {
    let s = run_settings(&["-nmc"]);
    assert!(!s.display.icons);
    assert!(!s.display.mouse);
    assert!(!s.display.colors);
}

#[test]
fn flag_p_glued() {
    assert_eq!(run_settings(&["-p50"]).display.popup_percent, 50);
}

#[test]
fn flag_p_separate() {
    assert_eq!(run_settings(&["-p", "50"]).display.popup_percent, 50);
}

#[test]
fn flag_p_clamps_low() {
    assert_eq!(run_settings(&["-p1"]).display.popup_percent, 10);
}

#[test]
fn flag_p_clamps_high() {
    assert_eq!(run_settings(&["-p99"]).display.popup_percent, 90);
}

#[test]
fn flag_e_glued() {
    assert_eq!(run_settings(&["-evim"]).launch.editor.as_deref(), Some("vim"));
}

#[test]
fn flag_e_separate() {
    assert_eq!(run_settings(&["-e", "vim"]).launch.editor.as_deref(), Some("vim"));
}

#[test]
fn unknown_short_flag_is_error() {
    let err = run(&["-Z"]).unwrap_err();
    assert!(format!("{err:?}").contains("-Z"), "error should mention -Z: {err:?}");
}

#[test]
fn show_all_forces_hidden_and_ignore_gitignore() {
    let s = run_settings(&["-A"]);
    assert!(s.listing.show_hidden);
    assert!(s.listing.ignore_gitignore);
    assert!(s.listing.show_all);
}

#[test]
fn flag_k_keep_open_short() {
    assert!(run_settings(&["-k"]).launch.keep_open);
}

#[test]
fn flag_keep_open_long() {
    assert!(run_settings(&["--keep-open"]).launch.keep_open);
}

#[test]
fn keep_open_defaults_off() {
    assert!(!run_settings(&[]).launch.keep_open);
}

#[test]
fn meta_setup_short_circuits() {
    assert!(matches!(run(&["--setup", "-n"]).unwrap(), Parsed::Setup));
}

#[test]
fn meta_keybinds_short_circuits() {
    assert!(matches!(run(&["--keybinds"]).unwrap(), Parsed::Keybinds));
}

#[test]
fn meta_help_short_circuits() {
    assert!(matches!(run(&["-h"]).unwrap(), Parsed::Help));
}

#[test]
fn default_settings_all_match_plan() {
    let s = Settings::default();
    assert!(!s.listing.show_hidden);
    assert!(!s.listing.recursive);
    assert!(!s.search.exact);
    assert!(s.display.icons);
    assert!(s.display.colors);
    assert!(s.display.mouse);
    assert!(s.listing.dirs_first);
    assert_eq!(s.display.popup_percent, 40);
    assert_eq!(s.listing.sort_by, SortKey::Name);
    assert!(!s.launch.keep_open);
}

// --- further cases ---

#[test]
fn meta_flag_wins_over_bad_flags() {
    assert!(matches!(run(&["-Z", "--keybinds"]).unwrap(), Parsed::Keybinds));
}

#[test]
fn cli_switch_beats_config_value() {
    let config = parse_config("mouse = true\n");
    let argv = ["-m".to_string()];
    match parse_args_inner(&argv, config).unwrap() {
        Parsed::Run { settings, .. } => assert!(!settings.display.mouse),
        _ => panic!("expected Run"),
    }
}

#[test]
fn out_file_forms() {
    match run(&["--out-file", "/tmp/o"]).unwrap() {
        Parsed::Run { out_file, .. } => assert_eq!(out_file.as_deref(), Some("/tmp/o")),
        _ => panic!("expected Run"),
    }
    match run(&["--out-file=/tmp/p"]).unwrap() {
        Parsed::Run { out_file, .. } => assert_eq!(out_file.as_deref(), Some("/tmp/p")),
        _ => panic!("expected Run"),
    }
    let err = run(&["--out-file"]).unwrap_err();
    assert!(format!("{err:?}").contains("--out-file requires a value"));
}

#[test]
fn unknown_long_flag_and_stray_argument() {
    let err = run(&["--bogus"]).unwrap_err();
    assert!(format!("{err:?}").contains("--bogus: unknown flag"));
    let err = run(&["stray"]).unwrap_err();
    assert!(format!("{err:?}").contains("unexpected argument: stray"));
}

#[test]
fn value_flags_need_values() {
    let err = run(&["-p"]).unwrap_err();
    assert!(format!("{err:?}").contains("-p requires a number 10..=90"));
    let err = run(&["-pabc"]).unwrap_err();
    assert!(format!("{err:?}").contains("-p requires a number 10..=90"));
    let err = run(&["-e"]).unwrap_err();
    assert!(format!("{err:?}").contains("-e requires a value"));
}

#[test]
fn sort_flags_and_dirs_last() {
    let s = run_settings(&["-sdv"]);
    assert_eq!(s.listing.sort_by, SortKey::Size);
    assert!(!s.listing.dirs_first);
    assert!(s.listing.reverse);
    assert_eq!(run_settings(&["-t"]).listing.sort_by, SortKey::Mtime);
}

#[test]
fn config_comments_blank_lines_and_later_lines() {
    let s = parse_config("# comment\n\n  icons = false  \nicons = true\npopup_percent = 5\nnonsense line\n= x\n");
    assert!(s.display.icons);
    assert_eq!(s.display.popup_percent, 10);
}

#[test]
fn config_path_prefers_absolute_xdg() {
    assert_eq!(
        config_path(Some("/x/cfg".to_string()), Some("/home/u".to_string())).as_deref(),
        Some("/x/cfg/sicth/config")
    );
    assert_eq!(
        config_path(Some("rel".to_string()), Some("/home/u/".to_string())).as_deref(),
        Some("/home/u/.config/sicth/config")
    );
    assert_eq!(config_path(None, Some(String::new())), None);
    assert_eq!(config_path(None, None), None);
}

#[test]
fn switch_clusters_win_over_config() {
    let config = parse_config("show_hidden = false\nicons = true\nsort_by = size\nmouse = true\n");
    let argv = ["-a".to_string(), "-nt".to_string(), "-m".to_string()];
    match parse_args_inner(&argv, config).unwrap() {
        Parsed::Run { settings, .. } => {
            assert!(settings.listing.show_hidden);
            assert!(!settings.display.icons);
            assert!(!settings.display.mouse);
            assert_eq!(settings.listing.sort_by, SortKey::Mtime);
            // Fields no flag sets keep the config's values.
            assert!(settings.display.colors);
        }
        _ => panic!("expected Run"),
    }
}

#[test]
fn config_file_then_flag_clusters() {
    let config = parse_config("show_hidden = false\npopup_percent = 60\neditor = nano\ncolors = false\n");
    let argv = ["--config".to_string(), "/tmp/cfg".to_string(), "-a".to_string(), "-nA".to_string()];
    match parse_args_inner(&argv, config).unwrap() {
        Parsed::Run { settings, out_file } => {
            assert!(settings.listing.show_hidden);
            assert!(settings.listing.show_all);
            assert!(settings.listing.ignore_gitignore);
            assert!(!settings.display.icons);
            assert!(!settings.display.colors);
            assert_eq!(settings.display.popup_percent, 60);
            assert_eq!(settings.launch.editor.as_deref(), Some("nano"));
            assert_eq!(out_file, None);
        }
        _ => panic!("expected Run"),
    }
}
