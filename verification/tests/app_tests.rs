use sicth::app::{
    dispatch, App, Cmd, Effect, KeyCode, KeyEvent, KeyModifiers, Mode, MouseButton, MouseEvent,
    MouseEventKind, Rect,
};
use sicth::model::{browse, Entry, Kind};
use sicth::settings::{Settings, SortKey};

const ROOT: &str = "/tmp/sicth_app_fixture";

/// The raw entries of a fixture directory with `n` entries: every third one a
/// directory `dir_i`, the others files `file_i.txt`.
fn fixture(dir: &str, n: usize) -> Vec<Entry> {
    let mut v = Vec::new();
    for i in 0..n {
        let (rel, kind) = if i % 3 == 0 {
            (format!("dir_{i}"), Kind::Dir)
        } else {
            (format!("file_{i}.txt"), Kind::File)
        };
        v.push(Entry { abs: format!("{dir}/{rel}"), rel, kind, size: 4, mtime: None });
    }
    v
}

/// Carries out the pending effects as the driver would: listings come from `fixture`.
fn settle(app: &mut App, n: usize) {
    for e in app.take_effects() {
        if let Effect::Reload = e {
            let raw = fixture(&app.cwd.clone(), n);
            let s = &app.settings.listing;
            let listed = browse(raw, app.show_hidden, s.sort_by, s.dirs_first, s.reverse);
            app.set_entries(listed);
        }
    }
}

fn app_with_entries(n: usize) -> App {
    let mut app = App::new(ROOT.to_string(), Settings::default());
    settle(&mut app, n);
    app
}

fn key(code: KeyCode) -> KeyEvent {
    KeyEvent::new(code, KeyModifiers::none())
}

/// The matches that the matcher reports for the query "dir" over the fixture.
fn dir_matches(n: usize) -> Vec<Entry> {
    fixture(ROOT, n).into_iter().filter(|e| e.rel.contains("dir")).collect()
}

#[test]
fn plain_arrows_move_selection() {
    let mut app = app_with_entries(5);
    app.last_area = Rect::new(0, 0, 80, 20);
    app.on_key(key(KeyCode::Down));
    assert_eq!(app.selected, 1, "Down should move selection from 0 to 1");
    app.on_key(key(KeyCode::Up));
    assert_eq!(app.selected, 0, "Up should move selection from 1 to 0");
}

#[test]
fn backspace_multibyte_does_not_panic() {
    let mut app = app_with_entries(1);
    app.set_query("hé".into());
    assert_eq!(app.query, "hé");
    app.on_key(key(KeyCode::Backspace));
    assert_eq!(app.query, "h");
}

#[test]
fn selection_scroll_past_viewport() {
    let mut app = app_with_entries(15);
    app.last_area = Rect::new(0, 0, 80, 5);
    assert_eq!(app.selectable_count(), 15);
    for _ in 0..10 {
        app.on_key(key(KeyCode::Down));
    }
    assert_eq!(app.selected, 10, "selection reaches past viewport");
    app.ensure_selection_visible();
    assert_eq!(app.scroll_offset, 7, "scroll_offset = selected - rows + 1");
}

#[test]
fn typing_enters_search_and_stays_alive() {
    let mut app = app_with_entries(1);
    app.last_area = Rect::new(0, 0, 80, 20);
    let cmd = app.on_key(key(KeyCode::Char('a')));
    assert_eq!(cmd, Cmd::Nothing, "typing should not quit");
    assert_eq!(app.query, "a");
    assert_eq!(app.mode, Mode::Search);
}

#[test]
fn bang_enters_command_mode_without_walker() {
    let mut app = app_with_entries(5);
    app.last_area = Rect::new(0, 0, 80, 20);
    app.on_key(key(KeyCode::Char('!')));
    assert_eq!(app.mode, Mode::Command);
    assert_eq!(app.query, "!");
    assert!(!app.walker);
}

#[test]
fn bare_bang_enter_is_noop() {
    let mut app = app_with_entries(1);
    app.last_area = Rect::new(0, 0, 80, 20);
    app.set_query("!".into());
    assert_eq!(app.mode, Mode::Command);
    let cmd = app.on_key(key(KeyCode::Enter));
    assert_eq!(cmd, Cmd::Nothing);
    assert_eq!(app.mode, Mode::Command);
}

#[test]
fn command_enter_yields_run_command() {
    let mut app = app_with_entries(1);
    app.last_area = Rect::new(0, 0, 80, 20);
    app.set_query("!echo hi".into());
    let cmd = app.on_key(key(KeyCode::Enter));
    assert_eq!(cmd, Cmd::RunCommand("echo hi".to_string()));
}

#[test]
fn command_to_search_restarts_walker() {
    let mut app = app_with_entries(5);
    app.last_area = Rect::new(0, 0, 80, 20);
    app.set_query("!x".into());
    assert_eq!(app.mode, Mode::Command);
    app.set_query("x".into());
    assert_eq!(app.mode, Mode::Search);
    assert!(app.walker);
}

#[test]
fn ctrl_d_u_half_page_jump() {
    let mut app = app_with_entries(20);
    app.last_area = Rect::new(0, 0, 80, 11);
    let ctrl = KeyModifiers::control();
    app.on_key(KeyEvent::new(KeyCode::Char('d'), ctrl));
    assert_eq!(app.selected, 5);
    app.on_key(KeyEvent::new(KeyCode::Char('d'), ctrl));
    assert_eq!(app.selected, 10);
    app.on_key(KeyEvent::new(KeyCode::Char('u'), ctrl));
    assert_eq!(app.selected, 5);
}

#[test]
fn nav_back_forward_buttons() {
    let mut app = app_with_entries(5);
    app.last_area = Rect::new(0, 0, 80, 20);
    let dir = ROOT.to_string();
    let sub = format!("{ROOT}/dir_0");
    assert!(app.browse_entries.iter().any(|e| e.abs == sub));

    app.set_dir(sub.clone());
    assert_eq!(app.cwd, sub);
    assert_eq!(app.nav_back.len(), 1);
    assert!(app.nav_forward.is_empty());

    app.navigate_back();
    assert_eq!(app.cwd, dir);
    assert!(app.nav_back.is_empty());
    assert_eq!(app.nav_forward.len(), 1);

    app.navigate_forward();
    assert_eq!(app.cwd, sub);
    assert_eq!(app.nav_back.len(), 1);
    assert!(app.nav_forward.is_empty());
}

#[test]
fn command_mode_shows_list_and_navigates() {
    let mut app = app_with_entries(5);
    app.last_area = Rect::new(0, 0, 80, 20);
    app.set_query("!".into());
    assert_eq!(app.mode, Mode::Command);
    assert_eq!(app.item_count(), 5);
    assert_eq!(app.visible(10).len(), 5);
    app.on_key(key(KeyCode::Down));
    assert_eq!(app.selected, 1, "Down in Command mode should move selection to 1");
    let cmd = app.on_key(key(KeyCode::Right));
    match cmd {
        Cmd::EnterDir(_) | Cmd::Nothing => {}
        _ => panic!("Unexpected command on Right arrow in Command mode: {:?}", cmd),
    }
}

#[test]
fn alt_enter_quits_search_match_without_z() {
    let mut app = app_with_entries(5);
    app.last_area = Rect::new(0, 0, 80, 20);
    app.set_query("dir".into());
    settle(&mut app, 5);
    app.set_matches(dir_matches(5));
    let count = app.item_count();
    assert!(count > 0, "nucleo should have matched items, got {count}");
    app.selected = 0;
    assert!(matches!(app.on_key(KeyEvent::new(KeyCode::Enter, KeyModifiers::alt())), Cmd::QuitToDir(_)));
    assert!(matches!(app.on_key(key(KeyCode::Enter)), Cmd::EnterDir(_)));
}

#[test]
fn z_flag_quits_on_plain_enter() {
    let mut s = Settings::default();
    s.search.quit_on_match = true;
    let mut app = App::new(ROOT.to_string(), s);
    settle(&mut app, 5);
    app.last_area = Rect::new(0, 0, 80, 20);
    app.set_query("dir".into());
    settle(&mut app, 5);
    app.set_matches(dir_matches(5));
    let count = app.item_count();
    assert!(count > 0, "nucleo should have matched items, got {count}");
    app.selected = 0;
    assert!(matches!(app.on_key(key(KeyCode::Enter)), Cmd::QuitToDir(_)));
}

#[test]
fn dispatch_noop_is_not_quit() {
    let dir = "/tmp/sicth_main_noop".to_string();
    let sub = format!("{dir}/child");
    let mut app = App::new(dir, Settings::default());
    assert!(dispatch(&mut app, Cmd::Nothing).is_none());
    assert_eq!(dispatch(&mut app, Cmd::QuitCd), Some(Cmd::QuitCd));
    let p = "/tmp/test.txt".to_string();
    assert_eq!(dispatch(&mut app, Cmd::OpenFile(p.clone())), Some(Cmd::OpenFile(p)));

    let mut app2 = App::new(sub, Settings::default());
    let parent = std::path::Path::new(&app2.cwd).parent().unwrap().to_string_lossy().into_owned();
    assert!(dispatch(&mut app2, Cmd::ParentDir).is_none());
    assert_eq!(app2.cwd, parent);
}

#[test]
fn dispatch_propagates_run_command() {
    let mut app = App::new("/tmp/sicth_main_run_cmd".to_string(), Settings::default());
    assert_eq!(
        dispatch(&mut app, Cmd::RunCommand("ls".into())),
        Some(Cmd::RunCommand("ls".into()))
    );
}

// --- further cases: what holds across steps ---

#[test]
fn back_after_set_dir_restores_directory() {
    let mut app = app_with_entries(3);
    app.set_dir(format!("{ROOT}/dir_0"));
    app.set_dir(format!("{ROOT}/dir_0/inner"));
    app.navigate_back();
    assert_eq!(app.cwd, format!("{ROOT}/dir_0"));
    assert_eq!(app.nav_back, vec![ROOT.to_string()]);
    assert_eq!(app.nav_forward, vec![format!("{ROOT}/dir_0/inner")]);
    app.navigate_forward();
    assert_eq!(app.cwd, format!("{ROOT}/dir_0/inner"));
    // With no history left, "forward" changes nothing.
    app.navigate_forward();
    assert_eq!(app.cwd, format!("{ROOT}/dir_0/inner"));
}

#[test]
fn wrap_selection_both_ways() {
    let mut s = Settings::default();
    s.search.wrap_selection = true;
    let mut app = App::new(ROOT.to_string(), s);
    settle(&mut app, 4);
    app.on_key(key(KeyCode::Up));
    assert_eq!(app.selected, 3);
    app.on_key(key(KeyCode::Down));
    assert_eq!(app.selected, 0);
    // Without wrapping the ends hold.
    let mut plain = app_with_entries(4);
    plain.on_key(key(KeyCode::Up));
    assert_eq!(plain.selected, 0);
    plain.selected = 3;
    plain.on_key(KeyEvent::new(KeyCode::Char('j'), KeyModifiers::control()));
    assert_eq!(plain.selected, 3);
}

#[test]
fn esc_clears_then_quits() {
    let mut app = app_with_entries(3);
    app.on_key(key(KeyCode::Char('x')));
    assert_eq!(app.on_key(key(KeyCode::Esc)), Cmd::Nothing);
    assert_eq!(app.query, "");
    assert_eq!(app.mode, Mode::Browse);
    assert!(!app.walker);
    assert_eq!(app.on_key(key(KeyCode::Esc)), Cmd::QuitCd);
    assert_eq!(app.on_key(KeyEvent::new(KeyCode::Char('c'), KeyModifiers::control())), Cmd::QuitNoCd);
}

#[test]
fn backspace_on_empty_query_asks_for_parent() {
    let mut app = app_with_entries(3);
    assert_eq!(app.on_key(key(KeyCode::Backspace)), Cmd::ParentDir);
    assert_eq!(app.on_key(key(KeyCode::Left)), Cmd::ParentDir);
    assert_eq!(app.on_key(KeyEvent::new(KeyCode::Char('h'), KeyModifiers::control())), Cmd::ParentDir);
}

#[test]
fn right_never_opens_files() {
    let mut app = app_with_entries(3);
    // Sorted: dir_0 first, then file_1.txt and file_2.txt.
    app.selected = 1;
    assert_eq!(app.on_key(key(KeyCode::Right)), Cmd::Nothing);
    assert_eq!(app.on_key(key(KeyCode::Enter)), Cmd::OpenFile(format!("{ROOT}/file_1.txt")));
    assert_eq!(
        app.on_key(KeyEvent::new(KeyCode::Char('l'), KeyModifiers::control())),
        Cmd::OpenFile(format!("{ROOT}/file_1.txt"))
    );
    app.selected = 0;
    assert_eq!(app.on_key(key(KeyCode::Right)), Cmd::EnterDir(format!("{ROOT}/dir_0")));
    app.selected = 9;
    assert_eq!(app.on_key(key(KeyCode::Enter)), Cmd::Nothing);
}

#[test]
fn search_effects_tell_the_matcher_what_grew() {
    let mut app = app_with_entries(3);
    app.on_key(key(KeyCode::Char('a')));
    let effects = app.take_effects();
    assert!(matches!(effects[0], Effect::StartWalker));
    match &effects[1] {
        Effect::Reparse { text, ignore_case, append } => {
            assert_eq!(text, "a");
            assert!(!ignore_case);
            assert!(append);
        }
        other => panic!("unexpected effect {other:?}"),
    }
    app.on_key(key(KeyCode::Backspace));
    let effects = app.take_effects();
    assert!(matches!(effects[0], Effect::StopWalker));
    assert!(matches!(effects[1], Effect::Reload));
    assert_eq!(app.mode, Mode::Browse);
}

#[test]
fn exact_mode_quotes_each_word() {
    let mut s = Settings::default();
    s.search.exact = true;
    s.search.case_insensitive = true;
    let mut app = App::new(ROOT.to_string(), s);
    settle(&mut app, 3);
    app.set_query("foo  'bar baz".into());
    let effects = app.take_effects();
    match effects.last().unwrap() {
        Effect::Reparse { text, ignore_case, append } => {
            assert_eq!(text, "'foo 'bar 'baz");
            assert!(ignore_case);
            assert!(!append);
        }
        other => panic!("unexpected effect {other:?}"),
    }
}

#[test]
fn mouse_click_double_click_and_scroll() {
    let mut app = app_with_entries(6);
    let area = Rect::new(0, 0, 80, 10);
    let click = MouseEvent { kind: MouseEventKind::Down(MouseButton::Left), column: 5, row: 2 };
    assert_eq!(app.on_mouse(click, area, 1000), Cmd::Nothing);
    assert_eq!(app.selected, 1);
    // A second click after 300 ms only selects again.
    assert_eq!(app.on_mouse(click, area, 1300), Cmd::Nothing);
    // Within 300 ms it activates the entry.
    let cmd = app.on_mouse(click, area, 1500);
    assert_eq!(cmd, Cmd::EnterDir(format!("{ROOT}/dir_3")));
    let down = MouseEvent { kind: MouseEventKind::ScrollDown, column: 5, row: 2 };
    app.on_mouse(down, area, 2000);
    assert_eq!(app.selected, 4);
    app.on_mouse(down, area, 2001);
    assert_eq!(app.selected, 5);
    let up = MouseEvent { kind: MouseEventKind::ScrollUp, column: 5, row: 2 };
    app.on_mouse(up, area, 2002);
    assert_eq!(app.selected, 2);
    // Below the entries nothing happens.
    let far = MouseEvent { kind: MouseEventKind::Down(MouseButton::Left), column: 5, row: 9 };
    assert_eq!(app.on_mouse(far, area, 3000), Cmd::Nothing);
    assert_eq!(app.selected, 2);
}

#[test]
fn mouse_buttons_on_query_row() {
    let mut app = app_with_entries(3);
    let area = Rect::new(0, 0, 80, 10);
    let at = |col: u16| MouseEvent { kind: MouseEventKind::Down(MouseButton::Left), column: col, row: 0 };
    // No history: back and forward do nothing.
    assert_eq!(app.on_mouse(at(0), area, 0), Cmd::Nothing);
    assert_eq!(app.on_mouse(at(2), area, 0), Cmd::ParentDir);
    app.set_dir(format!("{ROOT}/dir_0"));
    app.on_mouse(at(0), area, 0);
    assert_eq!(app.cwd, ROOT);
    app.on_mouse(at(1), area, 0);
    assert_eq!(app.cwd, format!("{ROOT}/dir_0"));
    let mut root = App::new("/".to_string(), Settings::default());
    assert_eq!(root.on_mouse(at(2), area, 0), Cmd::Nothing);
}

#[test]
fn toggle_hidden_and_rebuild() {
    let mut app = app_with_entries(3);
    app.on_key(KeyEvent::new(KeyCode::Char('.'), KeyModifiers::control()));
    assert!(app.show_hidden);
    assert!(matches!(app.take_effects().last(), Some(Effect::Reload)));
    assert!(app.browse_entries.is_empty());
    assert!(dispatch(&mut app, Cmd::RebuildList).is_none());
    assert!(matches!(app.take_effects().last(), Some(Effect::Reload)));
}

#[test]
fn visible_window_and_sorting() {
    let mut s = Settings::default();
    s.listing.sort_by = SortKey::Name;
    let mut app = App::new(ROOT.to_string(), s);
    settle(&mut app, 6);
    app.scroll_offset = 2;
    let shown: Vec<String> = app.visible(2).into_iter().map(|e| e.rel).collect();
    assert_eq!(shown, vec!["file_1.txt".to_string(), "file_2.txt".to_string()]);
    app.scroll_offset = 10;
    assert!(app.visible(5).is_empty());
}

#[test]
fn exact_typing_only_extends_the_pattern() {
    let mut s = Settings::default();
    s.search.exact = true;
    let mut app = App::new(ROOT.to_string(), s);
    settle(&mut app, 3);
    let mut last = String::new();
    for c in "ab c".chars() {
        app.on_key(key(KeyCode::Char(c)));
        for e in app.take_effects() {
            if let Effect::Reparse { text, append, .. } = e {
                assert!(append);
                assert!(text.starts_with(&last));
                last = text;
            }
        }
    }
    assert_eq!(last, "'ab 'c");
}

#[test]
fn quit_on_match_only_for_search_matches() {
    let mut s = Settings::default();
    s.search.quit_on_match = true;
    let mut app = App::new(ROOT.to_string(), s);
    settle(&mut app, 3);
    // In Browse mode Enter still enters the directory.
    assert_eq!(app.on_key(key(KeyCode::Enter)), Cmd::EnterDir(format!("{ROOT}/dir_0")));
}

#[test]
fn plain_dot_toggles_hidden_on_empty_query() {
    let mut app = app_with_entries(3);
    let before = app.show_hidden;
    assert_eq!(app.on_key(key(KeyCode::Char('.'))), Cmd::Nothing);
    assert_eq!(app.show_hidden, !before);
    assert_eq!(app.query, "");
    assert_eq!(app.mode, Mode::Browse);
    assert!(matches!(app.take_effects().last(), Some(Effect::Reload)));
    // With a query, a dot is typed into it.
    app.on_key(key(KeyCode::Char('a')));
    app.on_key(key(KeyCode::Char('.')));
    assert_eq!(app.query, "a.");
    assert_eq!(app.show_hidden, !before);
}
