use sicth::app::{App, Mode};
use sicth::model::{Entry, Kind};
use sicth::render::{
    button_style, entry_line, glyph, highlight_row, highlight_style, list_height, placeholder_style,
    query_bar, Color, Style,
};
use sicth::settings::Settings;

fn entry(rel: &str, kind: Kind) -> Entry {
    Entry { rel: rel.to_string(), abs: format!("/x/{rel}"), kind, size: 0, mtime: None }
}

#[test]
fn glyphs_by_kind_and_extension() {
    assert_eq!(glyph("src", true, false), ('\u{f07b}', Color::Blue));
    assert_eq!(glyph("main.rs", false, false), ('\u{f121}', Color::Yellow));
    assert_eq!(glyph("Photo.JPG", false, false), ('\u{f1c5}', Color::Magenta));
    assert_eq!(glyph("a.tar.gz", false, false), ('\u{f410}', Color::Red));
    assert_eq!(glyph("notes.md", false, false), ('\u{f15c}', Color::White));
    assert_eq!(glyph("Cargo.lock", false, false), ('\u{e615}', Color::Cyan));
    assert_eq!(glyph("song.flac", false, false), ('\u{f1c7}', Color::Cyan));
    assert_eq!(glyph("clip.webm", false, false), ('\u{f1c8}', Color::Magenta));
    assert_eq!(glyph("doc.pdf", false, false), ('\u{f1c1}', Color::Red));
    assert_eq!(glyph("tool.AppImage", false, false), ('\u{f489}', Color::Green));
    assert_eq!(glyph("configure", false, true), ('\u{f489}', Color::Green));
    assert_eq!(glyph("README", false, false), ('\u{f016}', Color::White));
    assert_eq!(glyph("run.sh.bak", false, true), ('\u{f016}', Color::White));
}

#[test]
fn entry_lines_follow_display_settings() {
    let s = Settings::default();
    let d = entry_line(&entry("docs", Kind::Dir), s.display, false);
    assert_eq!(d.icon, Some('\u{f07b}'));
    assert_eq!(d.label, "docs/");
    assert_eq!(d.style, Style { fg: Some(Color::Blue), bg: None, bold: true, italic: false, reversed: false });
    let mut plain = Settings::default();
    plain.display.colors = false;
    plain.display.slash_dirs = false;
    let p = entry_line(&entry("docs", Kind::Dir), plain.display, false);
    assert_eq!(p.icon, None);
    assert_eq!(p.label, "docs");
    assert_eq!(p.style.fg, None);
    assert!(!p.style.bold);
    let mut no_icons = Settings::default();
    no_icons.display.icons = false;
    no_icons.display.bold_dirs = false;
    let n = entry_line(&entry("docs", Kind::Dir), no_icons.display, false);
    assert_eq!(n.icon, None);
    assert!(!n.style.bold);
    assert_eq!(n.style.fg, Some(Color::Blue));
    assert!(highlight_style(plain.display).reversed);
    assert_eq!(highlight_style(s.display).bg, Some(Color::DarkGray));
}

#[test]
fn highlighted_row() {
    assert_eq!(highlight_row(5, 3, 4), Some(2));
    assert_eq!(highlight_row(9, 3, 4), None);
    assert_eq!(highlight_row(1, 3, 4), Some(0));
    assert_eq!(highlight_row(0, 0, 0), None);
}

#[test]
fn query_bar_shows_cwd_or_query() {
    let mut app = App::new("/home/user/projects".to_string(), Settings::default());
    let bar = query_bar(&app, 80);
    assert_eq!(bar.buttons, Some((false, false, true)));
    assert_eq!(bar.text, "/home/user/projects");
    assert!(bar.placeholder);
    assert_eq!(bar.cursor, 4);
    let narrow = query_bar(&app, 10);
    assert_eq!(narrow.text, "/home\u{2026}");
    app.set_query("abc".into());
    let typed = query_bar(&app, 10);
    assert_eq!(typed.text, "abc");
    assert!(!typed.placeholder);
    assert_eq!(typed.cursor, 7);
    let mut quiet = Settings::default();
    quiet.display.mouse = false;
    quiet.display.show_cwd = false;
    let app2 = App::new("/".to_string(), quiet);
    let b2 = query_bar(&app2, 80);
    assert_eq!(b2.buttons, None);
    assert_eq!(b2.text, "");
    assert_eq!(b2.cursor, 0);
}

#[test]
fn bar_styles_and_list_height() {
    let s = Settings::default();
    assert_eq!(button_style(true, s.display), Style { fg: Some(Color::Cyan), bg: None, bold: true, italic: false, reversed: false });
    assert_eq!(button_style(false, s.display).fg, Some(Color::DarkGray));
    let mut mono = Settings::default();
    mono.display.colors = false;
    assert_eq!(button_style(true, mono.display), Style { fg: None, bg: None, bold: false, italic: false, reversed: false });
    assert!(placeholder_style(mono.display).italic);
    assert_eq!(placeholder_style(s.display).fg, Some(Color::DarkGray));
    assert_eq!(list_height(Mode::Command, 10), 9);
    assert_eq!(list_height(Mode::Command, 0), 0);
    assert_eq!(list_height(Mode::Search, 10), 10);
}
