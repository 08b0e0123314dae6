use sicth::help::{keybinds, usage};
use sicth::model::{browse, browse_recursive, sort, Entry, Kind};
use sicth::settings::SortKey;

fn e(rel: &str, kind: Kind, size: u64, mtime: Option<i128>) -> Entry {
    Entry { rel: rel.to_string(), abs: format!("/d/{rel}"), kind, size, mtime }
}

fn names(v: &[Entry]) -> Vec<&str> {
    v.iter().map(|x| x.rel.as_str()).collect()
}

#[test]
fn browse_hides_dotfiles_and_puts_dirs_first() {
    let raw = vec![
        e("b.txt", Kind::File, 1, None),
        e(".hidden", Kind::File, 1, None),
        e("Zeta", Kind::Dir, 0, None),
        e("alpha", Kind::Dir, 0, None),
        e("A.txt", Kind::File, 1, None),
    ];
    let out = browse(raw, false, SortKey::Name, true, false);
    assert_eq!(names(&out), vec!["alpha", "Zeta", "A.txt", "b.txt"]);
}

#[test]
fn browse_shows_hidden_dirs_last_and_reverse() {
    let raw = vec![e("b", Kind::File, 1, None), e(".git", Kind::Dir, 0, None), e("a", Kind::File, 1, None)];
    let shown = browse(raw, true, SortKey::Name, false, false);
    assert_eq!(names(&shown), vec!["a", "b", ".git"]);
    let raw = vec![e("b", Kind::File, 1, None), e("c", Kind::Dir, 0, None), e("a", Kind::File, 1, None)];
    let rev = browse(raw, false, SortKey::Name, true, true);
    assert_eq!(names(&rev), vec!["b", "a", "c"]);
}

#[test]
fn sort_by_size_and_mtime() {
    let mut v = vec![e("s", Kind::File, 1, Some(5)), e("l", Kind::File, 9, None), e("m", Kind::File, 5, Some(7)), e("k", Kind::File, 5, Some(1))];
    sort(&mut v, SortKey::Size, true, false);
    assert_eq!(names(&v), vec!["l", "k", "m", "s"]);
    sort(&mut v, SortKey::Mtime, true, false);
    // Newest first, unknown times last.
    assert_eq!(names(&v), vec!["m", "s", "k", "l"]);
}

#[test]
fn recursive_listing_is_sorted() {
    let walked = vec![e("x/y.rs", Kind::File, 1, None), e("x", Kind::Dir, 0, None), e("a.rs", Kind::File, 1, None)];
    let out = browse_recursive(walked, SortKey::Name, true, false);
    assert_eq!(names(&out), vec!["x", "a.rs", "x/y.rs"]);
}

#[test]
fn help_texts_list_flags_and_keys() {
    assert!(usage().starts_with("sicth"));
    assert!(usage().contains("-p N  popup height %"));
    assert!(usage().contains("--config <path>"));
    assert!(usage().contains("-k  keep open"));
    assert!(usage().contains("--keep-open"));
    assert!(keybinds().contains("Alt+Enter"));
    assert!(keybinds().contains("Ctrl+q"));
}
