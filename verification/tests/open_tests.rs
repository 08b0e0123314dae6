use sicth::open::{classify, out_script, resolve_editor, How};

#[test]
fn classify_text_as_editor() {
    assert_eq!(classify(Some(b"hello world\n".to_vec())), How::Editor);
}

#[test]
fn classify_png_as_system() {
    assert_eq!(classify(Some(b"\x89PNG\r\n\x1a\nsome data".to_vec())), How::System);
}

#[test]
fn classify_nul_as_system() {
    assert_eq!(classify(Some(b"a\0b".to_vec())), How::System);
}

#[test]
fn classify_unreadable_and_empty() {
    assert_eq!(classify(None), How::System);
    assert_eq!(classify(Some(Vec::new())), How::Editor);
    // A PDF header is a known type even without NUL bytes.
    assert_eq!(classify(Some(b"%PDF-1.7\nrest".to_vec())), How::System);
}

#[test]
fn editor_resolution_order() {
    assert_eq!(resolve_editor(Some("nvim -R"), Some("code"), Some("nano")), ("nvim".to_string(), vec!["-R".to_string()]));
    assert_eq!(resolve_editor(None, Some("code --wait"), Some("nano")), ("code".to_string(), vec!["--wait".to_string()]));
    assert_eq!(resolve_editor(Some(""), Some(""), Some("nano")), ("nano".to_string(), vec![]));
    assert_eq!(resolve_editor(None, None, None), ("vi".to_string(), vec![]));
    // A blank command falls back to vi.
    assert_eq!(resolve_editor(None, Some("   "), Some("nano")), ("vi".to_string(), vec![]));
}

#[test]
fn exit_script_quotes_directory() {
    assert_eq!(out_script("/home/u/a b", None), "cd -- '/home/u/a b'\n");
    assert_eq!(out_script("/it's", Some("make test")), "cd -- '/it'\\''s'\nmake test\n");
}
