use sicth::setup::{
    install_begin, install_step, installed_text, Install,
    find_marker_block, fish_file, is_yes, name_choice, rc_defines, rc_path, render_template,
    replace_marker_block, shell_of, template_for, NameChoice, Shell, BASH_ZSH_TEMPLATE,
    FISH_TEMPLATE,
};

#[test]
fn render_template_substitutes_bin_and_name() {
    let result = render_template(BASH_ZSH_TEMPLATE, "/usr/bin/sicth", "sc");
    assert!(result.contains("/usr/bin/sicth"));
    assert!(result.contains("sc"));
    assert!(result.contains("# >>> sicth wrapper v2 >>>"));
    assert!(result.contains("# <<< sicth wrapper v2 <<<"));
}

#[test]
fn replace_marker_block_swaps_marked_section() {
    let original = "echo hello\n# >>> sicth wrapper v2 >>>\nold stuff\n# <<< sicth wrapper v2 <<<\necho bye\n";
    let rendered = "# >>> sicth wrapper v2 >>>\nsc() { stuff }\n# <<< sicth wrapper v2 <<<\n";
    let result = replace_marker_block(original, rendered);
    assert_eq!(result, "echo hello\n# >>> sicth wrapper v2 >>>\nsc() { stuff }\n# <<< sicth wrapper v2 <<<\necho bye\n");
}

#[test]
fn replace_marker_block_no_marker_appends() {
    let original = "echo hello\n";
    let rendered = "# >>> sicth wrapper v2 >>>\nsc() { stuff }\n# <<< sicth wrapper v2 <<<\n";
    let result = replace_marker_block(original, rendered);
    assert_eq!(result, "echo hello\n# >>> sicth wrapper v2 >>>\nsc() { stuff }\n# <<< sicth wrapper v2 <<<\n");
}

#[test]
fn legacy_v1_block_is_replaced() {
    let original = "echo hello\n# >>> sicth wrapper >>>\nold stuff\n# <<< sicth wrapper <<<\necho bye\n";
    let rendered = "# >>> sicth wrapper v2 >>>\nsc() { stuff }\n# <<< sicth wrapper v2 <<<\n";
    let result = replace_marker_block(original, rendered);
    assert!(result.contains("# >>> sicth wrapper v2 >>>"));
    assert!(!result.contains("# >>> sicth wrapper >>>"));
    assert!(result.contains("# <<< sicth wrapper v2 <<<"));
    assert!(!result.contains("# <<< sicth wrapper <<<"));
}

// --- further cases ---

#[test]
fn fish_template_renders_name() {
    let r = render_template(FISH_TEMPLATE, "/bin/s", "sicth");
    assert!(r.starts_with("function sicth\n"));
    assert!(r.contains("/bin/s --out-file"));
    assert!(!r.contains("{BIN}") && !r.contains("{NAME}"));
}

#[test]
fn find_marker_block_ranges() {
    let text = "ab\n# >>> sicth wrapper v2 >>>\nx\n# <<< sicth wrapper v2 <<<\nz";
    let start = 3;
    let end = start + "# >>> sicth wrapper v2 >>>\nx\n# <<< sicth wrapper v2 <<<".chars().count();
    assert_eq!(find_marker_block(text), Some((start, end)));
    // An opening marker without a closing one gives an empty range at the marker.
    assert_eq!(find_marker_block("# >>> sicth wrapper >>>\nrest"), Some((0, 0)));
    assert_eq!(find_marker_block("nothing here"), None);
    // Positions are byte positions, as `str::find` gives them.
    assert_eq!(find_marker_block("\u{e9}# >>> sicth wrapper v2 >>>"), Some((2, 2)));
    let t = "\u{e9}\u{1f600}\n# >>> sicth wrapper v2 >>>\nx\n# <<< sicth wrapper v2 <<<\n";
    let (a, b) = find_marker_block(t).unwrap();
    assert_eq!(&t[a..b], "# >>> sicth wrapper v2 >>>\nx\n# <<< sicth wrapper v2 <<<");
    assert_eq!(a, t.find("# >>>").unwrap());
}

#[test]
fn append_adds_missing_newline() {
    let r = replace_marker_block("echo hi", "BLOCK\n");
    assert_eq!(r, "echo hi\nBLOCK\n");
    assert_eq!(replace_marker_block("", "BLOCK\n"), "BLOCK\n");
}

#[test]
fn shell_detection_and_paths() {
    assert_eq!(shell_of("/bin/bash"), Some(Shell::Bash));
    assert_eq!(shell_of("/usr/bin/zsh"), Some(Shell::Zsh));
    assert_eq!(shell_of("/usr/local/bin/fish"), Some(Shell::Fish));
    assert_eq!(shell_of("/bin/tcsh"), None);
    assert_eq!(shell_of(""), None);
    assert_eq!(rc_path(Shell::Bash, "/home/u"), "/home/u/.bashrc");
    assert_eq!(rc_path(Shell::Zsh, "/home/u/"), "/home/u/.zshrc");
    assert_eq!(rc_path(Shell::Fish, "/home/u"), "/home/u/.config/fish/functions");
    assert_eq!(fish_file("/home/u/.config/fish/functions", "sc"), "/home/u/.config/fish/functions/sc.fish");
    assert_eq!(template_for(Shell::Fish), FISH_TEMPLATE);
    assert_eq!(template_for(Shell::Zsh), BASH_ZSH_TEMPLATE);
}

#[test]
fn rc_conflicts_and_answers() {
    assert!(rc_defines("alias sc='ls'\n", "sc"));
    assert!(rc_defines("sc() { :; }\n", "sc"));
    assert!(rc_defines("function sc {\n}\n", "sc"));
    assert!(!rc_defines("echo sc\n", "sc"));
    assert!(is_yes(" y\n"));
    assert!(is_yes("Y"));
    assert!(!is_yes("yes"));
    assert_eq!(name_choice("s\n"), NameChoice::Shadow);
    assert_eq!(name_choice("I"), NameChoice::Sicth);
    assert_eq!(name_choice("x"), NameChoice::Abort);
}

#[test]
fn installing_twice_changes_nothing() {
    let rendered = render_template(BASH_ZSH_TEMPLATE, "/usr/bin/sicth", "sc");
    for original in ["", "echo hi", "echo hi\n", "a\n# >>> sicth wrapper >>>\nold\n# <<< sicth wrapper <<<\nb\n"] {
        let once = replace_marker_block(original, &rendered);
        let twice = replace_marker_block(&once, &rendered);
        assert_eq!(once, twice);
        assert_eq!(once.matches("# >>> sicth wrapper v2 >>>").count(), 1);
    }
}

#[test]
fn installer_steps() {
    assert_eq!(install_begin(true, true), Install::AskReplace);
    assert_eq!(install_begin(false, true), Install::AskName);
    assert_eq!(install_begin(false, false), Install::AskProceed("sc".into()));
    assert_eq!(install_step(Install::AskReplace, "n\n"), Install::Exit(0));
    assert_eq!(install_step(Install::AskReplace, "y\n"), Install::AskProceed("sc".into()));
    assert_eq!(install_step(Install::AskName, "i\n"), Install::AskProceed("sicth".into()));
    assert_eq!(install_step(Install::AskName, "s"), Install::AskProceed("sc".into()));
    assert_eq!(install_step(Install::AskName, "?"), Install::Exit(1));
    assert_eq!(install_step(Install::AskProceed("sc".into()), "Y"), Install::Write("sc".into()));
    assert_eq!(install_step(Install::AskProceed("sc".into()), ""), Install::Exit(1));
    assert_eq!(install_step(Install::Exit(0), "y"), Install::Exit(0));
    assert_eq!(installed_text(Shell::Fish, "old", "new\n"), "new\n");
    assert_eq!(installed_text(Shell::Bash, "old", "new\n"), "old\nnew\n");
}
