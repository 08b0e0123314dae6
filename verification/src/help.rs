//! The texts of `--help` and `--keybinds`.
use vstd::prelude::*;

verus! {

/// The text of `--help`.
pub const USAGE: &'static str = "sicth — inline popup file navigator\n\
\n\
USAGE:\n    \
    sicth [FLAGS] [--out-file <path>]\n    \
    sicth --setup\n    \
    sicth --keybinds\n    \
    sicth --help\n\
\n\
OPTIONS:\n    \
    --out-file <path>  write the last browsed directory here on exit (used by the sc shell function)\n    \
    --setup            install the sc shell function (bash/zsh/fish) that cds your shell on exit\n    \
    --keybinds         list all keyboard shortcuts\n\
\n\
SHORT FLAGS:\n    \
    -a  show hidden        -r  recursive browse   -x  exact (substring) match\n    \
    -i  ignore case        -z  quit on search match  -g  ignore .gitignore\n    \
    -L  follow symlinks    -A  show-all (hidden+ignored)  -s  sort by size\n    \
    -t  sort by mtime      -d  dirs-last          -v  reverse sort\n    \
    -n  no icons           -c  no color           -b  no bold dirs\n    \
    -l  no trailing slash  -q  hide cwd path      -m  disable mouse (hides nav buttons)\n    \
    -F  full-screen        -o  always system-open -w  wrap selection\n    \
    -H  home dir scope     -p N  popup height %   -e CMD  override editor\n    \
    -k  keep open after opening a file (also --keep-open)\n    \
    --config <path>  use this config file\n\
\n\
FLAGS override the config file (default $XDG_CONFIG_HOME/sicth/config or ~/.config/sicth/config)\n";

/// The text of `--keybinds`.
pub const KEYBINDS: &'static str = "NAVIGATION\n  \
    Up, Ctrl+k          move selection up\n  \
    Down, Ctrl+j        move selection down\n  \
    Ctrl+d              half-page down (vim)\n  \
    Ctrl+u              half-page up (vim)\n  \
    Enter               enter directory or open file\n  \
    Right               enter directory (dirs only)\n  \
    Left, Ctrl+h        go to parent directory\n  \
    Ctrl+q              navigate back in history\n  \
    Ctrl+e              navigate forward in history\n\n\
SHELL\n  \
    !command            quit and run command in the current directory (needs sc wrapper)\n\n\
ACTIONS\n  \
    Esc                 clear query / quit (when query is empty)\n  \
    Ctrl+c              quit without writing out-file\n  \
    Alt+Enter           quit on search match (cd to dir / open file)\n  \
    ., Ctrl+.           toggle hidden files (. while the query is empty)\n  \
    Ctrl+l              enter directory or open file (vim mode)\n\n\
TYPING\n  \
    !                   prefix query with ! to enter command mode\n  \
    a-z, 0-9, ...      filter entries by name\n  \
    Backspace           delete last character of query, or go to parent directory\n\n\
MOUSE\n  \
    Left click          select entry\n  \
    Double click        enter directory or open file\n  \
    Scroll              move selection\n  \
    \u{2190} / \u{2192} / \u{2191} buttons  back, forward, parent directory\n";

/// The usage text, with every flag.
pub fn usage() -> (r: &'static str)
    ensures
        r@ == USAGE@,
{
    USAGE
}

/// The list of keyboard and mouse bindings.
pub fn keybinds() -> (r: &'static str)
    ensures
        r@ == KEYBINDS@,
{
    KEYBINDS
}

} // verus!
