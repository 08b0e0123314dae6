//! The navigator's state machine: what a key press or a mouse event does to the
//! query, the mode, the selection and the directory history, and which command it
//! hands back to the caller.
//!
//! Work that happens outside the process (reading a directory, running the
//! background walker, matching with the fuzzy matcher) is not done here: each step
//! appends an `Effect` to `effects`, the driver carries it out, and hands the results
//! back through `set_entries` and `set_matches`.
use vstd::prelude::*;
use crate::model::{entries_view, Entry, EntryView, Kind};
use crate::settings::{opt_view, Settings, SettingsView};
use crate::text::{begins_with, chars_of, split_words, starts_with, string_of, trim, trim_chars, words};

verus! {

/// What the query currently means.
#[derive(Debug, Clone, Copy, PartialEq, Eq, Structural)]
pub enum Mode {
    /// Empty query: the listing of the current directory.
    Browse,
    /// A query that is matched against the files below the current directory.
    Search,
    /// A query that starts with `!`: a shell command to run on exit.
    Command,
}

/// What a step asks of the caller.
#[derive(Debug, PartialEq, Eq)]
pub enum Cmd {
    Nothing,
    QuitCd,
    QuitNoCd,
    OpenFile(String),
    EnterDir(String),
    ParentDir,
    RebuildList,
    RunCommand(String),
    QuitToDir(String),
}

/// The mathematical value of a `Cmd`.
pub enum CmdView {
    Nothing,
    QuitCd,
    QuitNoCd,
    OpenFile(Seq<char>),
    EnterDir(Seq<char>),
    ParentDir,
    RebuildList,
    RunCommand(Seq<char>),
    QuitToDir(Seq<char>),
}

impl View for Cmd {
    type V = CmdView;

    open spec fn view(&self) -> CmdView {
        match self {
            Cmd::Nothing => CmdView::Nothing,
            Cmd::QuitCd => CmdView::QuitCd,
            Cmd::QuitNoCd => CmdView::QuitNoCd,
            Cmd::OpenFile(p) => CmdView::OpenFile(p@),
            Cmd::EnterDir(p) => CmdView::EnterDir(p@),
            Cmd::ParentDir => CmdView::ParentDir,
            Cmd::RebuildList => CmdView::RebuildList,
            Cmd::RunCommand(c) => CmdView::RunCommand(c@),
            Cmd::QuitToDir(p) => CmdView::QuitToDir(p@),
        }
    }
}

/// Work that the driver carries out for the state machine.
#[derive(Debug)]
pub enum Effect {
    /// List the current directory again and hand the entries to `set_entries`.
    Reload,
    /// Stop the background walker.
    StopWalker,
    /// Start a fresh matcher and a walker over the current directory; its matches
    /// go to `set_matches`.
    StartWalker,
    /// Give the matcher a new pattern.
    Reparse { text: String, ignore_case: bool, append: bool },
}

/// The mathematical value of an `Effect`.
pub enum EffectView {
    Reload,
    StopWalker,
    StartWalker,
    Reparse { text: Seq<char>, ignore_case: bool, append: bool },
}

impl View for Effect {
    type V = EffectView;

    open spec fn view(&self) -> EffectView {
        match self {
            Effect::Reload => EffectView::Reload,
            Effect::StopWalker => EffectView::StopWalker,
            Effect::StartWalker => EffectView::StartWalker,
            Effect::Reparse { text, ignore_case, append } => EffectView::Reparse {
                text: text@,
                ignore_case: *ignore_case,
                append: *append,
            },
        }
    }
}

/// A key of the keyboard, as far as the navigator tells keys apart.
#[derive(Debug, Clone, Copy, PartialEq, Eq, Structural)]
pub enum KeyCode {
    Char(char),
    Esc,
    Enter,
    Backspace,
    Left,
    Right,
    Up,
    Down,
    Other,
}

/// The modifier keys held with a key.
#[derive(Debug, Clone, Copy, PartialEq, Eq, Structural)]
pub struct KeyModifiers {
    pub control: bool,
    pub alt: bool,
}

impl KeyModifiers {
    /// No modifier.
    pub fn none() -> (m: KeyModifiers)
        ensures
            !m.control && !m.alt,
    {
        KeyModifiers { control: false, alt: false }
    }

    /// Control alone.
    pub fn control() -> (m: KeyModifiers)
        ensures
            m.control && !m.alt,
    {
        KeyModifiers { control: true, alt: false }
    }

    /// Alt alone.
    pub fn alt() -> (m: KeyModifiers)
        ensures
            !m.control && m.alt,
    {
        KeyModifiers { control: false, alt: true }
    }
}

/// A key press.
#[derive(Debug, Clone, Copy, PartialEq, Eq, Structural)]
pub struct KeyEvent {
    pub code: KeyCode,
    pub modifiers: KeyModifiers,
}

impl KeyEvent {
    pub fn new(code: KeyCode, modifiers: KeyModifiers) -> (k: KeyEvent)
        ensures
            k.code == code,
            k.modifiers == modifiers,
    {
        KeyEvent { code, modifiers }
    }
}

/// A mouse button.
#[derive(Debug, Clone, Copy, PartialEq, Eq, Structural)]
pub enum MouseButton {
    Left,
    Right,
    Middle,
}

/// What the mouse did.
#[derive(Debug, Clone, Copy, PartialEq, Eq, Structural)]
pub enum MouseEventKind {
    Down(MouseButton),
    ScrollUp,
    ScrollDown,
    Other,
}

/// A mouse event at a cell of the terminal.
#[derive(Debug, Clone, Copy, PartialEq, Eq, Structural)]
pub struct MouseEvent {
    pub kind: MouseEventKind,
    pub column: u16,
    pub row: u16,
}

/// A rectangle of terminal cells.
#[derive(Debug, Clone, Copy, PartialEq, Eq, Structural)]
pub struct Rect {
    pub x: u16,
    pub y: u16,
    pub width: u16,
    pub height: u16,
}

impl Rect {
    pub fn new(x: u16, y: u16, width: u16, height: u16) -> (r: Rect)
        ensures
            r == (Rect { x, y, width, height }),
    {
        Rect { x, y, width, height }
    }
}

/// The navigator's state.
pub struct App {
    pub cwd: String,
    pub query: String,
    pub show_hidden: bool,
    pub mode: Mode,
    /// The listing of `cwd` (Browse and Command mode).
    pub browse_entries: Vec<Entry>,
    /// The matches of the query, best first (Search mode).
    pub matches: Vec<Entry>,
    /// Whether a background walker is running.
    pub walker: bool,
    pub selected: usize,
    pub scroll_offset: usize,
    /// The time in milliseconds and the index of the last left click.
    pub last_click: Option<(u64, usize)>,
    pub last_area: Rect,
    pub settings: Settings,
    pub nav_back: Vec<String>,
    pub nav_forward: Vec<String>,
    /// Work that the driver has still to carry out, oldest first.
    pub effects: Vec<Effect>,
}

/// The mathematical value of an `App`.
#[verifier::ext_equal]
pub struct AppView {
    pub cwd: Seq<char>,
    pub query: Seq<char>,
    pub show_hidden: bool,
    pub mode: Mode,
    pub browse: Seq<EntryView>,
    pub matches: Seq<EntryView>,
    pub walker: bool,
    pub selected: usize,
    pub scroll_offset: usize,
    pub last_click: Option<(u64, usize)>,
    pub last_area: Rect,
    pub settings: SettingsView,
    pub back: Seq<Seq<char>>,
    pub forward: Seq<Seq<char>>,
    pub effects: Seq<EffectView>,
}

/// The views of a sequence of strings.
pub open spec fn strings_view(v: Seq<String>) -> Seq<Seq<char>> {
    v.map_values(|s: String| s@)
}

/// The views of a sequence of effects.
pub open spec fn effects_view(v: Seq<Effect>) -> Seq<EffectView> {
    v.map_values(|e: Effect| e@)
}

impl View for App {
    type V = AppView;

    open spec fn view(&self) -> AppView {
        AppView {
            cwd: self.cwd@,
            query: self.query@,
            show_hidden: self.show_hidden,
            mode: self.mode,
            browse: entries_view(self.browse_entries@),
            matches: entries_view(self.matches@),
            walker: self.walker,
            selected: self.selected,
            scroll_offset: self.scroll_offset,
            last_click: self.last_click,
            last_area: self.last_area,
            settings: self.settings@,
            back: strings_view(self.nav_back@),
            forward: strings_view(self.nav_forward@),
            effects: effects_view(self.effects@),
        }
    }
}

// ---------------------------------------------------------------------------
// The steps, as functions on `AppView`.
// ---------------------------------------------------------------------------

/// The state in which the navigator starts in `cwd`: Browse mode, empty query, empty
/// history, and the listing of `cwd` requested.
pub open spec fn initial(cwd: Seq<char>, settings: SettingsView) -> AppView {
    AppView {
        cwd,
        query: Seq::empty(),
        show_hidden: settings.listing.show_hidden,
        mode: Mode::Browse,
        browse: Seq::empty(),
        matches: Seq::empty(),
        walker: false,
        selected: 0,
        scroll_offset: 0,
        last_click: None,
        last_area: Rect { x: 0, y: 0, width: 0, height: 0 },
        settings,
        back: Seq::empty(),
        forward: Seq::empty(),
        effects: seq![EffectView::Reload],
    }
}

/// The mode and the query agree, and a walker runs exactly in Search mode.
pub open spec fn mode_consistent(s: AppView) -> bool {
    &&& (s.mode == Mode::Search) == s.walker
    &&& (s.mode == Mode::Browse) == (s.query.len() == 0)
    &&& (s.mode == Mode::Command) == begins_with(s.query, '!')
}

/// Both lists have a length that a `usize` holds, as every list of the navigator does.
pub open spec fn lists_fit(s: AppView) -> bool {
    s.browse.len() <= usize::MAX && s.matches.len() <= usize::MAX
}

/// The entries that the list shows in the current mode.
pub open spec fn items(s: AppView) -> Seq<EntryView> {
    if s.mode == Mode::Search {
        s.matches
    } else {
        s.browse
    }
}

/// The number of entries in the list.
pub open spec fn item_count_spec(s: AppView) -> nat {
    items(s).len()
}

/// The rows that the list has in the last drawn area (one row holds the query).
pub open spec fn list_rows_spec(s: AppView) -> int {
    if s.last_area.height == 0 {
        0
    } else {
        s.last_area.height - 1
    }
}

/// Stops the walker, if one runs.
pub open spec fn stop_walker_spec(s: AppView) -> AppView {
    if s.walker {
        AppView { walker: false, effects: s.effects.push(EffectView::StopWalker), ..s }
    } else {
        s
    }
}

/// Stops any walker and starts a fresh matcher and walker; the old matches are gone.
pub open spec fn start_walker_spec(s: AppView) -> AppView {
    let t = stop_walker_spec(s);
    AppView {
        walker: true,
        matches: Seq::empty(),
        effects: t.effects.push(EffectView::StartWalker),
        ..t
    }
}

/// Drops the listing and asks for the current directory to be listed again.
pub open spec fn reload_entries_spec(s: AppView) -> AppView {
    AppView { browse: Seq::empty(), effects: s.effects.push(EffectView::Reload), ..s }
}

/// A search token in exact mode: quoted with a leading `'` unless it has one.
pub open spec fn quote_token(t: Seq<char>) -> Seq<char> {
    if begins_with(t, '\'') {
        t
    } else {
        seq!['\''] + t
    }
}

/// The quoted tokens, separated by single spaces.
pub open spec fn join_quoted(ws: Seq<Seq<char>>) -> Seq<char>
    decreases ws.len(),
{
    if ws.len() == 0 {
        Seq::empty()
    } else if ws.len() == 1 {
        quote_token(ws[0])
    } else {
        join_quoted(ws.drop_last()) + seq![' '] + quote_token(ws.last())
    }
}

/// The pattern handed to the matcher: the query itself, or in exact mode each of its
/// words quoted so that it matches as a substring.
pub open spec fn search_text_spec(query: Seq<char>, exact: bool) -> Seq<char> {
    if exact {
        join_quoted(words(query))
    } else {
        query
    }
}

/// What follows a change of the query: an empty query returns to Browse mode and
/// lists the directory again; a query starting with `!` is a command; any other
/// query searches, starting a walker when Search mode begins, and hands its pattern
/// to the matcher. The selection returns to the top.
pub open spec fn after_query_spec(s: AppView, append: bool) -> AppView {
    let t = if s.query.len() == 0 {
        reload_entries_spec(AppView { mode: Mode::Browse, ..stop_walker_spec(s) })
    } else if s.query[0] == '!' {
        AppView { mode: Mode::Command, ..stop_walker_spec(s) }
    } else {
        let u = if s.mode != Mode::Search {
            start_walker_spec(AppView { mode: Mode::Search, ..s })
        } else {
            s
        };
        AppView {
            effects: u.effects.push(
                EffectView::Reparse {
                    text: search_text_spec(u.query, u.settings.search.exact),
                    ignore_case: u.settings.search.case_insensitive,
                    append,
                },
            ),
            ..u
        }
    };
    AppView { selected: 0, scroll_offset: 0, ..t }
}

/// Replaces the query.
pub open spec fn set_query_spec(s: AppView, new: Seq<char>) -> AppView {
    after_query_spec(AppView { query: new, ..s }, false)
}

/// Whether going from query `old` to `new` only adds characters at the end, so that
/// the matcher may narrow its last result.
pub open spec fn is_append(new: Seq<char>, old: Seq<char>) -> bool {
    new.len() > 0 && old.is_prefix_of(new) && new.len() > old.len()
}

/// Replaces the query `old` by `new`.
pub open spec fn set_query_append_spec(s: AppView, new: Seq<char>, old: Seq<char>) -> AppView {
    after_query_spec(AppView { query: new, ..s }, is_append(new, old))
}

/// Moves to `dir` without touching the history: empty query, Browse mode, the
/// listing of `dir` requested, the selection at the top.
pub open spec fn set_dir_raw_spec(s: AppView, dir: Seq<char>) -> AppView {
    let t = stop_walker_spec(AppView { cwd: dir, query: Seq::empty(), ..s });
    let u = reload_entries_spec(AppView { mode: Mode::Browse, ..t });
    AppView { selected: 0, scroll_offset: 0, ..u }
}

/// Moves to `dir`, remembering the current directory for "back" and forgetting
/// "forward".
pub open spec fn set_dir_spec(s: AppView, dir: Seq<char>) -> AppView {
    set_dir_raw_spec(AppView { back: s.back.push(s.cwd), forward: Seq::empty(), ..s }, dir)
}

/// Lists the current directory again.
pub open spec fn reload_spec(s: AppView) -> AppView {
    set_dir_raw_spec(s, s.cwd)
}

/// Shows or hides dotfiles, and lists the directory again.
pub open spec fn toggle_hidden_spec(s: AppView) -> AppView {
    reload_spec(AppView { show_hidden: !s.show_hidden, ..s })
}

/// Goes back to the directory visited before, if any.
pub open spec fn navigate_back_spec(s: AppView) -> AppView {
    if s.back.len() == 0 {
        s
    } else {
        set_dir_raw_spec(
            AppView { back: s.back.drop_last(), forward: s.forward.push(s.cwd), ..s },
            s.back.last(),
        )
    }
}

/// Goes forward again, if a "back" was made.
pub open spec fn navigate_forward_spec(s: AppView) -> AppView {
    if s.forward.len() == 0 {
        s
    } else {
        set_dir_raw_spec(
            AppView { forward: s.forward.drop_last(), back: s.back.push(s.cwd), ..s },
            s.forward.last(),
        )
    }
}

/// What activating the entry at `idx` asks for: a directory is entered, or with
/// `force_quit`, or with `quit_on_match` for a match of a search, quit to; a file is
/// opened; no entry, nothing.
pub open spec fn resolve_spec(s: AppView, idx: int, force_quit: bool) -> CmdView {
    let list = items(s);
    if 0 <= idx < list.len() {
        let e = list[idx];
        match e.kind {
            Kind::Dir => if force_quit || (s.settings.search.quit_on_match && s.mode == Mode::Search) {
                CmdView::QuitToDir(e.abs)
            } else {
                CmdView::EnterDir(e.abs)
            },
            Kind::File => CmdView::OpenFile(e.abs),
        }
    } else {
        CmdView::Nothing
    }
}

/// Keeps the selection inside the list and the list scrolled so that the selection
/// is among the rows shown.
pub open spec fn ensure_visible_spec(s: AppView) -> AppView {
    let rows = list_rows_spec(s);
    let count = item_count_spec(s);
    if count == 0 {
        AppView { scroll_offset: 0, ..s }
    } else {
        let sel: int = if s.selected >= count { count - 1 } else { s.selected as int };
        let top: int = if s.scroll_offset >= count { count - 1 } else { s.scroll_offset as int };
        let scroll: int = if rows == 0 {
            top
        } else if sel < top {
            sel
        } else if sel >= top + rows {
            sel - rows + 1
        } else {
            top
        };
        AppView { selected: sel as usize, scroll_offset: scroll as usize, ..s }
    }
}


/// The entries shown when the list starts at `scroll_offset` and has room for `max`
/// rows.
pub open spec fn visible_spec(s: AppView, max: u32) -> Seq<EntryView> {
    let list = items(s);
    let off = s.scroll_offset as int;
    if off >= list.len() {
        Seq::empty()
    } else if off + max >= list.len() {
        list.subrange(off, list.len() as int)
    } else {
        list.subrange(off, off + max)
    }
}

/// One entry up; with `wrap_selection`, from the first to the last.
pub open spec fn up_spec(s: AppView) -> AppView {
    let count = item_count_spec(s);
    if count == 0 {
        s
    } else if s.selected == 0 {
        AppView {
            selected: if s.settings.search.wrap_selection { (count - 1) as usize } else { 0 },
            ..s
        }
    } else {
        AppView { selected: (s.selected - 1) as usize, ..s }
    }
}

/// One entry down, stopping at the last; with `wrap_selection`, from the last to the
/// first.
pub open spec fn down_spec(s: AppView) -> AppView {
    let count = item_count_spec(s);
    if count == 0 {
        s
    } else if s.selected + 1 >= count {
        AppView {
            selected: if s.settings.search.wrap_selection { 0 } else { (count - 1) as usize },
            ..s
        }
    } else {
        AppView { selected: (s.selected + 1) as usize, ..s }
    }
}

/// Half the list's rows down, stopping at the last entry.
pub open spec fn half_down_spec(s: AppView) -> AppView {
    let half = list_rows_spec(s) / 2;
    let count = item_count_spec(s);
    if count > 0 && half > 0 {
        AppView {
            selected: if s.selected + half >= count - 1 {
                (count - 1) as usize
            } else {
                (s.selected + half) as usize
            },
            ..s
        }
    } else {
        s
    }
}

/// Half the list's rows up, stopping at the first entry.
pub open spec fn half_up_spec(s: AppView) -> AppView {
    let half = list_rows_spec(s) / 2;
    AppView {
        selected: if s.selected >= half { (s.selected - half) as usize } else { 0 },
        ..s
    }
}

/// The command of a `!` query: what follows the `!`, trimmed.
pub open spec fn command_text(q: Seq<char>) -> Seq<char> {
    if q.len() == 0 {
        Seq::empty()
    } else {
        trim(q.subrange(1, q.len() as int))
    }
}

/// Whether the selection is an entry of the list.
pub open spec fn has_selection(s: AppView) -> bool {
    s.selected < item_count_spec(s)
}

/// What a key press does: the new state and the command for the caller.
pub open spec fn key_step(s: AppView, k: KeyEvent) -> (AppView, CmdView) {
    let ctrl = k.modifiers.control;
    let alt = k.modifiers.alt;
    match k.code {
        KeyCode::Char(c) => if ctrl && c == 'c' {
            (s, CmdView::QuitNoCd)
        } else if ctrl && c == 'k' {
            (up_spec(s), CmdView::Nothing)
        } else if ctrl && c == 'j' {
            (down_spec(s), CmdView::Nothing)
        } else if ctrl && c == 'l' {
            (s, resolve_spec(s, s.selected as int, false))
        } else if ctrl && c == 'd' {
            (half_down_spec(s), CmdView::Nothing)
        } else if ctrl && c == 'u' {
            (half_up_spec(s), CmdView::Nothing)
        } else if ctrl && c == 'h' {
            (s, CmdView::ParentDir)
        } else if ctrl && c == 'q' {
            (navigate_back_spec(s), CmdView::Nothing)
        } else if ctrl && c == 'e' {
            (navigate_forward_spec(s), CmdView::Nothing)
        } else if ctrl && c == '.' {
            (toggle_hidden_spec(s), CmdView::Nothing)
        } else if !ctrl && !alt && c == '.' && s.query.len() == 0 {
            (toggle_hidden_spec(s), CmdView::Nothing)
        } else if !ctrl && !alt {
            (set_query_append_spec(s, s.query.push(c), s.query), CmdView::Nothing)
        } else {
            (s, CmdView::Nothing)
        },
        KeyCode::Esc => if s.query.len() > 0 {
            (set_query_spec(s, Seq::empty()), CmdView::Nothing)
        } else {
            (s, CmdView::QuitCd)
        },
        KeyCode::Enter => if alt {
            if s.mode == Mode::Command || !has_selection(s) {
                (s, CmdView::Nothing)
            } else {
                (s, resolve_spec(s, s.selected as int, true))
            }
        } else if s.mode == Mode::Command {
            if command_text(s.query).len() == 0 {
                (s, CmdView::Nothing)
            } else {
                (s, CmdView::RunCommand(command_text(s.query)))
            }
        } else if !has_selection(s) {
            (s, CmdView::Nothing)
        } else {
            (s, resolve_spec(s, s.selected as int, false))
        },
        KeyCode::Backspace => if s.query.len() == 0 {
            (s, CmdView::ParentDir)
        } else {
            (set_query_append_spec(s, s.query.drop_last(), s.query), CmdView::Nothing)
        },
        KeyCode::Left => (s, CmdView::ParentDir),
        KeyCode::Right => if !has_selection(s) {
            (s, CmdView::Nothing)
        } else {
            match resolve_spec(s, s.selected as int, false) {
                CmdView::OpenFile(_) => (s, CmdView::Nothing),
                other => (s, other),
            }
        },
        KeyCode::Up => (up_spec(s), CmdView::Nothing),
        KeyCode::Down => (down_spec(s), CmdView::Nothing),
        KeyCode::Other => (s, CmdView::Nothing),
    }
}

/// The rows of the list inside `area` (Command mode gives one more row to the
/// command line).
pub open spec fn mouse_list_rows(s: AppView, area: Rect) -> int {
    let keep: int = if s.mode == Mode::Command { 2 } else { 1 };
    if area.height >= keep {
        area.height - keep
    } else {
        0
    }
}

/// The first row of the list inside `area`.
pub open spec fn list_start(s: AppView, area: Rect) -> int {
    area.y + if s.mode == Mode::Command { 2int } else { 1int }
}

/// Milliseconds from `prev` to `now`, zero if the clock went back.
pub open spec fn elapsed(prev: u64, now: u64) -> int {
    if now >= prev {
        now - prev
    } else {
        0
    }
}

/// Whether a left click on entry `idx` at time `now` completes a double click.
pub open spec fn is_double_click(s: AppView, idx: int, now: u64) -> bool {
    match s.last_click {
        Some((prev, prev_idx)) => prev_idx == idx && elapsed(prev, now) < 300,
        None => false,
    }
}

/// What a mouse event at time `now` (in milliseconds) does, with the navigator drawn
/// in `area`. On the query row, a left click on its first three cells is "back",
/// "forward" and "parent directory"; on the list, a left click selects an entry, a
/// second one within 300 ms activates it, and the wheel moves the selection by three.
pub open spec fn mouse_step(s: AppView, m: MouseEvent, area: Rect, now: u64) -> (AppView, CmdView) {
    let left = m.kind == MouseEventKind::Down(MouseButton::Left);
    if m.row == area.y {
        if !left {
            (s, CmdView::Nothing)
        } else if m.column == area.x && s.back.len() > 0 {
            (navigate_back_spec(s), CmdView::Nothing)
        } else if m.column == area.x + 1 && s.forward.len() > 0 {
            (navigate_forward_spec(s), CmdView::Nothing)
        } else if m.column == area.x + 2 && parent_path(s.cwd) is Some {
            (s, CmdView::ParentDir)
        } else {
            (s, CmdView::Nothing)
        }
    } else {
        let start = list_start(s, area);
        let count = item_count_spec(s);
        let idx = s.scroll_offset + (m.row - start);
        if m.row < start || m.row >= start + mouse_list_rows(s, area) || idx >= count {
            (s, CmdView::Nothing)
        } else {
            match m.kind {
                MouseEventKind::Down(MouseButton::Left) => if is_double_click(s, idx, now) {
                    (AppView { last_click: None, ..s }, resolve_spec(s, idx, false))
                } else {
                    (
                        AppView { selected: idx as usize, last_click: Some((now, idx as usize)), ..s },
                        CmdView::Nothing,
                    )
                },
                MouseEventKind::ScrollUp => (
                    AppView {
                        selected: if s.selected >= 3 { (s.selected - 3) as usize } else { 0 },
                        ..s
                    },
                    CmdView::Nothing,
                ),
                MouseEventKind::ScrollDown => (
                    AppView {
                        selected: if s.selected + 3 >= count - 1 {
                            (count - 1) as usize
                        } else {
                            (s.selected + 3) as usize
                        },
                        ..s
                    },
                    CmdView::Nothing,
                ),
                _ => (s, CmdView::Nothing),
            }
        }
    }
}

/// The view of an optional command.
pub open spec fn opt_cmd_view(c: Option<Cmd>) -> Option<CmdView> {
    match c {
        Some(x) => Some(x@),
        None => None,
    }
}

/// What the main loop does with a command: directory changes are carried out here,
/// and the commands that end the navigator are handed on.
pub open spec fn dispatch_spec(s: AppView, c: CmdView) -> (AppView, Option<CmdView>) {
    match c {
        CmdView::Nothing => (s, None),
        CmdView::EnterDir(d) => (set_dir_spec(s, d), None),
        CmdView::ParentDir => match parent_path(s.cwd) {
            Some(p) => (set_dir_spec(s, p), None),
            None => (s, None),
        },
        CmdView::RebuildList => (reload_spec(s), None),
        other => (s, Some(other)),
    }
}

/// The path without its last component, as std's `Path::parent` gives it (`None` for
/// a root or an empty path).
pub uninterp spec fn parent_path(p: Seq<char>) -> Option<Seq<char>>;

/// std's `Path::parent`, for a path held as text. Trusted: the contract claims that the
/// result is `parent_path` of `p`, a function of `p` alone; what that parent is stays
/// unsaid.
#[verifier::external_body]
pub(crate) fn path_parent(p: &str) -> (r: Option<String>)
    ensures
        opt_view(r) == parent_path(p@),
{
    match std::path::Path::new(p).parent() {
        Some(q) => Some(q.to_string_lossy().into_owned()),
        None => None,
    }
}

impl App {
    /// Starts in `cwd`, in Browse mode, with the listing of `cwd` requested.
    pub fn new(cwd: String, settings: Settings) -> (app: App)
        ensures
            app@ == initial(cwd@, settings@),
    {
        let show_hidden = settings.listing.show_hidden;
        let mut effects: Vec<Effect> = Vec::new();
        effects.push(Effect::Reload);
        let app = App {
            cwd,
            query: String::new(),
            show_hidden,
            mode: Mode::Browse,
            browse_entries: Vec::new(),
            matches: Vec::new(),
            walker: false,
            selected: 0,
            scroll_offset: 0,
            last_click: None,
            last_area: Rect::new(0, 0, 0, 0),
            settings,
            nav_back: Vec::new(),
            nav_forward: Vec::new(),
            effects,
        };
        assert(app@.effects =~= seq![EffectView::Reload]);
        assert(app@.browse =~= Seq::<EntryView>::empty());
        assert(app@.matches =~= Seq::<EntryView>::empty());
        assert(app@.back =~= Seq::<Seq<char>>::empty());
        assert(app@.forward =~= Seq::<Seq<char>>::empty());
        app
    }

    fn push_effect(&mut self, e: Effect)
        ensures
            final(self)@ == (AppView { effects: old(self)@.effects.push(e@), ..old(self)@ }),
    {
        self.effects.push(e);
        assert(effects_view(self.effects@) =~= effects_view(old(self).effects@).push(e@));
    }

    /// Hands over the work that is due, oldest first, and forgets it.
    pub fn take_effects(&mut self) -> (r: Vec<Effect>)
        ensures
            effects_view(r@) == old(self)@.effects,
            final(self)@ == (AppView { effects: Seq::empty(), ..old(self)@ }),
    {
        let mut r: Vec<Effect> = Vec::new();
        std::mem::swap(&mut r, &mut self.effects);
        assert(effects_view(self.effects@) =~= Seq::<EffectView>::empty());
        r
    }

    /// The listing of the current directory, as the driver read it.
    pub fn set_entries(&mut self, entries: Vec<Entry>)
        ensures
            final(self)@ == (AppView { browse: entries_view(entries@), ..old(self)@ }),
    {
        self.browse_entries = entries;
    }

    /// The matches of the query, best first, as the matcher reports them.
    pub fn set_matches(&mut self, matches: Vec<Entry>)
        ensures
            final(self)@ == (AppView { matches: entries_view(matches@), ..old(self)@ }),
    {
        self.matches = matches;
    }

    fn stop_walker(&mut self)
        ensures
            final(self)@ == stop_walker_spec(old(self)@),
    {
        if self.walker {
            self.push_effect(Effect::StopWalker);
            self.walker = false;
        }
    }

    fn start_walker(&mut self)
        ensures
            final(self)@ == start_walker_spec(old(self)@),
    {
        self.stop_walker();
        self.matches = Vec::new();
        self.push_effect(Effect::StartWalker);
        self.walker = true;
        assert(final(self)@.matches =~= Seq::<EntryView>::empty());
    }

    fn reload_entries(&mut self)
        ensures
            final(self)@ == reload_entries_spec(old(self)@),
    {
        self.browse_entries = Vec::new();
        self.push_effect(Effect::Reload);
        assert(self@.browse =~= Seq::<EntryView>::empty());
    }

    /// The pattern for the matcher.
    fn search_text(&self) -> (r: String)
        ensures
            r@ == search_text_spec(self.query@, self.settings.search.exact),
    {
        if !self.settings.search.exact {
            return self.query.clone();
        }
        let q = chars_of(self.query.as_str());
        let ws = split_words(&q);
        let mut out: Vec<char> = Vec::new();
        let mut i: usize = 0;
        while i < ws.len()
            invariant
                i <= ws@.len(),
                ws@.len() == words(q@).len(),
                forall|k: int| 0 <= k < ws@.len() ==> #[trigger] ws@[k]@ == words(q@)[k],
                out@ == join_quoted(words(q@).take(i as int)),
            decreases ws.len() - i,
        {
            let w = &ws[i];
            let ghost before = words(q@).take(i as int);
            let ghost after = words(q@).take(i + 1);
            assert(after.drop_last() =~= before);
            assert(after.last() == w@);
            if i > 0 {
                out.push(' ');
            }
            if w.len() == 0 || w[0] != '\'' {
                out.push('\'');
            }
            let mut j: usize = 0;
            let ghost start = out@;
            while j < w.len()
                invariant
                    j <= w@.len(),
                    out@ == start + w@.take(j as int),
                decreases w.len() - j,
            {
                out.push(w[j]);
                j += 1;
                assert(w@.take(j as int) =~= w@.take(j - 1).push(w@[j - 1]));
            }
            assert(w@.take(w@.len() as int) =~= w@);
            if i == 0 {
                assert(out@ =~= quote_token(w@));
            } else {
                assert(out@ =~= join_quoted(before) + seq![' '] + quote_token(w@));
            }
            i += 1;
        }
        assert(words(q@).take(ws@.len() as int) =~= words(q@));
        string_of(out.as_slice())
    }

    fn after_query_change(&mut self, append: bool)
        ensures
            final(self)@ == after_query_spec(old(self)@, append),
    {
        let q = chars_of(self.query.as_str());
        if q.len() == 0 {
            self.stop_walker();
            self.mode = Mode::Browse;
            self.reload_entries();
        } else if q[0] == '!' {
            self.stop_walker();
            self.mode = Mode::Command;
        } else {
            if self.mode != Mode::Search {
                self.mode = Mode::Search;
                self.start_walker();
            }
            let text = self.search_text();
            let ignore_case = self.settings.search.case_insensitive;
            self.push_effect(Effect::Reparse { text, ignore_case, append });
        }
        self.selected = 0;
        self.scroll_offset = 0;
    }

    /// Replaces the query.
    pub fn set_query(&mut self, new: String)
        ensures
            final(self)@ == set_query_spec(old(self)@, new@),
    {
        self.query = new;
        self.after_query_change(false);
    }

    /// Replaces the query `old` by `new`; when `new` only adds to `old`, the matcher
    /// may narrow its last result.
    pub fn set_query_append(&mut self, new: String, prev: &str)
        ensures
            final(self)@ == set_query_append_spec(old(self)@, new@, prev@),
    {
        let n = chars_of(new.as_str());
        let o = chars_of(prev);
        let append = n.len() > 0 && starts_with(&n, &o) && n.len() > o.len();
        self.query = new;
        self.after_query_change(append);
    }

    fn set_dir_raw(&mut self, dir: String)
        ensures
            final(self)@ == set_dir_raw_spec(old(self)@, dir@),
    {
        self.cwd = dir;
        self.query = String::new();
        self.stop_walker();
        self.mode = Mode::Browse;
        self.reload_entries();
        self.selected = 0;
        self.scroll_offset = 0;
    }

    /// Moves to `dir`, remembering the current directory for "back".
    pub fn set_dir(&mut self, dir: String)
        ensures
            final(self)@ == set_dir_spec(old(self)@, dir@),
    {
        let here = self.cwd.clone();
        self.nav_back.push(here);
        self.nav_forward.clear();
        assert(strings_view(self.nav_back@) =~= strings_view(old(self).nav_back@).push(old(self).cwd@));
        assert(strings_view(self.nav_forward@) =~= Seq::<Seq<char>>::empty());
        self.set_dir_raw(dir);
    }

    /// Lists the current directory again.
    pub fn reload(&mut self)
        ensures
            final(self)@ == reload_spec(old(self)@),
    {
        let here = self.cwd.clone();
        self.set_dir_raw(here);
    }

    /// Shows or hides dotfiles.
    pub fn toggle_hidden(&mut self)
        ensures
            final(self)@ == toggle_hidden_spec(old(self)@),
    {
        self.show_hidden = !self.show_hidden;
        self.reload();
    }

    /// Goes back in the history of visited directories.
    pub fn navigate_back(&mut self)
        ensures
            final(self)@ == navigate_back_spec(old(self)@),
    {
        if let Some(dir) = self.nav_back.pop() {
            let here = self.cwd.clone();
            self.nav_forward.push(here);
            assert(strings_view(self.nav_back@) =~= strings_view(old(self).nav_back@).drop_last());
            assert(strings_view(self.nav_forward@) =~= strings_view(old(self).nav_forward@).push(old(self).cwd@));
            self.set_dir_raw(dir);
        }
    }

    /// Goes forward in the history of visited directories.
    pub fn navigate_forward(&mut self)
        ensures
            final(self)@ == navigate_forward_spec(old(self)@),
    {
        if let Some(dir) = self.nav_forward.pop() {
            let here = self.cwd.clone();
            self.nav_back.push(here);
            assert(strings_view(self.nav_forward@) =~= strings_view(old(self).nav_forward@).drop_last());
            assert(strings_view(self.nav_back@) =~= strings_view(old(self).nav_back@).push(old(self).cwd@));
            self.set_dir_raw(dir);
        }
    }
    /// The number of entries in the list.
    pub fn item_count(&self) -> (r: usize)
        ensures
            r == item_count_spec(self@),
    {
        if self.mode == Mode::Search {
            self.matches.len()
        } else {
            self.browse_entries.len()
        }
    }

    /// The number of entries that can be selected.
    pub fn selectable_count(&self) -> (r: usize)
        ensures
            r == item_count_spec(self@),
    {
        self.item_count()
    }

    /// The rows of the list in the last drawn area.
    pub fn list_rows(&self) -> (r: usize)
        ensures
            r == list_rows_spec(self@),
    {
        if self.last_area.height == 0 {
            0
        } else {
            (self.last_area.height - 1) as usize
        }
    }

    /// The entries on screen: at most `max`, from `scroll_offset` on.
    pub fn visible(&self, max: u32) -> (r: Vec<Entry>)
        ensures
            entries_view(r@) == visible_spec(self@, max),
    {
        let list = if self.mode == Mode::Search {
            &self.matches
        } else {
            &self.browse_entries
        };
        let ghost items_v = items(self@);
        assert(entries_view(list@) == items_v);
        let off = self.scroll_offset;
        let mut r: Vec<Entry> = Vec::new();
        if off >= list.len() {
            assert(entries_view(r@) =~= Seq::<EntryView>::empty());
            return r;
        }
        let end: usize = if max as usize >= list.len() - off {
            list.len()
        } else {
            off + max as usize
        };
        let mut i: usize = off;
        while i < end
            invariant
                off <= i <= end <= list@.len(),
                entries_view(list@) == items_v,
                entries_view(r@) =~= items_v.subrange(off as int, i as int),
            decreases end - i,
        {
            let e = list[i].clone();
            assert(items_v[i as int] == list@[i as int]@);
            let ghost prev = r@;
            r.push(e);
            assert(entries_view(r@) =~= entries_view(prev).push(e@));
            assert(items_v.subrange(off as int, i + 1) =~= items_v.subrange(off as int, i as int).push(items_v[i as int]));
            i += 1;
        }
        r
    }

    /// What activating the entry at `idx` asks for.
    fn resolve_entry(&self, idx: usize, force_quit: bool) -> (c: Cmd)
        ensures
            c@ == resolve_spec(self@, idx as int, force_quit),
    {
        let list = if self.mode == Mode::Search {
            &self.matches
        } else {
            &self.browse_entries
        };
        assert(entries_view(list@) == items(self@));
        if idx >= list.len() {
            return Cmd::Nothing;
        }
        let e = &list[idx];
        let quit = force_quit || (self.settings.search.quit_on_match && self.mode == Mode::Search);
        match e.kind {
            Kind::Dir => if quit {
                Cmd::QuitToDir(e.abs.clone())
            } else {
                Cmd::EnterDir(e.abs.clone())
            },
            Kind::File => Cmd::OpenFile(e.abs.clone()),
        }
    }

    /// Keeps the selection inside the list and scrolls the list so that the selection
    /// is on screen.
    pub fn ensure_selection_visible(&mut self)
        ensures
            final(self)@ == ensure_visible_spec(old(self)@),
    {
        let rows = self.list_rows();
        let count = self.item_count();
        if count == 0 {
            self.scroll_offset = 0;
            return;
        }
        if self.selected >= count {
            self.selected = count - 1;
        }
        if self.scroll_offset >= count {
            self.scroll_offset = count - 1;
        }
        if rows == 0 {
            return;
        }
        if self.selected < self.scroll_offset {
            self.scroll_offset = self.selected;
        } else if self.selected - self.scroll_offset >= rows {
            self.scroll_offset = self.selected - rows + 1;
        }
    }

    fn move_up(&mut self)
        ensures
            final(self)@ == up_spec(old(self)@),
    {
        let count = self.selectable_count();
        if count > 0 {
            self.selected = if self.selected == 0 {
                if self.settings.search.wrap_selection {
                    count - 1
                } else {
                    0
                }
            } else {
                self.selected - 1
            };
        }
    }

    fn move_down(&mut self)
        ensures
            final(self)@ == down_spec(old(self)@),
    {
        let count = self.selectable_count();
        if count > 0 {
            self.selected = if self.selected >= count - 1 {
                if self.settings.search.wrap_selection {
                    0
                } else {
                    count - 1
                }
            } else {
                self.selected + 1
            };
        }
    }

    fn half_page_down(&mut self)
        ensures
            final(self)@ == half_down_spec(old(self)@),
    {
        let half = self.list_rows() / 2;
        let count = self.selectable_count();
        if count > 0 && half > 0 {
            self.selected = if half >= count - 1 || self.selected >= count - 1 - half {
                count - 1
            } else {
                self.selected + half
            };
        }
    }

    fn half_page_up(&mut self)
        ensures
            final(self)@ == half_up_spec(old(self)@),
    {
        let half = self.list_rows() / 2;
        self.selected = if self.selected >= half {
            self.selected - half
        } else {
            0
        };
    }

    /// The command of a `!` query, or `None` when it is blank.
    fn command_of_query(&self) -> (r: Option<String>)
        ensures
            match r {
                Some(c) => command_text(self@.query).len() > 0 && c@ == command_text(self@.query),
                None => command_text(self@.query).len() == 0,
            },
    {
        let q = chars_of(self.query.as_str());
        if q.len() == 0 {
            return None;
        }
        let rest = crate::text::slice_chars(&q, 1, q.len());
        let t = trim_chars(&rest);
        if t.len() == 0 {
            None
        } else {
            Some(string_of(t.as_slice()))
        }
    }

    /// Handles a key press.
    pub fn on_key(&mut self, k: KeyEvent) -> (c: Cmd)
        ensures
            (final(self)@, c@) == key_step(old(self)@, k),
    {
        let ctrl = k.modifiers.control;
        let alt = k.modifiers.alt;
        match k.code {
            KeyCode::Char(ch) => {
                if ctrl && ch == 'c' {
                    Cmd::QuitNoCd
                } else if ctrl && ch == 'k' {
                    self.move_up();
                    Cmd::Nothing
                } else if ctrl && ch == 'j' {
                    self.move_down();
                    Cmd::Nothing
                } else if ctrl && ch == 'l' {
                    self.resolve_entry(self.selected, false)
                } else if ctrl && ch == 'd' {
                    self.half_page_down();
                    Cmd::Nothing
                } else if ctrl && ch == 'u' {
                    self.half_page_up();
                    Cmd::Nothing
                } else if ctrl && ch == 'h' {
                    Cmd::ParentDir
                } else if ctrl && ch == 'q' {
                    self.navigate_back();
                    Cmd::Nothing
                } else if ctrl && ch == 'e' {
                    self.navigate_forward();
                    Cmd::Nothing
                } else if ctrl && ch == '.' {
                    self.toggle_hidden();
                    Cmd::Nothing
                } else if !ctrl && !alt && ch == '.' && chars_of(self.query.as_str()).len() == 0 {
                    self.toggle_hidden();
                    Cmd::Nothing
                } else if !ctrl && !alt {
                    let mut q = chars_of(self.query.as_str());
                    let old = string_of(q.as_slice());
                    q.push(ch);
                    let new = string_of(q.as_slice());
                    self.set_query_append(new, old.as_str());
                    Cmd::Nothing
                } else {
                    Cmd::Nothing
                }
            },
            KeyCode::Esc => {
                let q = chars_of(self.query.as_str());
                if q.len() > 0 {
                    self.set_query(String::new());
                    Cmd::Nothing
                } else {
                    Cmd::QuitCd
                }
            },
            KeyCode::Enter => {
                if alt {
                    if self.mode == Mode::Command {
                        return Cmd::Nothing;
                    }
                    let count = self.selectable_count();
                    if self.selected >= count {
                        return Cmd::Nothing;
                    }
                    self.resolve_entry(self.selected, true)
                } else if self.mode == Mode::Command {
                    match self.command_of_query() {
                        Some(cmd) => Cmd::RunCommand(cmd),
                        None => Cmd::Nothing,
                    }
                } else {
                    let count = self.selectable_count();
                    if self.selected >= count {
                        return Cmd::Nothing;
                    }
                    self.resolve_entry(self.selected, false)
                }
            },
            KeyCode::Backspace => {
                let q = chars_of(self.query.as_str());
                if q.len() == 0 {
                    Cmd::ParentDir
                } else {
                    let old = string_of(q.as_slice());
                    let shorter = crate::text::slice_chars(&q, 0, q.len() - 1);
                    let new = string_of(shorter.as_slice());
                    assert(new@ =~= old@.drop_last());
                    self.set_query_append(new, old.as_str());
                    Cmd::Nothing
                }
            },
            KeyCode::Left => Cmd::ParentDir,
            KeyCode::Right => {
                let count = self.selectable_count();
                if self.selected >= count {
                    return Cmd::Nothing;
                }
                let cmd = self.resolve_entry(self.selected, false);
                match cmd {
                    Cmd::OpenFile(_) => Cmd::Nothing,
                    other => other,
                }
            },
            KeyCode::Up => {
                self.move_up();
                Cmd::Nothing
            },
            KeyCode::Down => {
                self.move_down();
                Cmd::Nothing
            },
            KeyCode::Other => Cmd::Nothing,
        }
    }
    /// Handles a mouse event at time `now` (milliseconds), with the navigator drawn in
    /// `area`.
    pub fn on_mouse(&mut self, m: MouseEvent, area: Rect, now: u64) -> (c: Cmd)
        ensures
            (final(self)@, c@) == mouse_step(old(self)@, m, area, now),
    {
        let left = match m.kind {
            MouseEventKind::Down(MouseButton::Left) => true,
            _ => false,
        };
        let row = m.row as u32;
        let col = m.column as u32;
        let x = area.x as u32;
        let y = area.y as u32;
        if row == y {
            if !left {
                return Cmd::Nothing;
            }
            if col == x && self.nav_back.len() > 0 {
                self.navigate_back();
            } else if col == x + 1 && self.nav_forward.len() > 0 {
                self.navigate_forward();
            } else if col == x + 2 {
                let p = path_parent(self.cwd.as_str());
                if p.is_some() {
                    return Cmd::ParentDir;
                }
            }
            return Cmd::Nothing;
        }
        let command = self.mode == Mode::Command;
        let keep: u32 = if command { 2 } else { 1 };
        let height = area.height as u32;
        let rows: u32 = if height >= keep { height - keep } else { 0 };
        let start: u32 = y + keep;
        if row < start || row >= start + rows {
            return Cmd::Nothing;
        }
        let rel = (row - start) as usize;
        let count = self.selectable_count();
        if rel >= count || self.scroll_offset >= count - rel {
            return Cmd::Nothing;
        }
        let idx = self.scroll_offset + rel;
        match m.kind {
            MouseEventKind::Down(MouseButton::Left) => {
                let double = match self.last_click {
                    Some((prev, prev_idx)) => {
                        let gap: u64 = if now >= prev { now - prev } else { 0 };
                        prev_idx == idx && gap < 300
                    },
                    None => false,
                };
                if double {
                    self.last_click = None;
                    return self.resolve_entry(idx, false);
                }
                self.selected = idx;
                self.last_click = Some((now, idx));
                Cmd::Nothing
            },
            MouseEventKind::ScrollUp => {
                self.selected = if self.selected >= 3 {
                    self.selected - 3
                } else {
                    0
                };
                Cmd::Nothing
            },
            MouseEventKind::ScrollDown => {
                self.selected = if self.selected >= count - 1 || count - 1 - self.selected <= 3 {
                    count - 1
                } else {
                    self.selected + 3
                };
                Cmd::Nothing
            },
            _ => Cmd::Nothing,
        }
    }
}

/// Carries out the directory changes that a command asks for, and hands on the
/// commands that end the navigator.
pub fn dispatch(app: &mut App, cmd: Cmd) -> (r: Option<Cmd>)
    ensures
        (final(app)@, opt_cmd_view(r)) == dispatch_spec(old(app)@, cmd@),
{
    match cmd {
        Cmd::Nothing => None,
        Cmd::EnterDir(dir) => {
            app.set_dir(dir);
            None
        },
        Cmd::ParentDir => {
            match path_parent(app.cwd.as_str()) {
                Some(parent) => app.set_dir(parent),
                None => {},
            }
            None
        },
        Cmd::RebuildList => {
            app.reload();
            None
        },
        other => Some(other),
    }
}

} // verus!
