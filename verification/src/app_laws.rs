//! What holds of the navigator's steps across calls and for every state.
use vstd::prelude::*;
use crate::app::{
    after_query_spec, command_text, dispatch_spec, down_spec, ensure_visible_spec, has_selection,
    initial, is_append, join_quoted, lists_fit, quote_token, is_double_click, item_count_spec, items, key_step, list_rows_spec,
    list_start, mode_consistent, mouse_list_rows, mouse_step, navigate_back_spec,
    navigate_forward_spec, parent_path, resolve_spec, visible_spec, search_text_spec, set_dir_raw_spec, set_dir_spec, up_spec,
    AppView, CmdView, EffectView, KeyCode, KeyEvent, KeyModifiers, Mode, MouseButton, MouseEvent,
    MouseEventKind, Rect,
};
use crate::model::Kind;

verus! {

/// After any change of the query the mode agrees with it and a walker runs exactly
/// in Search mode, provided a walker ran exactly in Search mode before.
proof fn lemma_after_query_consistent(s: AppView, append: bool)
    requires
        (s.mode == Mode::Search) == s.walker,
    ensures
        mode_consistent(after_query_spec(s, append)),
{
}

/// Moving to a directory always leaves a consistent state.
proof fn lemma_set_dir_raw_consistent(s: AppView, dir: Seq<char>)
    ensures
        mode_consistent(set_dir_raw_spec(s, dir)),
{
}

/// The navigator starts in a consistent state.
pub proof fn law_initial_consistent(cwd: Seq<char>, settings: crate::settings::SettingsView)
    ensures
        mode_consistent(initial(cwd, settings)),
{
}

/// Every key press keeps the mode in agreement with the query: Browse exactly for an
/// empty query, Command exactly for a query that starts with `!`, and a walker
/// running exactly in Search mode.
pub proof fn law_key_keeps_modes(s: AppView, k: KeyEvent)
    requires
        mode_consistent(s),
    ensures
        mode_consistent(key_step(s, k).0),
{
    match k.code {
        KeyCode::Char(c) => lemma_char_keeps_modes(s, k, c),
        KeyCode::Esc => lemma_after_query_consistent(AppView { query: Seq::empty(), ..s }, false),
        KeyCode::Backspace => {
            if s.query.len() > 0 {
                lemma_after_query_consistent(
                    AppView { query: s.query.drop_last(), ..s },
                    is_append(s.query.drop_last(), s.query),
                );
            }
        },
        _ => {},
    }
}

proof fn lemma_char_keeps_modes(s: AppView, k: KeyEvent, c: char)
    requires
        mode_consistent(s),
        k.code == KeyCode::Char(c),
    ensures
        mode_consistent(key_step(s, k).0),
{
    let ctrl = k.modifiers.control;
    if ctrl && c == 'q' {
        if s.back.len() > 0 {
            lemma_set_dir_raw_consistent(
                AppView { back: s.back.drop_last(), forward: s.forward.push(s.cwd), ..s },
                s.back.last(),
            );
        }
    } else if ctrl && c == 'e' {
        if s.forward.len() > 0 {
            lemma_set_dir_raw_consistent(
                AppView { forward: s.forward.drop_last(), back: s.back.push(s.cwd), ..s },
                s.forward.last(),
            );
        }
    } else if (ctrl || (!k.modifiers.alt && s.query.len() == 0)) && c == '.' {
        lemma_set_dir_raw_consistent(AppView { show_hidden: !s.show_hidden, ..s }, s.cwd);
    } else if !ctrl && !k.modifiers.alt {
        lemma_after_query_consistent(
            AppView { query: s.query.push(c), ..s },
            is_append(s.query.push(c), s.query),
        );
    }
}

/// Every mouse event keeps the mode in agreement with the query.
pub proof fn law_mouse_keeps_modes(s: AppView, m: MouseEvent, area: Rect, now: u64)
    requires
        mode_consistent(s),
    ensures
        mode_consistent(mouse_step(s, m, area, now).0),
{
    if s.back.len() > 0 {
        lemma_set_dir_raw_consistent(
            AppView { back: s.back.drop_last(), forward: s.forward.push(s.cwd), ..s },
            s.back.last(),
        );
    }
    if s.forward.len() > 0 {
        lemma_set_dir_raw_consistent(
            AppView { forward: s.forward.drop_last(), back: s.back.push(s.cwd), ..s },
            s.forward.last(),
        );
    }
}

/// Carrying out a command keeps the mode in agreement with the query.
pub proof fn law_dispatch_keeps_modes(s: AppView, c: CmdView)
    requires
        mode_consistent(s),
    ensures
        mode_consistent(dispatch_spec(s, c).0),
{
}

/// "Back" after moving to a directory returns to where the move started, with the
/// history as it was before and the directory left behind as the only "forward".
pub proof fn law_back_undoes_set_dir(s: AppView, dir: Seq<char>)
    ensures
        navigate_back_spec(set_dir_spec(s, dir)).cwd == s.cwd,
        navigate_back_spec(set_dir_spec(s, dir)).back == s.back,
        navigate_back_spec(set_dir_spec(s, dir)).forward == seq![dir],
{
    assert(s.back.push(s.cwd).drop_last() =~= s.back);
    assert(Seq::<Seq<char>>::empty().push(dir) =~= seq![dir]);
}

/// "Forward" after "back" returns to the directory and the history from before.
pub proof fn law_forward_undoes_back(s: AppView)
    requires
        s.back.len() > 0,
    ensures
        navigate_forward_spec(navigate_back_spec(s)).cwd == s.cwd,
        navigate_forward_spec(navigate_back_spec(s)).back == s.back,
        navigate_forward_spec(navigate_back_spec(s)).forward == s.forward,
{
    assert(s.forward.push(s.cwd).drop_last() =~= s.forward);
    assert(s.back.drop_last().push(s.back.last()) =~= s.back);
}

/// "Back" and "forward" with nothing to go to change nothing.
pub proof fn law_empty_history_is_noop(s: AppView)
    ensures
        s.back.len() == 0 ==> navigate_back_spec(s) == s,
        s.forward.len() == 0 ==> navigate_forward_spec(s) == s,
{
}

/// `.` (without Control or Alt) on an empty query shows or hides dotfiles: the query
/// stays empty, the mode is Browse, and the directory is listed again.
pub proof fn law_dot_toggles_hidden(s: AppView)
    requires
        s.query.len() == 0,
    ensures
        ({
            let k = KeyEvent { code: KeyCode::Char('.'), modifiers: KeyModifiers { control: false, alt: false } };
            let (t, cmd) = key_step(s, k);
            &&& cmd == CmdView::Nothing
            &&& t.show_hidden == !s.show_hidden
            &&& t.query.len() == 0
            &&& t.mode == Mode::Browse
            &&& !t.walker
            &&& t.cwd == s.cwd
            &&& t.browse.len() == 0
            &&& t.effects.last() == EffectView::Reload
        }),
{
}

/// Typing a character (without Control or Alt; a `.` only into a non-empty query)
/// appends it to the query, returns the selection to the top, and sets the mode by the
/// new query; in Search mode the matcher is told that the pattern only grew.
pub proof fn law_typing_appends(s: AppView, c: char)
    requires
        c != '.' || s.query.len() > 0,
    ensures
        ({
            let k = KeyEvent { code: KeyCode::Char(c), modifiers: KeyModifiers { control: false, alt: false } };
            let (t, cmd) = key_step(s, k);
            &&& cmd == CmdView::Nothing
            &&& t.query == s.query.push(c)
            &&& t.selected == 0
            &&& t.scroll_offset == 0
            &&& t.mode == (if t.query[0] == '!' { Mode::Command } else { Mode::Search })
            &&& t.mode == Mode::Search ==> t.effects.last() == (EffectView::Reparse {
                text: search_text_spec(t.query, s.settings.search.exact),
                ignore_case: s.settings.search.case_insensitive,
                append: true,
            })
        }),
{
    assert(s.query.is_prefix_of(s.query.push(c)));
}

/// Backspace deletes the last character of the query; on an empty query it asks for
/// the parent directory and changes nothing.
pub proof fn law_backspace(s: AppView)
    ensures
        ({
            let k = KeyEvent { code: KeyCode::Backspace, modifiers: KeyModifiers { control: false, alt: false } };
            let (t, cmd) = key_step(s, k);
            if s.query.len() == 0 {
                t == s && cmd == CmdView::ParentDir
            } else {
                t.query == s.query.drop_last() && cmd == CmdView::Nothing
            }
        }),
{
}

/// Esc clears a query and returns to Browse mode; on an empty query it quits,
/// changing nothing.
pub proof fn law_esc(s: AppView, mods: KeyModifiers)
    ensures
        ({
            let (t, cmd) = key_step(s, KeyEvent { code: KeyCode::Esc, modifiers: mods });
            if s.query.len() == 0 {
                t == s && cmd == CmdView::QuitCd
            } else {
                t.query.len() == 0 && t.mode == Mode::Browse && !t.walker && cmd == CmdView::Nothing
            }
        }),
{
}

/// With the selection inside the list, Up and Down keep it inside the list.
pub proof fn law_arrows_keep_selection(s: AppView, mods: KeyModifiers)
    requires
        has_selection(s),
    ensures
        has_selection(key_step(s, KeyEvent { code: KeyCode::Up, modifiers: mods }).0),
        has_selection(key_step(s, KeyEvent { code: KeyCode::Down, modifiers: mods }).0),
{
}

/// With `wrap_selection`, Down on the last entry goes to the first and Up on the first
/// goes to the last; without it, both stay where they are.
pub proof fn law_wrap_selection(s: AppView)
    requires
        lists_fit(s),
        item_count_spec(s) > 0,
    ensures
        s.selected + 1 == item_count_spec(s) ==> down_spec(s).selected == (
        if s.settings.search.wrap_selection {
            0
        } else {
            s.selected
        }),
        s.selected == 0 ==> up_spec(s).selected == (if s.settings.search.wrap_selection {
            item_count_spec(s) - 1
        } else {
            0
        }),
{
}

/// After `ensure_selection_visible`, the selection and the first row shown are entries
/// of a non-empty list, and when the list has rows the selection lies among them.
pub proof fn law_selection_visible(s: AppView)
    requires
        lists_fit(s),
    ensures
        ({
            let t = ensure_visible_spec(s);
            let count = item_count_spec(s);
            let rows = list_rows_spec(s);
            &&& count == 0 ==> t.scroll_offset == 0
            &&& count > 0 ==> t.selected < count && t.scroll_offset < count
            &&& count > 0 && rows > 0 ==> t.scroll_offset <= t.selected < t.scroll_offset + rows
        }),
{
}

/// Enter on a directory enters it (or, for a match of a search with `quit_on_match`,
/// quits to it), Alt+Enter quits to it, and both open a file; Right never opens a
/// file.
pub proof fn law_activate(s: AppView)
    requires
        has_selection(s),
        s.mode != Mode::Command,
    ensures
        ({
            let e = items(s)[s.selected as int];
            let none = KeyModifiers { control: false, alt: false };
            let plain = key_step(s, KeyEvent { code: KeyCode::Enter, modifiers: none }).1;
            let alt = key_step(s, KeyEvent { code: KeyCode::Enter, modifiers: KeyModifiers { control: false, alt: true } }).1;
            let right = key_step(s, KeyEvent { code: KeyCode::Right, modifiers: none }).1;
            &&& e.kind == Kind::Dir ==> alt == CmdView::QuitToDir(e.abs)
            &&& e.kind == Kind::Dir ==> plain == (if s.settings.search.quit_on_match && s.mode == Mode::Search {
                CmdView::QuitToDir(e.abs)
            } else {
                CmdView::EnterDir(e.abs)
            })
            &&& e.kind == Kind::File ==> plain == CmdView::OpenFile(e.abs) && alt == CmdView::OpenFile(e.abs)
            &&& !(right is OpenFile)
        }),
{
}

/// In Command mode, Enter hands back the command after the `!`, trimmed, and nothing
/// when it is blank; the state stays as it was.
pub proof fn law_command_enter(s: AppView)
    requires
        s.mode == Mode::Command,
    ensures
        ({
            let (t, cmd) = key_step(s, KeyEvent { code: KeyCode::Enter, modifiers: KeyModifiers { control: false, alt: false } });
            &&& t == s
            &&& cmd == (if command_text(s.query).len() == 0 {
                CmdView::Nothing
            } else {
                CmdView::RunCommand(command_text(s.query))
            })
        }),
{
}

/// A second left click on the same entry within 300 ms activates it; the first one
/// only selects it.
pub proof fn law_double_click(s: AppView, m: MouseEvent, area: Rect, t1: u64, t2: u64)
    requires
        lists_fit(s),
        m.kind == MouseEventKind::Down(MouseButton::Left),
        m.row != area.y,
        list_start(s, area) <= m.row < list_start(s, area) + mouse_list_rows(s, area),
        s.scroll_offset + (m.row - list_start(s, area)) < item_count_spec(s),
        !is_double_click(s, s.scroll_offset + (m.row - list_start(s, area)), t1),
        t1 <= t2 < t1 + 300,
    ensures
        ({
            let idx = s.scroll_offset + (m.row - list_start(s, area));
            let (s1, c1) = mouse_step(s, m, area, t1);
            let (s2, c2) = mouse_step(s1, m, area, t2);
            &&& c1 == CmdView::Nothing
            &&& s1.selected == idx
            &&& c2 == resolve_spec(s, idx, false)
            &&& s2.last_click is None
        }),
{
}

/// The commands that end the navigator pass through `dispatch` unchanged and leave
/// the state as it was; `Nothing` is consumed.
pub proof fn law_dispatch_passes_quits(s: AppView, c: CmdView)
    ensures
        (c is QuitCd || c is QuitNoCd || c is QuitToDir || c is OpenFile || c is RunCommand)
            ==> dispatch_spec(s, c) == (s, Some(c)),
        c is Nothing ==> dispatch_spec(s, c) == (s, None::<CmdView>),
{
}

/// Appending a word to a list of words extends the joined pattern.
proof fn lemma_join_push(ws: Seq<Seq<char>>, x: Seq<char>)
    ensures
        join_quoted(ws.push(x)) == (if ws.len() == 0 {
            quote_token(x)
        } else {
            join_quoted(ws) + seq![' '] + quote_token(x)
        }),
{
    assert(ws.push(x).drop_last() =~= ws);
    if ws.len() == 0 {
        assert(ws.push(x) =~= seq![x]);
    }
}

/// One more character at the end of the query only extends the matcher's pattern.
proof fn lemma_search_text_step(q: Seq<char>, c: char, exact: bool)
    ensures
        search_text_spec(q, exact).is_prefix_of(search_text_spec(q.push(c), exact)),
{
    if !exact {
        assert(q =~= q.push(c).subrange(0, q.len() as int));
    } else {
        let (done, cur) = crate::text::word_state(q);
        assert(q.push(c).drop_last() =~= q);
        let w_old = crate::text::words(q);
        let w_new = crate::text::words(q.push(c));
        if crate::text::is_ws(c) {
            assert(w_new =~= w_old);
        } else if cur.len() > 0 {
            lemma_join_push(done, cur);
            lemma_join_push(done, cur.push(c));
            assert(cur.push(c)[0] == cur[0]);
            assert(quote_token(cur.push(c)) =~= quote_token(cur).push(c));
            let j_old = join_quoted(w_old);
            let j_new = join_quoted(w_new);
            assert(j_new =~= j_old.push(c));
            assert(j_old =~= j_new.subrange(0, j_old.len() as int));
        } else {
            assert(w_old == done);
            assert(cur.push(c) =~= seq![c]);
            assert(w_new == done.push(seq![c]));
            lemma_join_push(done, seq![c]);
            let j_old = join_quoted(w_old);
            let j_new = join_quoted(w_new);
            assert(j_old =~= j_new.subrange(0, j_old.len() as int));
        }
    }
}

/// Extending the query extends the matcher's pattern.
proof fn lemma_search_text_monotone(old: Seq<char>, new: Seq<char>, exact: bool)
    requires
        old.is_prefix_of(new),
    ensures
        search_text_spec(old, exact).is_prefix_of(search_text_spec(new, exact)),
    decreases new.len(),
{
    if new.len() == old.len() {
        assert(old =~= new);
    } else {
        let shorter = new.drop_last();
        assert(old.is_prefix_of(shorter)) by {
            assert(old =~= shorter.subrange(0, old.len() as int));
        }
        lemma_search_text_monotone(old, shorter, exact);
        lemma_search_text_step(shorter, new.last(), exact);
        assert(shorter.push(new.last()) =~= new);
        let a = search_text_spec(old, exact);
        let b = search_text_spec(shorter, exact);
        let d = search_text_spec(new, exact);
        assert(a =~= d.subrange(0, a.len() as int)) by {
            assert(a =~= b.subrange(0, a.len() as int));
            assert(b =~= d.subrange(0, b.len() as int));
        }
    }
}

/// Whenever a key press tells the matcher that its pattern only grew (`append`), the
/// new pattern does extend the pattern of the query before the key press, as the
/// matcher requires of that promise.
pub proof fn law_append_extends_pattern(s: AppView, k: KeyEvent)
    ensures
        ({
            let t = key_step(s, k).0;
            t.effects.len() > s.effects.len() ==> (t.effects.last() matches EffectView::Reparse {
                text,
                append,
                ..
            } ==> (append ==> search_text_spec(s.query, s.settings.search.exact).is_prefix_of(text)))
        }),
{
    if let KeyCode::Char(c) = k.code {
        if is_append(s.query.push(c), s.query) {
            lemma_search_text_monotone(s.query, s.query.push(c), s.settings.search.exact);
        }
    }
}

/// No key press, mouse event or command changes the settings the navigator runs with.
pub proof fn law_steps_keep_settings(s: AppView, k: KeyEvent, m: MouseEvent, area: Rect, now: u64, c: CmdView)
    ensures
        key_step(s, k).0.settings == s.settings,
        mouse_step(s, m, area, now).0.settings == s.settings,
        dispatch_spec(s, c).0.settings == s.settings,
{
}

/// After `ensure_selection_visible`, the entries drawn in a list of `rows` rows hold
/// the selection.
pub proof fn law_selection_is_drawn(s: AppView, rows: u32)
    requires
        lists_fit(s),
        item_count_spec(s) > 0,
        rows == list_rows_spec(s),
        rows > 0,
    ensures
        ({
            let t = ensure_visible_spec(s);
            t.scroll_offset <= t.selected && t.selected - t.scroll_offset < visible_spec(t, rows).len()
        }),
{
}

/// The vim keys do what the arrow keys do: Ctrl+k as Up, Ctrl+j as Down, Ctrl+h as
/// Left, in every state.
pub proof fn law_vim_keys_are_arrows(s: AppView)
    ensures
        key_step(s, KeyEvent { code: KeyCode::Char('k'), modifiers: KeyModifiers { control: true, alt: false } })
            == key_step(s, KeyEvent { code: KeyCode::Up, modifiers: KeyModifiers { control: false, alt: false } }),
        key_step(s, KeyEvent { code: KeyCode::Char('j'), modifiers: KeyModifiers { control: true, alt: false } })
            == key_step(s, KeyEvent { code: KeyCode::Down, modifiers: KeyModifiers { control: false, alt: false } }),
        key_step(s, KeyEvent { code: KeyCode::Char('h'), modifiers: KeyModifiers { control: true, alt: false } })
            == key_step(s, KeyEvent { code: KeyCode::Left, modifiers: KeyModifiers { control: false, alt: false } }),
{
}

/// Inside the list, Up selects the entry before and Down the entry after, changing
/// nothing else and asking for nothing.
pub proof fn law_arrows_move_by_one(s: AppView, mods: KeyModifiers)
    requires
        lists_fit(s),
    ensures
        0 < s.selected < item_count_spec(s) ==> key_step(s, KeyEvent { code: KeyCode::Up, modifiers: mods })
            == (AppView { selected: (s.selected - 1) as usize, ..s }, CmdView::Nothing),
        s.selected + 1 < item_count_spec(s) ==> key_step(s, KeyEvent { code: KeyCode::Down, modifiers: mods })
            == (AppView { selected: (s.selected + 1) as usize, ..s }, CmdView::Nothing),
{
}

/// Carrying out `EnterDir(d)` moves into `d`: the directory left goes on the "back"
/// history, "forward" is emptied, the query is cleared, the mode is Browse with the
/// selection at the top, and `d` is listed; nothing is handed on.
pub proof fn law_dispatch_enter_dir(s: AppView, d: Seq<char>)
    ensures
        ({
            let (t, out) = dispatch_spec(s, CmdView::EnterDir(d));
            &&& out is None
            &&& t.cwd == d
            &&& t.back == s.back.push(s.cwd)
            &&& t.forward.len() == 0
            &&& t.query.len() == 0
            &&& t.mode == Mode::Browse
            &&& !t.walker
            &&& t.selected == 0
            &&& t.browse.len() == 0
            &&& t.effects.last() == EffectView::Reload
            &&& t.settings == s.settings
        }),
{
}

/// Carrying out `ParentDir` moves into the parent directory, as `EnterDir` does, and
/// changes nothing at a root; `RebuildList` lists the same directory again, history
/// kept.
pub proof fn law_dispatch_parent_and_rebuild(s: AppView)
    ensures
        ({
            let (t, out) = dispatch_spec(s, CmdView::ParentDir);
            &&& out is None
            &&& match parent_path(s.cwd) {
                Some(p) => t == dispatch_spec(s, CmdView::EnterDir(p)).0 && t.cwd == p,
                None => t == s,
            }
        }),
        ({
            let (t, out) = dispatch_spec(s, CmdView::RebuildList);
            &&& out is None
            &&& t.cwd == s.cwd
            &&& t.back == s.back
            &&& t.forward == s.forward
            &&& t.query.len() == 0
            &&& t.mode == Mode::Browse
            &&& t.effects.last() == EffectView::Reload
        }),
{
}

/// Ctrl+q goes back to the directory visited before and Ctrl+e then returns to where
/// it started, with the history as it was.
pub proof fn law_ctrl_q_then_ctrl_e(s: AppView)
    requires
        s.back.len() > 0,
    ensures
        ({
            let q = KeyEvent { code: KeyCode::Char('q'), modifiers: KeyModifiers { control: true, alt: false } };
            let e = KeyEvent { code: KeyCode::Char('e'), modifiers: KeyModifiers { control: true, alt: false } };
            let (t, c1) = key_step(s, q);
            let (u, c2) = key_step(t, e);
            &&& c1 == CmdView::Nothing && c2 == CmdView::Nothing
            &&& t.cwd == s.back.last()
            &&& t.forward.last() == s.cwd
            &&& u.cwd == s.cwd
            &&& u.back == s.back
            &&& u.forward == s.forward
        }),
{
    assert(s.forward.push(s.cwd).drop_last() =~= s.forward);
    assert(s.back.drop_last().push(s.back.last()) =~= s.back);
}

/// Left asks for the parent directory and changes nothing.
pub proof fn law_left_is_parent(s: AppView, mods: KeyModifiers)
    ensures
        key_step(s, KeyEvent { code: KeyCode::Left, modifiers: mods }) == (s, CmdView::ParentDir),
{
}

/// Ctrl+d moves the selection down by half the list's rows, stopping at the last
/// entry; Ctrl+u moves it up by as much, stopping at the first; nothing else changes.
pub proof fn law_half_pages(s: AppView)
    requires
        lists_fit(s),
        item_count_spec(s) > 0,
        list_rows_spec(s) / 2 > 0,
    ensures
        ({
            let half = list_rows_spec(s) / 2;
            let count = item_count_spec(s);
            let d = KeyEvent { code: KeyCode::Char('d'), modifiers: KeyModifiers { control: true, alt: false } };
            let u = KeyEvent { code: KeyCode::Char('u'), modifiers: KeyModifiers { control: true, alt: false } };
            let (t, c1) = key_step(s, d);
            let (w, c2) = key_step(s, u);
            &&& c1 == CmdView::Nothing && c2 == CmdView::Nothing
            &&& t.selected == (if s.selected + half < count { s.selected + half } else { count - 1 })
            &&& w.selected == (if s.selected >= half { s.selected - half } else { 0 })
            &&& t == AppView { selected: t.selected, ..s }
            &&& w == AppView { selected: w.selected, ..s }
            &&& s.selected + half < count ==> key_step(t, u).0.selected == s.selected
        }),
{
}

/// The buttons of the query bar do what their keys do: a left click on the first cell
/// is Ctrl+q (back), on the second Ctrl+e (forward), and on the third, when the
/// directory has a parent, Left (parent directory).
pub proof fn law_buttons_are_keys(s: AppView, area: Rect, now: u64)
    ensures
        ({
            let click = |col: u16| MouseEvent { kind: MouseEventKind::Down(MouseButton::Left), column: col, row: area.y };
            let ctrl = |c: char| KeyEvent { code: KeyCode::Char(c), modifiers: KeyModifiers { control: true, alt: false } };
            &&& s.back.len() > 0 ==> mouse_step(s, click(area.x), area, now) == key_step(s, ctrl('q'))
            &&& s.forward.len() > 0 && area.x < u16::MAX ==> mouse_step(s, click((area.x + 1) as u16), area, now)
                == key_step(s, ctrl('e'))
            &&& parent_path(s.cwd) is Some && area.x + 2 <= u16::MAX ==> mouse_step(
                s,
                click((area.x + 2) as u16),
                area,
                now,
            ) == key_step(s, KeyEvent { code: KeyCode::Left, modifiers: KeyModifiers { control: false, alt: false } })
        }),
{
}

/// The mouse wheel over an entry moves the selection by three: down, stopping at the
/// last entry, or up, stopping at the first; nothing else changes.
pub proof fn law_wheel(s: AppView, m: MouseEvent, area: Rect, now: u64)
    requires
        lists_fit(s),
        m.row != area.y,
        list_start(s, area) <= m.row < list_start(s, area) + mouse_list_rows(s, area),
        s.scroll_offset + (m.row - list_start(s, area)) < item_count_spec(s),
    ensures
        ({
            let count = item_count_spec(s);
            let down = mouse_step(s, MouseEvent { kind: MouseEventKind::ScrollDown, ..m }, area, now);
            let up = mouse_step(s, MouseEvent { kind: MouseEventKind::ScrollUp, ..m }, area, now);
            &&& down.1 == CmdView::Nothing && up.1 == CmdView::Nothing
            &&& down.0.selected == (if s.selected + 3 < count { s.selected + 3 } else { count - 1 })
            &&& up.0.selected == (if s.selected >= 3 { s.selected - 3 } else { 0 })
            &&& down.0 == AppView { selected: down.0.selected, ..s }
            &&& up.0 == AppView { selected: up.0.selected, ..s }
        }),
{
}

} // verus!
