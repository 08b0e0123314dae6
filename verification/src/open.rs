//! How a file is opened, with which editor, and the script that the shell function
//! sources when the navigator quits.
use vstd::prelude::*;
use crate::text::{chars_of, concat_chars, replace_all, replace_chars, split_words, string_of, words};

verus! {

/// How a file is opened.
#[derive(Debug, Clone, Copy, PartialEq, Eq, Structural)]
pub enum How {
    /// In the terminal, with the user's editor.
    Editor,
    /// With the system's opener.
    System,
}

/// Whether the `infer` crate recognizes a known binary file type in these leading
/// bytes of a file.
pub uninterp spec fn infer_recognizes(buf: Seq<u8>) -> bool;

/// `infer::get`: the file type that the magic numbers at the start of `buf` show, if
/// any. Trusted: the contract claims that whether it finds one is `infer_recognizes` of
/// `buf`, a function of `buf` alone (the crate matches against a fixed table); which
/// byte patterns it knows stays unsaid. For a head that starts with the OLE magic
/// number, `infer` hands the bytes to `cfb::CompoundFile::open`, which checks the
/// header, DIFAT, FAT, directory and MiniFAT chains and answers malformed data with an
/// error, with no panic site of its own on that path; that no arithmetic deeper in
/// `cfb` can fail on a crafted head was not established.
#[verifier::external_body]
fn infer_known(buf: &[u8]) -> (r: bool)
    ensures
        r == infer_recognizes(buf@),
{
    infer::get(buf).is_some()
}

/// How a file is opened, given its first bytes (up to 8192 of them), or `None` when it
/// could not be read: files of a known binary type, files holding a NUL byte and
/// unreadable files go to the system opener, everything else to the editor.
pub open spec fn classify_spec(head: Option<Seq<u8>>) -> How {
    match head {
        None => How::System,
        Some(b) => if infer_recognizes(b) || b.contains(0u8) {
            How::System
        } else {
            How::Editor
        },
    }
}

fn contains_nul(b: &[u8]) -> (r: bool)
    ensures
        r == b@.contains(0u8),
{
    let mut i: usize = 0;
    while i < b.len()
        invariant
            i <= b.len(),
            forall|k: int| 0 <= k < i ==> b@[k] != 0u8,
        decreases b.len() - i,
    {
        if b[i] == 0 {
            assert(b@[i as int] == 0u8);
            return true;
        }
        i += 1;
    }
    false
}

/// How a file is opened, given its first bytes (`None` when it could not be read).
pub fn classify(head: Option<Vec<u8>>) -> (h: How)
    ensures
        h == classify_spec(match head {
            Some(b) => Some(b@),
            None => None,
        }),
{
    match head {
        None => How::System,
        Some(b) => {
            if infer_known(b.as_slice()) {
                return How::System;
            }
            if contains_nul(b.as_slice()) {
                return How::System;
            }
            How::Editor
        },
    }
}

/// How a file is opened under the `open_system` setting, given its first bytes.
pub fn how_to_open(open_system: bool, head: Option<Vec<u8>>) -> (h: How)
    ensures
        h == (if open_system {
            How::System
        } else {
            classify_spec(match head {
                Some(b) => Some(b@),
                None => None,
            })
        }),
{
    if open_system {
        How::System
    } else {
        classify(head)
    }
}

/// The first of the given editor commands that is not empty: the `-e` override, then
/// `$VISUAL`, then `$EDITOR`.
pub open spec fn pick_editor(over: Option<Seq<char>>, visual: Option<Seq<char>>, editor: Option<Seq<char>>) -> Option<Seq<char>> {
    if over is Some && over->0.len() > 0 {
        over
    } else if visual is Some && visual->0.len() > 0 {
        visual
    } else if editor is Some && editor->0.len() > 0 {
        editor
    } else {
        None
    }
}

/// The program and its arguments for an editor command: its first word and the
/// others; `vi` when there is no command or it is blank.
pub open spec fn editor_spec(over: Option<Seq<char>>, visual: Option<Seq<char>>, editor: Option<Seq<char>>) -> (Seq<char>, Seq<Seq<char>>) {
    match pick_editor(over, visual, editor) {
        Some(cmd) => if words(cmd).len() == 0 {
            ("vi"@, Seq::empty())
        } else {
            (words(cmd)[0], words(cmd).drop_first())
        },
        None => ("vi"@, Seq::empty()),
    }
}

/// The editor to run and its arguments, from the `-e` override and the values of
/// `$VISUAL` and `$EDITOR` (`None` where unset).
pub fn resolve_editor(over: Option<&str>, visual: Option<&str>, editor: Option<&str>) -> (r: (String, Vec<String>))
    ensures
        r.0@ == editor_spec(
            match over { Some(s) => Some(s@), None => None },
            match visual { Some(s) => Some(s@), None => None },
            match editor { Some(s) => Some(s@), None => None },
        ).0,
        r.1@.map_values(|a: String| a@) == editor_spec(
            match over { Some(s) => Some(s@), None => None },
            match visual { Some(s) => Some(s@), None => None },
            match editor { Some(s) => Some(s@), None => None },
        ).1,
{
    let ghost ov = match over { Some(s) => Some(s@), None => None::<Seq<char>> };
    let ghost vv = match visual { Some(s) => Some(s@), None => None::<Seq<char>> };
    let ghost ev = match editor { Some(s) => Some(s@), None => None::<Seq<char>> };
    let mut picked: Option<Vec<char>> = None;
    if let Some(s) = over {
        let c = chars_of(s);
        if c.len() > 0 {
            picked = Some(c);
        }
    }
    if picked.is_none() {
        if let Some(s) = visual {
            let c = chars_of(s);
            if c.len() > 0 {
                picked = Some(c);
            }
        }
    }
    if picked.is_none() {
        if let Some(s) = editor {
            let c = chars_of(s);
            if c.len() > 0 {
                picked = Some(c);
            }
        }
    }
    assert(match picked { Some(c) => pick_editor(ov, vv, ev) == Some(c@), None => pick_editor(ov, vv, ev) is None });
    let vi = chars_of("vi");
    match picked {
        None => (string_of(vi.as_slice()), Vec::new()),
        Some(cmd) => {
            let ws = split_words(&cmd);
            if ws.len() == 0 {
                return (string_of(vi.as_slice()), Vec::new());
            }
            let prog = string_of(ws[0].as_slice());
            let mut args: Vec<String> = Vec::new();
            let mut i: usize = 1;
            while i < ws.len()
                invariant
                    1 <= i <= ws@.len(),
                    ws@.len() == words(cmd@).len(),
                    forall|k: int| 0 <= k < ws@.len() ==> #[trigger] ws@[k]@ == words(cmd@)[k],
                    args@.map_values(|a: String| a@) =~= words(cmd@).subrange(1, i as int),
                decreases ws.len() - i,
            {
                let a = string_of(ws[i].as_slice());
                let ghost prev = args@;
                args.push(a);
                assert(args@.map_values(|a: String| a@) =~= prev.map_values(|a: String| a@).push(
                    words(cmd@)[i as int],
                ));
                i += 1;
            }
            assert(words(cmd@).subrange(1, ws@.len() as int) =~= words(cmd@).drop_first());
            (prog, args)
        },
    }
}

/// `s` quoted for a POSIX shell: in single quotes, each `'` written as `'\''`.
pub open spec fn shell_quote(s: Seq<char>) -> Seq<char> {
    seq!['\''] + replace_all(s, seq!['\''], "'\\''"@) + seq!['\'']
}

/// The script that the shell function sources on exit: a `cd` into `dir`, then the
/// `!command`, if one was given.
pub open spec fn out_script_spec(dir: Seq<char>, cmd: Option<Seq<char>>) -> Seq<char> {
    let cd = "cd -- "@ + shell_quote(dir) + seq!['\n'];
    match cmd {
        Some(c) => cd + c + seq!['\n'],
        None => cd,
    }
}

/// The script that the shell function sources on exit.
pub fn out_script(dir: &str, cmd: Option<&str>) -> (r: String)
    ensures
        r@ == out_script_spec(dir@, match cmd {
            Some(c) => Some(c@),
            None => None,
        }),
{
    let d = chars_of(dir);
    let quote = vec!['\''];
    let escaped = chars_of("'\\''");
    let body = replace_chars(&d, &quote, &escaped);
    let head = chars_of("cd -- ");
    let mut s = concat_chars(&head, &quote);
    s = concat_chars(&s, &body);
    s = concat_chars(&s, &quote);
    s.push('\n');
    assert(quote@ =~= seq!['\'']);
    assert(s@ =~= "cd -- "@ + shell_quote(dir@) + seq!['\n']);
    match cmd {
        Some(c) => {
            let cc = chars_of(c);
            let mut t = concat_chars(&s, &cc);
            t.push('\n');
            string_of(t.as_slice())
        },
        None => string_of(s.as_slice()),
    }
}

/// Files that hold a NUL byte and files that could not be read go to the system
/// opener, whatever `infer` says; the editor only ever gets readable files without
/// NUL bytes.
pub proof fn law_classify_binary(b: Seq<u8>, i: int)
    requires
        0 <= i < b.len(),
        b[i] == 0u8,
    ensures
        classify_spec(Some(b)) == How::System,
        classify_spec(None) == How::System,
        forall|h: Seq<u8>| classify_spec(Some(h)) == How::Editor ==> !h.contains(0u8),
{
    assert(b.contains(0u8));
}

/// A non-empty `-e` override decides the editor, whatever the environment; without
/// one, a non-empty `$VISUAL` decides, whatever `$EDITOR` says; with none of them the
/// editor is `vi` without arguments; and the program is the first word of the command.
pub proof fn law_editor_precedence(
    over: Seq<char>,
    visual: Option<Seq<char>>,
    editor: Option<Seq<char>>,
    visual2: Option<Seq<char>>,
    editor2: Option<Seq<char>>,
)
    ensures
        over.len() > 0 ==> editor_spec(Some(over), visual, editor) == editor_spec(Some(over), visual2, editor2),
        visual matches Some(v) && v.len() > 0 ==> editor_spec(None, visual, editor) == editor_spec(None, visual, editor2)
            && editor_spec(None, visual, editor) == editor_spec(visual, None, None),
        editor_spec(None, None, None) == ("vi"@, Seq::<Seq<char>>::empty()),
        words(over).len() > 0 ==> editor_spec(Some(over), visual, editor) == (words(over)[0], words(over).drop_first()),
{
}

/// The exit script starts by changing to the directory and ends with a newline; with
/// a command, the command is its last line.
pub proof fn law_out_script_shape(dir: Seq<char>, cmd: Option<Seq<char>>)
    ensures
        "cd -- "@.is_prefix_of(out_script_spec(dir, cmd)),
        out_script_spec(dir, cmd).last() == '\n',
        cmd matches Some(c) ==> out_script_spec(dir, cmd) == out_script_spec(dir, None) + c + seq!['\n'],
{
    let cd = "cd -- "@ + shell_quote(dir) + seq!['\n'];
    let full = out_script_spec(dir, cmd);
    assert(full.subrange(0, "cd -- "@.len() as int) =~= "cd -- "@);
}

} // verus!
