//! Installing the `sc` shell function: the function's text for each shell, the marked
//! block that holds it in an rc file, and the answers to the installer's questions.
use vstd::prelude::*;
use crate::settings::{join_path, join_path_exec, opt_view};
use vstd::utf8::{encode_scalar, encode_utf8};
use crate::text::{
    chars_of, concat_chars, eq_lit, find_chars, find_from, replace_all, replace_chars, slice_chars,
    string_of, trim, trim_chars,
};

verus! {

/// The function for bash and zsh, between its markers. `{BIN}` stands for the
/// navigator's path, `{NAME}` for the function's name.
pub const BASH_ZSH_TEMPLATE: &'static str = "# >>> sicth wrapper v2 >>>
{NAME}() {
    local tmp_file
    tmp_file=\"$(mktemp -t sicth.XXXXXX)\" || return 1
    {BIN} --out-file \"$tmp_file\" \"$@\"
    local ret=$?
    if [[ -s \"$tmp_file\" ]]; then
        . \"$tmp_file\"
    fi
    rm -f \"$tmp_file\"
    return $ret
}
# <<< sicth wrapper v2 <<<
";

/// The function for fish, written to a file of its own.
pub const FISH_TEMPLATE: &'static str = "function {NAME}
    set -l tmp_file (mktemp -t sicth.XXXXXX)
    {BIN} --out-file \"$tmp_file\" $argv
    set -l ret $status
    if test -s \"$tmp_file\"
        source \"$tmp_file\"
    end
    rm -f \"$tmp_file\"
    return $ret
end
";

/// The line that opens the installed block.
pub const MARKER_START: &'static str = "# >>> sicth wrapper v2 >>>";
/// The line that closes the installed block.
pub const MARKER_END: &'static str = "# <<< sicth wrapper v2 <<<";
/// The opening line of blocks that an earlier installer wrote.
pub const LEGACY_START: &'static str = "# >>> sicth wrapper >>>";
/// The closing line of blocks that an earlier installer wrote.
pub const LEGACY_END: &'static str = "# <<< sicth wrapper <<<";

/// A template with `{BIN}` replaced by `bin`, and then `{NAME}` by `name`.
pub open spec fn render_template_spec(tmpl: Seq<char>, bin: Seq<char>, name: Seq<char>) -> Seq<char> {
    replace_all(replace_all(tmpl, "{BIN}"@, bin), "{NAME}"@, name)
}

/// Fills in a template.
pub fn render_template(tmpl: &str, bin: &str, name: &str) -> (r: String)
    ensures
        r@ == render_template_spec(tmpl@, bin@, name@),
{
    let t = chars_of(tmpl);
    let b = chars_of(bin);
    let n = chars_of(name);
    let bin_pat = chars_of("{BIN}");
    let name_pat = chars_of("{NAME}");
    proof {
        reveal_strlit("{BIN}");
        reveal_strlit("{NAME}");
    }
    let once = replace_chars(&t, &bin_pat, &b);
    let twice = replace_chars(&once, &name_pat, &n);
    string_of(twice.as_slice())
}

/// The block that runs from the first `start_m` to the end of the first `end_m` after
/// it; with no `end_m` after it, the empty range at `start_m`.
pub open spec fn block_between(s: Seq<char>, start_m: Seq<char>, end_m: Seq<char>) -> Option<(int, int)> {
    match find_from(s, start_m, 0) {
        Some(start) => Some(
            (
                start,
                match find_from(s, end_m, start) {
                    Some(i) => i + end_m.len(),
                    None => start,
                },
            ),
        ),
        None => None,
    }
}

/// The installed block in `s`, as a range of character positions: the current
/// markers first, else those of the earlier installer.
pub open spec fn marker_block(s: Seq<char>) -> Option<(int, int)> {
    match block_between(s, MARKER_START@, MARKER_END@) {
        Some(b) => Some(b),
        None => block_between(s, LEGACY_START@, LEGACY_END@),
    }
}

fn block_between_exec(s: &Vec<char>, start_m: &str, end_m: &str) -> (r: Option<(usize, usize)>)
    ensures
        match r {
            Some((a, b)) => block_between(s@, start_m@, end_m@) == Some((a as int, b as int)),
            None => block_between(s@, start_m@, end_m@) is None,
        },
{
    let sm = chars_of(start_m);
    let em = chars_of(end_m);
    match find_chars(s, &sm, 0) {
        Some(start) => {
            match find_chars(s, &em, start) {
                Some(i) => {
                    assert(crate::text::occurs_at(s@, em@, i as int));
                    assert(i + em@.len() <= s@.len());
                    assert(em@.len() == em.len());
                    assert(s@.len() == s.len());
                    let end: usize = i + em.len();
                    Some((start, end))
                },
                None => Some((start, start)),
            }
        },
        None => None,
    }
}

fn marker_block_chars(s: &Vec<char>) -> (r: Option<(usize, usize)>)
    ensures
        match r {
            Some((a, b)) => marker_block(s@) == Some((a as int, b as int)),
            None => marker_block(s@) is None,
        },
{
    match block_between_exec(s, MARKER_START, MARKER_END) {
        Some(b) => Some(b),
        None => block_between_exec(s, LEGACY_START, LEGACY_END),
    }
}

/// The byte position in the UTF-8 text `s` at which its character number `k` starts.
pub open spec fn byte_offset(s: Seq<char>, k: int) -> int {
    encode_utf8(s.take(k)).len() as int
}

/// The UTF-8 encoding of a concatenation is the concatenation of the encodings.
proof fn lemma_encode_concat(a: Seq<char>, b: Seq<char>)
    ensures
        encode_utf8(a + b) == encode_utf8(a) + encode_utf8(b),
    decreases a.len(),
{
    if a.len() == 0 {
        assert(a + b =~= b);
        assert(encode_utf8(a) =~= Seq::<u8>::empty());
        assert(encode_utf8(a) + encode_utf8(b) =~= encode_utf8(b));
    } else {
        assert((a + b).drop_first() =~= a.drop_first() + b);
        lemma_encode_concat(a.drop_first(), b);
        assert((a + b)[0] == a[0]);
        assert(encode_utf8(a + b) =~= encode_scalar(a[0] as u32) + (encode_utf8(a.drop_first()) + encode_utf8(b)));
    }
}

/// The number of bytes that UTF-8 takes for `c`.
fn utf8_width(c: char) -> (w: usize)
    ensures
        w == encode_utf8(seq![c]).len(),
        1 <= w <= 4,
{
    proof {
        vstd::utf8::char_is_scalar(c);
        assert(seq![c].drop_first() =~= Seq::<char>::empty());
        assert(encode_utf8(Seq::<char>::empty()) =~= Seq::<u8>::empty());
        assert(seq![c][0] == c);
        assert(encode_utf8(seq![c]) == encode_scalar(c as u32) + encode_utf8(seq![c].drop_first()));
        assert(encode_utf8(seq![c]) =~= encode_scalar(c as u32));
    }
    let u = c as u32;
    if u <= 0x7f {
        1
    } else if u <= 0x7ff {
        2
    } else if u <= 0xffff {
        3
    } else {
        4
    }
}

/// The byte position at which character number `k` of `text` (whose characters are
/// `s`) starts.
fn byte_offset_exec(text: &str, s: &Vec<char>, k: usize) -> (r: usize)
    requires
        s@ == text@,
        k <= s.len(),
    ensures
        r == byte_offset(s@, k as int),
{
    let bytes = text.as_bytes();
    proof {
        lemma_encode_concat(s@.take(k as int), s@.skip(k as int));
        assert(s@.take(k as int) + s@.skip(k as int) =~= s@);
        assert(bytes@.len() == encode_utf8(s@).len());
    }
    let total = bytes.len();
    assert(byte_offset(s@, k as int) <= total);
    let mut i: usize = 0;
    let mut acc: usize = 0;
    assert(s@.take(0) =~= Seq::<char>::empty());
    while i < k
        invariant
            i <= k <= s.len(),
            acc == byte_offset(s@, i as int),
            byte_offset(s@, k as int) <= total,
        decreases k - i,
    {
        let w = utf8_width(s[i]);
        proof {
            assert(s@.take(i + 1) =~= s@.take(i as int) + seq![s@[i as int]]);
            lemma_encode_concat(s@.take(i as int), seq![s@[i as int]]);
            lemma_encode_concat(s@.take(i + 1), s@.subrange(i + 1, k as int));
            assert(s@.take(i + 1) + s@.subrange(i + 1, k as int) =~= s@.take(k as int));
            assert(byte_offset(s@, i + 1) == acc + w);
            assert(byte_offset(s@, i + 1) <= byte_offset(s@, k as int));
        }
        acc = acc + w;
        i = i + 1;
    }
    acc
}

/// The installed block in `existing`, as a range of byte positions: where the opening
/// marker starts, and where the first closing marker after it ends (where the block
/// starts when there is no closing marker). The current markers are looked for
/// first, then those of the earlier installer.
pub fn find_marker_block(existing: &str) -> (r: Option<(usize, usize)>)
    ensures
        match r {
            Some((a, b)) => marker_block(existing@) matches Some((s, e)) && a == byte_offset(existing@, s)
                && b == byte_offset(existing@, e),
            None => marker_block(existing@) is None,
        },
{
    let s = chars_of(existing);
    match marker_block_chars(&s) {
        Some((a, b)) => {
            proof {
                lemma_marker_block_in_range(s@);
            }
            Some((byte_offset_exec(existing, &s, a), byte_offset_exec(existing, &s, b)))
        },
        None => None,
    }
}

/// The installed block lies inside the text.
pub proof fn lemma_marker_block_in_range(x: Seq<char>)
    ensures
        marker_block(x) matches Some((start, end)) ==> 0 <= start <= end <= x.len(),
{
    crate::text::lemma_find_from_found(x, MARKER_START@, 0);
    crate::text::lemma_find_from_found(x, LEGACY_START@, 0);
    if let Some((start, end)) = marker_block(x) {
        if block_between(x, MARKER_START@, MARKER_END@) is Some {
            crate::text::lemma_find_from_found(x, MARKER_END@, start);
        } else {
            crate::text::lemma_find_from_found(x, LEGACY_END@, start);
        }
    }
}

/// `rendered` after `existing`, on a line of its own.
pub open spec fn append_block(existing: Seq<char>, rendered: Seq<char>) -> Seq<char> {
    if existing.len() > 0 && existing.last() != '\n' {
        existing + seq!['\n'] + rendered
    } else {
        existing + rendered
    }
}

/// `s` without one leading newline.
pub open spec fn strip_newline(s: Seq<char>) -> Seq<char> {
    if s.len() > 0 && s[0] == '\n' {
        s.drop_first()
    } else {
        s
    }
}

/// `existing` with its installed block replaced by `rendered` (and the newline after
/// the block dropped), or with `rendered` appended when it has none.
pub open spec fn replace_block_spec(existing: Seq<char>, rendered: Seq<char>) -> Seq<char> {
    match marker_block(existing) {
        None => append_block(existing, rendered),
        Some((start, end)) => existing.take(start) + rendered + if end < existing.len() {
            strip_newline(existing.skip(end))
        } else {
            Seq::empty()
        },
    }
}

/// Replaces the installed block of `existing` by `rendered`, or appends `rendered`.
pub fn replace_marker_block(existing: &str, rendered: &str) -> (r: String)
    ensures
        r@ == replace_block_spec(existing@, rendered@),
{
    let s = chars_of(existing);
    let rc = chars_of(rendered);
    let found = marker_block_chars(&s);
    match found {
        None => {
            if s.len() > 0 && s[s.len() - 1] != '\n' {
                let with_nl = concat_chars(&s, &vec!['\n']);
                assert(with_nl@ =~= s@ + seq!['\n']);
                string_of(concat_chars(&with_nl, &rc).as_slice())
            } else {
                string_of(concat_chars(&s, &rc).as_slice())
            }
        },
        Some((start, end)) => {
            proof {
                crate::text::lemma_find_from_found(s@, MARKER_START@, 0);
                crate::text::lemma_find_from_found(s@, LEGACY_START@, 0);
                let (a, b) = marker_block(s@).unwrap();
                if block_between(s@, MARKER_START@, MARKER_END@) is Some {
                    crate::text::lemma_find_from_found(s@, MARKER_END@, a);
                } else {
                    crate::text::lemma_find_from_found(s@, LEGACY_END@, a);
                }
            }
            assert(start <= s.len());
            let head = slice_chars(&s, 0, start);
            let mut out = concat_chars(&head, &rc);
            if end < s.len() {
                let from = if s[end] == '\n' { end + 1 } else { end };
                let rest = slice_chars(&s, from, s.len());
                assert(rest@ =~= strip_newline(s@.skip(end as int)));
                out = concat_chars(&out, &rest);
            } else {
                assert(out@ =~= out@ + Seq::<char>::empty());
            }
            assert(head@ =~= s@.take(start as int));
            string_of(out.as_slice())
        },
    }
}

/// A shell that the installer supports.
#[derive(Debug, Clone, Copy, PartialEq, Eq, Structural)]
pub enum Shell {
    Bash,
    Zsh,
    Fish,
}

/// The last component of a path, as std's `Path::file_name` gives it (`None` for a
/// path that ends in `..` or is a root).
pub uninterp spec fn file_name(p: Seq<char>) -> Option<Seq<char>>;

/// std's `Path::file_name`, for a path held as text. Trusted: the contract claims that
/// the result is `file_name` of `p`, a function of `p` alone; what that name is stays
/// unsaid.
#[verifier::external_body]
fn path_file_name(p: &str) -> (r: Option<String>)
    ensures
        opt_view(r) == file_name(p@),
{
    match std::path::Path::new(p).file_name() {
        Some(n) => Some(n.to_string_lossy().into_owned()),
        None => None,
    }
}

/// The shell that a `$SHELL` value names, by the program's file name.
pub open spec fn shell_of_spec(shell_path: Seq<char>) -> Option<Shell> {
    match file_name(shell_path) {
        Some(n) => if n == "bash"@ {
            Some(Shell::Bash)
        } else if n == "zsh"@ {
            Some(Shell::Zsh)
        } else if n == "fish"@ {
            Some(Shell::Fish)
        } else {
            None
        },
        None => None,
    }
}

/// The shell that the value of `$SHELL` names, if the installer supports it.
pub fn shell_of(shell_path: &str) -> (r: Option<Shell>)
    ensures
        r == shell_of_spec(shell_path@),
{
    match path_file_name(shell_path) {
        Some(n) => {
            let c = chars_of(n.as_str());
            if eq_lit(&c, "bash") {
                Some(Shell::Bash)
            } else if eq_lit(&c, "zsh") {
                Some(Shell::Zsh)
            } else if eq_lit(&c, "fish") {
                Some(Shell::Fish)
            } else {
                None
            }
        },
        None => None,
    }
}

/// The template for a shell.
pub fn template_for(shell: Shell) -> (r: &'static str)
    ensures
        r@ == (if shell == Shell::Fish {
            FISH_TEMPLATE@
        } else {
            BASH_ZSH_TEMPLATE@
        }),
{
    match shell {
        Shell::Fish => FISH_TEMPLATE,
        _ => BASH_ZSH_TEMPLATE,
    }
}

/// `base` joined with `rel` as `PathBuf::join` does (an empty base gives `rel`).
pub open spec fn join_any(base: Seq<char>, rel: Seq<char>) -> Seq<char> {
    if base.len() == 0 {
        rel
    } else {
        join_path(base, rel)
    }
}

fn join_any_exec(base: &str, rel: &str) -> (r: String)
    ensures
        r@ == join_any(base@, rel@),
{
    let b = chars_of(base);
    if b.len() == 0 {
        let r = chars_of(rel);
        string_of(r.as_slice())
    } else {
        string_of(join_path_exec(&b, rel).as_slice())
    }
}

/// Where the function goes for a shell under the home directory `home`: the rc file
/// of bash or zsh, or fish's directory of functions.
pub open spec fn rc_path_spec(shell: Shell, home: Seq<char>) -> Seq<char> {
    match shell {
        Shell::Bash => join_any(home, ".bashrc"@),
        Shell::Zsh => join_any(home, ".zshrc"@),
        Shell::Fish => join_any(home, ".config/fish/functions"@),
    }
}

/// Where the function goes for `shell` under the home directory `home`.
pub fn rc_path(shell: Shell, home: &str) -> (r: String)
    ensures
        r@ == rc_path_spec(shell, home@),
{
    match shell {
        Shell::Bash => join_any_exec(home, ".bashrc"),
        Shell::Zsh => join_any_exec(home, ".zshrc"),
        Shell::Fish => join_any_exec(home, ".config/fish/functions"),
    }
}

/// The file that holds the fish function `name` in the directory `dir`.
pub open spec fn fish_file_spec(dir: Seq<char>, name: Seq<char>) -> Seq<char> {
    join_any(dir, name + ".fish"@)
}

/// The file that holds the fish function `name` in the directory `dir`.
pub fn fish_file(dir: &str, name: &str) -> (r: String)
    ensures
        r@ == fish_file_spec(dir@, name@),
{
    let n = chars_of(name);
    let ext = chars_of(".fish");
    let file = string_of(concat_chars(&n, &ext).as_slice());
    join_any_exec(dir, file.as_str())
}

/// Whether `pat` occurs in `s`.
pub open spec fn contains(s: Seq<char>, pat: Seq<char>) -> bool {
    find_from(s, pat, 0) is Some
}

fn contains_exec(s: &Vec<char>, pat: &Vec<char>) -> (r: bool)
    ensures
        r == contains(s@, pat@),
{
    find_chars(s, pat, 0).is_some()
}

/// Whether an rc file already defines `name`: an `alias name`, a `name()` function or
/// a `function name`.
pub open spec fn rc_defines_spec(content: Seq<char>, name: Seq<char>) -> bool {
    ||| contains(content, "alias "@ + name)
    ||| contains(content, name + "()"@)
    ||| contains(content, "function "@ + name)
}

/// Whether the rc file text `content` already defines `name`.
pub fn rc_defines(content: &str, name: &str) -> (r: bool)
    ensures
        r == rc_defines_spec(content@, name@),
{
    let c = chars_of(content);
    let n = chars_of(name);
    let alias = concat_chars(&chars_of("alias "), &n);
    let func = concat_chars(&n, &chars_of("()"));
    let fish = concat_chars(&chars_of("function "), &n);
    contains_exec(&c, &alias) || contains_exec(&c, &func) || contains_exec(&c, &fish)
}

/// Whether an answer to a yes/no question is yes: `y` or `Y`, blanks around it aside.
pub open spec fn is_yes_spec(answer: Seq<char>) -> bool {
    trim(answer) == "y"@ || trim(answer) == "Y"@
}

/// Whether an answer to a yes/no question is yes.
pub fn is_yes(answer: &str) -> (r: bool)
    ensures
        r == is_yes_spec(answer@),
{
    let t = trim_chars(&chars_of(answer));
    eq_lit(&t, "y") || eq_lit(&t, "Y")
}

/// What to do when the function's name is taken.
#[derive(Debug, Clone, Copy, PartialEq, Eq, Structural)]
pub enum NameChoice {
    /// Install under the name anyway.
    Shadow,
    /// Install as `sicth`.
    Sicth,
    /// Install nothing.
    Abort,
}

/// The choice that an answer to the name question makes: `s` shadows, `i` installs as
/// `sicth` (either case, blanks around them aside), anything else aborts.
pub open spec fn name_choice_spec(answer: Seq<char>) -> NameChoice {
    let t = trim(answer);
    if t == "s"@ || t == "S"@ {
        NameChoice::Shadow
    } else if t == "i"@ || t == "I"@ {
        NameChoice::Sicth
    } else {
        NameChoice::Abort
    }
}

/// The choice that an answer to the name question makes.
pub fn name_choice(answer: &str) -> (r: NameChoice)
    ensures
        r == name_choice_spec(answer@),
{
    let t = trim_chars(&chars_of(answer));
    if eq_lit(&t, "s") || eq_lit(&t, "S") {
        NameChoice::Shadow
    } else if eq_lit(&t, "i") || eq_lit(&t, "I") {
        NameChoice::Sicth
    } else {
        NameChoice::Abort
    }
}

/// Where the installer stands.
#[derive(Debug, PartialEq, Eq)]
pub enum Install {
    /// An installed block exists: ask whether to replace it.
    AskReplace,
    /// The name `sc` is taken: ask what to do.
    AskName,
    /// Show what will be written under the function name, and ask to proceed.
    AskProceed(String),
    /// Write the function under this name.
    Write(String),
    /// Stop, with this exit code (1 is reported as "Aborted.").
    Exit(i32),
}

/// The mathematical value of an `Install`.
pub enum InstallView {
    AskReplace,
    AskName,
    AskProceed(Seq<char>),
    Write(Seq<char>),
    Exit(i32),
}

impl View for Install {
    type V = InstallView;

    open spec fn view(&self) -> InstallView {
        match self {
            Install::AskReplace => InstallView::AskReplace,
            Install::AskName => InstallView::AskName,
            Install::AskProceed(n) => InstallView::AskProceed(n@),
            Install::Write(n) => InstallView::Write(n@),
            Install::Exit(c) => InstallView::Exit(*c),
        }
    }
}

/// Where the installer starts: with an installed block it asks to replace it; else,
/// with `sc` taken, it asks for the name; else it asks to proceed under `sc`.
pub open spec fn install_begin_spec(marker_present: bool, name_taken: bool) -> InstallView {
    if marker_present {
        InstallView::AskReplace
    } else if name_taken {
        InstallView::AskName
    } else {
        InstallView::AskProceed("sc"@)
    }
}

/// Where the installer starts.
pub fn install_begin(marker_present: bool, name_taken: bool) -> (r: Install)
    ensures
        r@ == install_begin_spec(marker_present, name_taken),
{
    if marker_present {
        Install::AskReplace
    } else if name_taken {
        Install::AskName
    } else {
        Install::AskProceed(string_of(chars_of("sc").as_slice()))
    }
}

/// The installer's step on the answer to its question: "no" to replacing ends with 0;
/// the name answer shadows `sc`, switches to `sicth`, or aborts with 1; "no" to
/// proceeding aborts with 1, "yes" writes. States without a question stay as they are.
pub open spec fn install_step_spec(state: InstallView, answer: Seq<char>) -> InstallView {
    match state {
        InstallView::AskReplace => if is_yes_spec(answer) {
            InstallView::AskProceed("sc"@)
        } else {
            InstallView::Exit(0)
        },
        InstallView::AskName => match name_choice_spec(answer) {
            NameChoice::Shadow => InstallView::AskProceed("sc"@),
            NameChoice::Sicth => InstallView::AskProceed("sicth"@),
            NameChoice::Abort => InstallView::Exit(1),
        },
        InstallView::AskProceed(name) => if is_yes_spec(answer) {
            InstallView::Write(name)
        } else {
            InstallView::Exit(1)
        },
        other => other,
    }
}

/// The installer's step on `answer`.
pub fn install_step(state: Install, answer: &str) -> (r: Install)
    ensures
        r@ == install_step_spec(state@, answer@),
{
    match state {
        Install::AskReplace => if is_yes(answer) {
            Install::AskProceed(string_of(chars_of("sc").as_slice()))
        } else {
            Install::Exit(0)
        },
        Install::AskName => match name_choice(answer) {
            NameChoice::Shadow => Install::AskProceed(string_of(chars_of("sc").as_slice())),
            NameChoice::Sicth => Install::AskProceed(string_of(chars_of("sicth").as_slice())),
            NameChoice::Abort => Install::Exit(1),
        },
        Install::AskProceed(name) => if is_yes(answer) {
            Install::Write(name)
        } else {
            Install::Exit(1)
        },
        other => other,
    }
}

/// The text that the rc file of bash or zsh holds after installing `rendered` over its
/// text `existing`; a fish function file holds `rendered` alone.
pub fn installed_text(shell: Shell, existing: &str, rendered: &str) -> (r: String)
    ensures
        r@ == (if shell == Shell::Fish {
            rendered@
        } else {
            replace_block_spec(existing@, rendered@)
        }),
{
    if shell == Shell::Fish {
        string_of(chars_of(rendered).as_slice())
    } else {
        replace_marker_block(existing, rendered)
    }
}

} // verus!
