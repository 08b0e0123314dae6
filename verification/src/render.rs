//! What the list and the query bar show: the icon and color of an entry, its
//! label and style under the display settings, and the text of the query bar.
use vstd::prelude::*;
use crate::app::{parent_path, path_parent, App, AppView, Mode};
use crate::model::{Entry, Kind};
use crate::settings::Display;
use crate::text::{chars_of, concat_chars, eq_lit, lowercase, slice_chars, string_of, to_lowercase};

verus! {

/// The colors that the navigator draws with.
#[derive(Debug, Clone, Copy, PartialEq, Eq, Structural)]
pub enum Color {
    Blue,
    Yellow,
    White,
    Cyan,
    Magenta,
    Red,
    Green,
    DarkGray,
}

/// How a piece of text is drawn.
#[derive(Debug, Clone, Copy, PartialEq, Eq, Structural)]
pub struct Style {
    pub fg: Option<Color>,
    pub bg: Option<Color>,
    pub bold: bool,
    pub italic: bool,
    pub reversed: bool,
}

/// The style with nothing set.
pub open spec fn plain() -> Style {
    Style { fg: None, bg: None, bold: false, italic: false, reversed: false }
}

/// What follows the last `.` of a name (the whole name when it has none).
pub open spec fn extension(name: Seq<char>) -> Seq<char>
    decreases name.len(),
{
    if name.len() == 0 || name.last() == '.' {
        Seq::empty()
    } else {
        extension(name.drop_last()).push(name.last())
    }
}

fn extension_exec(name: &Vec<char>) -> (r: Vec<char>)
    ensures
        r@ == extension(name@),
{
    let mut start: usize = name.len();
    assert(name@.subrange(0, name@.len() as int) =~= name@);
    assert(extension(name@) + name@.subrange(name@.len() as int, name@.len() as int) =~= extension(name@));
    while start > 0 && name[start - 1] != '.'
        invariant
            start <= name.len(),
            extension(name@) == extension(name@.subrange(0, start as int)) + name@.subrange(
                start as int,
                name@.len() as int,
            ),
        decreases start,
    {
        let ghost pre = name@.subrange(0, start as int);
        assert(pre.drop_last() =~= name@.subrange(0, start - 1));
        assert(name@.subrange(start - 1, name@.len() as int) =~= seq![pre.last()] + name@.subrange(
            start as int,
            name@.len() as int,
        ));
        assert(extension(pre) =~= extension(pre.drop_last()).push(pre.last()));
        assert(extension(pre.drop_last()).push(pre.last()) + name@.subrange(start as int, name@.len() as int)
            =~= extension(name@.subrange(0, start - 1)) + name@.subrange(start - 1, name@.len() as int));
        start -= 1;
    }
    assert(extension(name@.subrange(0, start as int)) =~= Seq::<char>::empty());
    assert(name@.subrange(0, name@.len() as int) =~= name@);
    slice_chars(name, start, name.len())
}

/// Source code, by extension.
pub open spec fn is_code_ext(ext: Seq<char>) -> bool {
    ext == "rs"@
    || ext == "c"@
    || ext == "h"@
    || ext == "cpp"@
    || ext == "hpp"@
    || ext == "cc"@
    || ext == "py"@
    || ext == "js"@
    || ext == "ts"@
    || ext == "jsx"@
    || ext == "tsx"@
    || ext == "mjs"@
    || ext == "go"@
    || ext == "java"@
    || ext == "kt"@
    || ext == "rb"@
    || ext == "sh"@
    || ext == "bash"@
    || ext == "zsh"@
    || ext == "fish"@
    || ext == "lua"@
    || ext == "pl"@
    || ext == "hs"@
    || ext == "ml"@
    || ext == "clj"@
    || ext == "cljs"@
    || ext == "zig"@
    || ext == "v"@
    || ext == "swift"@
}

fn is_code_ext_exec(ext: &Vec<char>) -> (r: bool)
    ensures
        r == is_code_ext(ext@),
{
    eq_lit(ext, "rs")
        || eq_lit(ext, "c")
        || eq_lit(ext, "h")
        || eq_lit(ext, "cpp")
        || eq_lit(ext, "hpp")
        || eq_lit(ext, "cc")
        || eq_lit(ext, "py")
        || eq_lit(ext, "js")
        || eq_lit(ext, "ts")
        || eq_lit(ext, "jsx")
        || eq_lit(ext, "tsx")
        || eq_lit(ext, "mjs")
        || eq_lit(ext, "go")
        || eq_lit(ext, "java")
        || eq_lit(ext, "kt")
        || eq_lit(ext, "rb")
        || eq_lit(ext, "sh")
        || eq_lit(ext, "bash")
        || eq_lit(ext, "zsh")
        || eq_lit(ext, "fish")
        || eq_lit(ext, "lua")
        || eq_lit(ext, "pl")
        || eq_lit(ext, "hs")
        || eq_lit(ext, "ml")
        || eq_lit(ext, "clj")
        || eq_lit(ext, "cljs")
        || eq_lit(ext, "zig")
        || eq_lit(ext, "v")
        || eq_lit(ext, "swift")
}

/// Text, by extension.
pub open spec fn is_text_ext(ext: Seq<char>) -> bool {
    ext == "txt"@
    || ext == "md"@
    || ext == "org"@
    || ext == "rst"@
    || ext == "log"@
    || ext == "tex"@
}

fn is_text_ext_exec(ext: &Vec<char>) -> (r: bool)
    ensures
        r == is_text_ext(ext@),
{
    eq_lit(ext, "txt")
        || eq_lit(ext, "md")
        || eq_lit(ext, "org")
        || eq_lit(ext, "rst")
        || eq_lit(ext, "log")
        || eq_lit(ext, "tex")
}

/// Configuration, by extension.
pub open spec fn is_config_ext(ext: Seq<char>) -> bool {
    ext == "toml"@
    || ext == "yaml"@
    || ext == "yml"@
    || ext == "json"@
    || ext == "ini"@
    || ext == "cfg"@
    || ext == "conf"@
    || ext == "xml"@
    || ext == "env"@
    || ext == "lock"@
}

fn is_config_ext_exec(ext: &Vec<char>) -> (r: bool)
    ensures
        r == is_config_ext(ext@),
{
    eq_lit(ext, "toml")
        || eq_lit(ext, "yaml")
        || eq_lit(ext, "yml")
        || eq_lit(ext, "json")
        || eq_lit(ext, "ini")
        || eq_lit(ext, "cfg")
        || eq_lit(ext, "conf")
        || eq_lit(ext, "xml")
        || eq_lit(ext, "env")
        || eq_lit(ext, "lock")
}

/// Images, by extension.
pub open spec fn is_image_ext(ext: Seq<char>) -> bool {
    ext == "png"@
    || ext == "jpg"@
    || ext == "jpeg"@
    || ext == "gif"@
    || ext == "bmp"@
    || ext == "svg"@
    || ext == "webp"@
    || ext == "ico"@
    || ext == "avif"@
}

fn is_image_ext_exec(ext: &Vec<char>) -> (r: bool)
    ensures
        r == is_image_ext(ext@),
{
    eq_lit(ext, "png")
        || eq_lit(ext, "jpg")
        || eq_lit(ext, "jpeg")
        || eq_lit(ext, "gif")
        || eq_lit(ext, "bmp")
        || eq_lit(ext, "svg")
        || eq_lit(ext, "webp")
        || eq_lit(ext, "ico")
        || eq_lit(ext, "avif")
}

/// Audio, by extension.
pub open spec fn is_audio_ext(ext: Seq<char>) -> bool {
    ext == "mp3"@
    || ext == "flac"@
    || ext == "ogg"@
    || ext == "oga"@
    || ext == "wav"@
    || ext == "m4a"@
    || ext == "opus"@
}

fn is_audio_ext_exec(ext: &Vec<char>) -> (r: bool)
    ensures
        r == is_audio_ext(ext@),
{
    eq_lit(ext, "mp3")
        || eq_lit(ext, "flac")
        || eq_lit(ext, "ogg")
        || eq_lit(ext, "oga")
        || eq_lit(ext, "wav")
        || eq_lit(ext, "m4a")
        || eq_lit(ext, "opus")
}

/// Video, by extension.
pub open spec fn is_video_ext(ext: Seq<char>) -> bool {
    ext == "mp4"@
    || ext == "mkv"@
    || ext == "avi"@
    || ext == "mov"@
    || ext == "webm"@
    || ext == "m4v"@
}

fn is_video_ext_exec(ext: &Vec<char>) -> (r: bool)
    ensures
        r == is_video_ext(ext@),
{
    eq_lit(ext, "mp4")
        || eq_lit(ext, "mkv")
        || eq_lit(ext, "avi")
        || eq_lit(ext, "mov")
        || eq_lit(ext, "webm")
        || eq_lit(ext, "m4v")
}

/// Archives, by extension.
pub open spec fn is_archive_ext(ext: Seq<char>) -> bool {
    ext == "zip"@
    || ext == "tar"@
    || ext == "gz"@
    || ext == "tgz"@
    || ext == "bz2"@
    || ext == "xz"@
    || ext == "7z"@
    || ext == "rar"@
    || ext == "zst"@
}

fn is_archive_ext_exec(ext: &Vec<char>) -> (r: bool)
    ensures
        r == is_archive_ext(ext@),
{
    eq_lit(ext, "zip")
        || eq_lit(ext, "tar")
        || eq_lit(ext, "gz")
        || eq_lit(ext, "tgz")
        || eq_lit(ext, "bz2")
        || eq_lit(ext, "xz")
        || eq_lit(ext, "7z")
        || eq_lit(ext, "rar")
        || eq_lit(ext, "zst")
}

/// PDF, by extension.
pub open spec fn is_pdf_ext(ext: Seq<char>) -> bool {
    ext == "pdf"@
}

fn is_pdf_ext_exec(ext: &Vec<char>) -> (r: bool)
    ensures
        r == is_pdf_ext(ext@),
{
    eq_lit(ext, "pdf")
}

/// Executables, by extension.
pub open spec fn is_executable_ext(ext: Seq<char>) -> bool {
    ext == "exe"@
    || ext == "bin"@
    || ext == "appimage"@
}

fn is_executable_ext_exec(ext: &Vec<char>) -> (r: bool)
    ensures
        r == is_executable_ext(ext@),
{
    eq_lit(ext, "exe")
        || eq_lit(ext, "bin")
        || eq_lit(ext, "appimage")
}

/// The Nerd Font icon and the color of an entry whose lower-cased name is `lname`:
/// by kind, then by extension; a file without a `.` in its name that is executable
/// gets the icon of programs.
pub open spec fn glyph_spec(lname: Seq<char>, is_dir: bool, executable: bool) -> (char, Color) {
    let ext = extension(lname);
    if is_dir {
        ('\u{f07b}', Color::Blue)
    } else if is_code_ext(ext) {
        ('\u{f121}', Color::Yellow)
    } else if is_text_ext(ext) {
        ('\u{f15c}', Color::White)
    } else if is_config_ext(ext) {
        ('\u{e615}', Color::Cyan)
    } else if is_image_ext(ext) {
        ('\u{f1c5}', Color::Magenta)
    } else if is_audio_ext(ext) {
        ('\u{f1c7}', Color::Cyan)
    } else if is_video_ext(ext) {
        ('\u{f1c8}', Color::Magenta)
    } else if is_archive_ext(ext) {
        ('\u{f410}', Color::Red)
    } else if is_pdf_ext(ext) {
        ('\u{f1c1}', Color::Red)
    } else if is_executable_ext(ext) {
        ('\u{f489}', Color::Green)
    } else if !lname.contains('.') && executable {
        ('\u{f489}', Color::Green)
    } else {
        ('\u{f016}', Color::White)
    }
}

fn has_dot(s: &Vec<char>) -> (r: bool)
    ensures
        r == s@.contains('.'),
{
    let mut i: usize = 0;
    while i < s.len()
        invariant
            i <= s.len(),
            forall|k: int| 0 <= k < i ==> s@[k] != '.',
        decreases s.len() - i,
    {
        if s[i] == '.' {
            assert(s@[i as int] == '.');
            return true;
        }
        i += 1;
    }
    false
}

/// The icon and color of an entry named `rel`; `executable` tells whether the file
/// has an execute permission bit set.
pub fn glyph(rel: &str, is_dir: bool, executable: bool) -> (r: (char, Color))
    ensures
        r == glyph_spec(lowercase(rel@), is_dir, executable),
{
    if is_dir {
        return ('\u{f07b}', Color::Blue);
    }
    let lower = to_lowercase(rel);
    let name = chars_of(lower.as_str());
    let ext = extension_exec(&name);
    if is_code_ext_exec(&ext) {
        ('\u{f121}', Color::Yellow)
    } else if is_text_ext_exec(&ext) {
        ('\u{f15c}', Color::White)
    } else if is_config_ext_exec(&ext) {
        ('\u{e615}', Color::Cyan)
    } else if is_image_ext_exec(&ext) {
        ('\u{f1c5}', Color::Magenta)
    } else if is_audio_ext_exec(&ext) {
        ('\u{f1c7}', Color::Cyan)
    } else if is_video_ext_exec(&ext) {
        ('\u{f1c8}', Color::Magenta)
    } else if is_archive_ext_exec(&ext) {
        ('\u{f410}', Color::Red)
    } else if is_pdf_ext_exec(&ext) {
        ('\u{f1c1}', Color::Red)
    } else if is_executable_ext_exec(&ext) {
        ('\u{f489}', Color::Green)
    } else if !has_dot(&name) && executable {
        ('\u{f489}', Color::Green)
    } else {
        ('\u{f016}', Color::White)
    }
}

/// One row of the list.
#[derive(Debug)]
pub struct EntryLine {
    /// The icon before the name, if icons are shown.
    pub icon: Option<char>,
    /// The name, with a `/` after directory names if those are marked.
    pub label: String,
    pub style: Style,
}

/// The label of an entry: its name, with a trailing `/` for a directory when
/// `slash_dirs` is on.
pub open spec fn label_spec(rel: Seq<char>, is_dir: bool, display: Display) -> Seq<char> {
    if is_dir && display.slash_dirs {
        rel.push('/')
    } else {
        rel
    }
}

/// The style of an entry's row: the icon's color and bold directory names, both only
/// with `colors` on, bold only with `bold_dirs` on.
pub open spec fn entry_style_spec(color: Color, is_dir: bool, display: Display) -> Style {
    Style {
        fg: if display.colors { Some(color) } else { None },
        bg: None,
        bold: display.colors && display.bold_dirs && is_dir,
        italic: false,
        reversed: false,
    }
}

/// The row that shows `e`; `executable` tells whether it has an execute permission bit.
/// Icons show only with both `icons` and `colors` on.
pub fn entry_line(e: &Entry, display: Display, executable: bool) -> (r: EntryLine)
    ensures
        ({
            let g = glyph_spec(lowercase(e.rel@), e.kind == Kind::Dir, executable);
            &&& r.icon == (if display.icons && display.colors { Some(g.0) } else { None })
            &&& r.label@ == label_spec(e.rel@, e.kind == Kind::Dir, display)
            &&& r.style == entry_style_spec(g.1, e.kind == Kind::Dir, display)
        }),
{
    let is_dir = e.kind == Kind::Dir;
    let g = glyph(e.rel.as_str(), is_dir, executable);
    let name = chars_of(e.rel.as_str());
    let label = if is_dir && display.slash_dirs {
        let mut l = name;
        l.push('/');
        string_of(l.as_slice())
    } else {
        string_of(name.as_slice())
    };
    EntryLine {
        icon: if display.icons && display.colors { Some(g.0) } else { None },
        label,
        style: Style {
            fg: if display.colors { Some(g.1) } else { None },
            bg: None,
            bold: display.colors && display.bold_dirs && is_dir,
            italic: false,
            reversed: false,
        },
    }
}

/// How the selected row is drawn: on a dark gray background, or in reverse video
/// with `colors` off.
pub fn highlight_style(display: Display) -> (r: Style)
    ensures
        r == (if display.colors {
            Style { bg: Some(Color::DarkGray), ..plain() }
        } else {
            Style { reversed: true, ..plain() }
        }),
{
    if display.colors {
        Style { fg: None, bg: Some(Color::DarkGray), bold: false, italic: false, reversed: false }
    } else {
        Style { fg: None, bg: None, bold: false, italic: false, reversed: true }
    }
}

/// The row of the list that holds the selection, among `shown` rows starting at entry
/// `scroll_offset`.
pub fn highlight_row(selected: usize, scroll_offset: usize, shown: usize) -> (r: Option<usize>)
    ensures
        r == (if selected >= scroll_offset && selected - scroll_offset < shown {
            Some((selected - scroll_offset) as usize)
        } else if selected < scroll_offset && shown > 0 {
            Some(0usize)
        } else {
            None
        }),
{
    let rel = if selected >= scroll_offset { selected - scroll_offset } else { 0 };
    if shown > 0 && rel < shown {
        Some(rel)
    } else {
        None
    }
}

/// The width of the three buttons and the space after them.
pub const BUTTONS_WIDTH: u16 = 4;

/// `s` cut to at most `max_len` characters, ending in `…` where it was cut; a width of
/// zero cuts nothing.
pub open spec fn truncate_spec(s: Seq<char>, max_len: int) -> Seq<char> {
    if s.len() > max_len && max_len > 0 {
        s.take(max_len - 1).push('\u{2026}')
    } else {
        s
    }
}

/// The query bar: the back, forward and parent buttons (each with whether it can be
/// used), when the mouse is on; then the query, or when it is empty and `show_cwd` is
/// on the current directory in place of it.
#[derive(Debug)]
pub struct QueryBar {
    pub buttons: Option<(bool, bool, bool)>,
    /// The query, or the text shown in place of an empty one.
    pub text: String,
    /// Whether `text` stands in for an empty query (drawn dim and italic).
    pub placeholder: bool,
    /// The column of the cursor, counted from the bar's left edge.
    pub cursor: u16,
}

/// The query bar of `s` in a bar `width` cells wide.
pub open spec fn query_bar_spec(s: AppView, width: u16) -> (Option<(bool, bool, bool)>, Seq<char>, bool, int) {
    let prefix: int = if s.settings.display.mouse { BUTTONS_WIDTH as int } else { 0 };
    let buttons = if s.settings.display.mouse {
        Some((s.back.len() > 0, s.forward.len() > 0, parent_path(s.cwd) is Some))
    } else {
        None
    };
    let max_len = if width >= prefix { width - prefix } else { 0 };
    let text = if s.query.len() > 0 {
        s.query
    } else if s.settings.display.show_cwd {
        truncate_spec(s.cwd, max_len)
    } else {
        Seq::empty()
    };
    let cursor = if prefix + s.query.len() > u16::MAX { u16::MAX as int } else { prefix + s.query.len() };
    (buttons, text, s.query.len() == 0, cursor)
}

/// The query bar of `app` in a bar `width` cells wide.
pub fn query_bar(app: &App, width: u16) -> (r: QueryBar)
    ensures
        ({
            let (buttons, text, placeholder, cursor) = query_bar_spec(app@, width);
            &&& r.buttons == buttons
            &&& r.text@ == text
            &&& r.placeholder == placeholder
            &&& r.cursor == cursor
        }),
{
    let mouse = app.settings.display.mouse;
    let prefix: u16 = if mouse { BUTTONS_WIDTH } else { 0 };
    let buttons = if mouse {
        let up = path_parent(app.cwd.as_str()).is_some();
        Some((app.nav_back.len() > 0, app.nav_forward.len() > 0, up))
    } else {
        None
    };
    let q = chars_of(app.query.as_str());
    let max_len: usize = if width >= prefix { (width - prefix) as usize } else { 0 };
    let text = if q.len() > 0 {
        string_of(q.as_slice())
    } else if app.settings.display.show_cwd {
        let c = chars_of(app.cwd.as_str());
        if c.len() > max_len && max_len > 0 {
            let mut t = slice_chars(&c, 0, max_len - 1);
            t.push('\u{2026}');
            assert(t@ =~= c@.take(max_len - 1).push('\u{2026}'));
            string_of(t.as_slice())
        } else {
            string_of(c.as_slice())
        }
    } else {
        string_of(Vec::<char>::new().as_slice())
    };
    let cursor: u16 = if q.len() > (65535 - prefix) as usize {
        65535
    } else {
        prefix + q.len() as u16
    };
    QueryBar { buttons, text, placeholder: q.len() == 0, cursor }
}

/// How a button of the query bar is drawn: bold cyan when it can be used, dark gray
/// when not; without colors, plain.
pub fn button_style(enabled: bool, display: Display) -> (r: Style)
    ensures
        r == (if !display.colors {
            plain()
        } else if enabled {
            Style { fg: Some(Color::Cyan), bold: true, ..plain() }
        } else {
            Style { fg: Some(Color::DarkGray), ..plain() }
        }),
{
    if !display.colors {
        Style { fg: None, bg: None, bold: false, italic: false, reversed: false }
    } else if enabled {
        Style { fg: Some(Color::Cyan), bg: None, bold: true, italic: false, reversed: false }
    } else {
        Style { fg: Some(Color::DarkGray), bg: None, bold: false, italic: false, reversed: false }
    }
}

/// How the text standing in for an empty query is drawn: italic, and dark gray with
/// colors on.
pub fn placeholder_style(display: Display) -> (r: Style)
    ensures
        r == (if display.colors {
            Style { fg: Some(Color::DarkGray), italic: true, ..plain() }
        } else {
            Style { italic: true, ..plain() }
        }),
{
    if display.colors {
        Style { fg: Some(Color::DarkGray), bg: None, bold: false, italic: true, reversed: false }
    } else {
        Style { fg: None, bg: None, bold: false, italic: true, reversed: false }
    }
}

/// The rows for entries below the query bar, in an area of `height` rows: Command mode
/// gives one of them to the line that names the directory the command runs in.
pub fn list_height(mode: Mode, height: u16) -> (r: u16)
    ensures
        r as int == (if mode == Mode::Command && height > 0 {
            height - 1
        } else if mode == Mode::Command {
            0
        } else {
            height as int
        }),
{
    if mode == Mode::Command {
        if height > 0 { height - 1 } else { 0 }
    } else {
        height
    }
}

/// A file's label is its name, unchanged, whatever the display settings; a
/// directory's label is its name with one `/` after it when `slash_dirs` is on, and
/// its name alone when it is off.
pub proof fn law_labels(rel: Seq<char>, display: Display)
    ensures
        label_spec(rel, false, display) == rel,
        display.slash_dirs ==> label_spec(rel, true, display).len() == rel.len() + 1
            && label_spec(rel, true, display).take(rel.len() as int) == rel
            && label_spec(rel, true, display).last() == '/',
        !display.slash_dirs ==> label_spec(rel, true, display) == rel,
{
    assert(rel.push('/').take(rel.len() as int) =~= rel);
}

} // verus!
