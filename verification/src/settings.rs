//! Settings: their defaults, the `key = value` config file, and the command line.
//!
//! Precedence is built-in defaults, then the config file, then command-line flags:
//! `parse_config` starts from the defaults, and `parse_args_inner` starts from the
//! settings that the config file gave.
use vstd::prelude::*;
use crate::text::{
    begins_with, chars_of, concat_chars, cut_state, eq_lit, find_chars, find_from, parse_u16,
    parse_u16_spec, slice_chars, split_on, starts_with_lit, string_of, has_prefix, trim, trim_chars,
};

verus! {

/// How Browse entries are ordered.
#[derive(Debug, Clone, Copy, PartialEq, Eq, Structural, Default)]
pub enum SortKey {
    #[default]
    Name,
    Size,
    Mtime,
}

/// What is listed, and in which order.
#[derive(Debug, Clone, Copy, PartialEq, Eq, Structural)]
pub struct Listing {
    pub show_hidden: bool,
    pub recursive: bool,
    pub ignore_gitignore: bool,
    pub follow_links: bool,
    pub show_all: bool,
    pub sort_by: SortKey,
    pub dirs_first: bool,
    pub reverse: bool,
}

/// How the search behaves.
#[derive(Debug, Clone, Copy, PartialEq, Eq, Structural)]
pub struct Search {
    pub exact: bool,
    pub case_insensitive: bool,
    pub quit_on_match: bool,
    pub wrap_selection: bool,
}

/// How the list and the popup look.
#[derive(Debug, Clone, Copy, PartialEq, Eq, Structural)]
pub struct Display {
    pub icons: bool,
    pub colors: bool,
    pub bold_dirs: bool,
    pub slash_dirs: bool,
    pub show_cwd: bool,
    pub mouse: bool,
    pub fullscreen: bool,
    pub popup_percent: u16,
}

/// How files are opened, and where the navigator starts.
#[derive(Debug, PartialEq, Eq)]
pub struct Launch {
    pub editor: Option<String>,
    pub open_system: bool,
    pub home_scope: bool,
    pub keep_open: bool,
}

/// The mathematical value of `Launch`.
pub struct LaunchView {
    pub editor: Option<Seq<char>>,
    pub open_system: bool,
    pub home_scope: bool,
    pub keep_open: bool,
}

/// Every option of the navigator, in groups.
#[derive(Debug, PartialEq, Eq)]
pub struct Settings {
    pub listing: Listing,
    pub search: Search,
    pub display: Display,
    pub launch: Launch,
}

/// The mathematical value of `Settings`.
pub struct SettingsView {
    pub listing: Listing,
    pub search: Search,
    pub display: Display,
    pub launch: LaunchView,
}

/// The view of an optional string.
pub open spec fn opt_view(o: Option<String>) -> Option<Seq<char>> {
    match o {
        Some(s) => Some(s@),
        None => None,
    }
}

impl View for Launch {
    type V = LaunchView;

    open spec fn view(&self) -> LaunchView {
        LaunchView {
            editor: opt_view(self.editor),
            open_system: self.open_system,
            home_scope: self.home_scope,
            keep_open: self.keep_open,
        }
    }
}

impl View for Settings {
    type V = SettingsView;

    open spec fn view(&self) -> SettingsView {
        SettingsView {
            listing: self.listing,
            search: self.search,
            display: self.display,
            launch: self.launch@,
        }
    }
}

/// The built-in defaults (see the configuration reference).
pub open spec fn default_settings() -> SettingsView {
    SettingsView {
        listing: Listing {
            show_hidden: false,
            recursive: false,
            ignore_gitignore: false,
            follow_links: false,
            show_all: false,
            sort_by: SortKey::Name,
            dirs_first: true,
            reverse: false,
        },
        search: Search {
            exact: false,
            case_insensitive: false,
            quit_on_match: false,
            wrap_selection: false,
        },
        display: Display {
            icons: true,
            colors: true,
            bold_dirs: true,
            slash_dirs: true,
            show_cwd: true,
            mouse: true,
            fullscreen: false,
            popup_percent: 40,
        },
        launch: LaunchView {
            editor: None,
            open_system: false,
            home_scope: false,
            keep_open: false,
        },
    }
}

impl Default for Settings {
    fn default() -> (s: Self)
        ensures
            s@ == default_settings(),
    {
        Settings {
            listing: Listing {
                show_hidden: false,
                recursive: false,
                ignore_gitignore: false,
                follow_links: false,
                show_all: false,
                sort_by: SortKey::Name,
                dirs_first: true,
                reverse: false,
            },
            search: Search {
                exact: false,
                case_insensitive: false,
                quit_on_match: false,
                wrap_selection: false,
            },
            display: Display {
                icons: true,
                colors: true,
                bold_dirs: true,
                slash_dirs: true,
                show_cwd: true,
                mouse: true,
                fullscreen: false,
                popup_percent: 40,
            },
            launch: Launch {
                editor: None,
                open_system: false,
                home_scope: false,
                keep_open: false,
            },
        }
    }
}

impl Clone for Launch {
    fn clone(&self) -> (r: Self)
        ensures
            r@ == self@,
    {
        let editor = self.editor.clone();
        proof {
            if self.editor is Some {
                assert(cloned::<String>(self.editor.unwrap(), editor.unwrap()));
            }
        }
        Launch {
            editor,
            open_system: self.open_system,
            home_scope: self.home_scope,
            keep_open: self.keep_open,
        }
    }
}

impl Clone for Settings {
    fn clone(&self) -> (r: Self)
        ensures
            r@ == self@,
    {
        Settings {
            listing: self.listing,
            search: self.search,
            display: self.display,
            launch: self.launch.clone(),
        }
    }
}

/// `"true"` and `"false"` are booleans; anything else keeps `fallback`.
pub open spec fn parse_bool_spec(raw: Seq<char>, fallback: bool) -> bool {
    if raw == "true"@ {
        true
    } else if raw == "false"@ {
        false
    } else {
        fallback
    }
}

pub fn parse_bool(raw: &Vec<char>, fallback: bool) -> (r: bool)
    ensures
        r == parse_bool_spec(raw@, fallback),
{
    if eq_lit(raw, "true") {
        true
    } else if eq_lit(raw, "false") {
        false
    } else {
        fallback
    }
}

/// The sort key that a config word names, if any.
pub open spec fn parse_sort_key_spec(raw: Seq<char>) -> Option<SortKey> {
    if raw == "name"@ {
        Some(SortKey::Name)
    } else if raw == "size"@ {
        Some(SortKey::Size)
    } else if raw == "mtime"@ {
        Some(SortKey::Mtime)
    } else {
        None
    }
}

pub fn parse_sort_key(raw: &Vec<char>) -> (r: Option<SortKey>)
    ensures
        r == parse_sort_key_spec(raw@),
{
    if eq_lit(raw, "name") {
        Some(SortKey::Name)
    } else if eq_lit(raw, "size") {
        Some(SortKey::Size)
    } else if eq_lit(raw, "mtime") {
        Some(SortKey::Mtime)
    } else {
        None
    }
}

/// `n` brought into `lo..=hi`.
pub open spec fn clamp(n: int, lo: int, hi: int) -> int {
    if n < lo {
        lo
    } else if n > hi {
        hi
    } else {
        n
    }
}

/// `s` without leading and trailing copies of `c` (std's `str::trim_matches` with a char).
pub open spec fn strip_char(s: Seq<char>, c: char) -> Seq<char>
    decreases s.len(),
{
    if s.len() > 0 && s[0] == c {
        strip_char(s.drop_first(), c)
    } else if s.len() > 0 && s.last() == c {
        strip_char(s.drop_last(), c)
    } else {
        s
    }
}

fn strip_char_exec(s: &Vec<char>, c: char) -> (r: Vec<char>)
    ensures
        r@ == strip_char(s@, c),
{
    let mut a: usize = 0;
    let mut b: usize = s.len();
    assert(s@.subrange(0, s@.len() as int) =~= s@);
    while a < b && (s[a] == c || s[b - 1] == c)
        invariant
            a <= b <= s.len(),
            strip_char(s@, c) == strip_char(s@.subrange(a as int, b as int), c),
        decreases b - a,
    {
        if s[a] == c {
            assert(s@.subrange(a as int, b as int).drop_first() =~= s@.subrange(a + 1, b as int));
            a += 1;
        } else {
            assert(s@.subrange(a as int, b as int).drop_last() =~= s@.subrange(a as int, b - 1));
            b -= 1;
        }
    }
    slice_chars(s, a, b)
}

/// Whether `key` names a setting of the `listing` group.
pub open spec fn is_listing_key(key: Seq<char>) -> bool {
    key == "show_hidden"@
        || key == "recursive"@
        || key == "ignore_gitignore"@
        || key == "follow_links"@
        || key == "show_all"@
        || key == "sort_by"@
        || key == "dirs_first"@
        || key == "reverse"@
}

/// The `listing` group after the setting `key = value`.
pub open spec fn update_listing(l: Listing, key: Seq<char>, value: Seq<char>) -> Listing {
    if key == "show_hidden"@ {
        Listing { show_hidden: parse_bool_spec(value, l.show_hidden), ..l }
    } else if key == "recursive"@ {
        Listing { recursive: parse_bool_spec(value, l.recursive), ..l }
    } else if key == "ignore_gitignore"@ {
        Listing { ignore_gitignore: parse_bool_spec(value, l.ignore_gitignore), ..l }
    } else if key == "follow_links"@ {
        Listing { follow_links: parse_bool_spec(value, l.follow_links), ..l }
    } else if key == "show_all"@ {
        Listing { show_all: parse_bool_spec(value, l.show_all), ..l }
    } else if key == "sort_by"@ {
        match parse_sort_key_spec(value) {
            Some(k) => Listing { sort_by: k, ..l },
            None => l,
        }
    } else if key == "dirs_first"@ {
        Listing { dirs_first: parse_bool_spec(value, l.dirs_first), ..l }
    } else if key == "reverse"@ {
        Listing { reverse: parse_bool_spec(value, l.reverse), ..l }
    } else {
        l
    }
}

/// Whether `key` names a setting of the `search` group.
pub open spec fn is_search_key(key: Seq<char>) -> bool {
    key == "exact"@
        || key == "case_insensitive"@
        || key == "quit_on_match"@
        || key == "wrap_selection"@
}

/// The `search` group after the setting `key = value`.
pub open spec fn update_search(l: Search, key: Seq<char>, value: Seq<char>) -> Search {
    if key == "exact"@ {
        Search { exact: parse_bool_spec(value, l.exact), ..l }
    } else if key == "case_insensitive"@ {
        Search { case_insensitive: parse_bool_spec(value, l.case_insensitive), ..l }
    } else if key == "quit_on_match"@ {
        Search { quit_on_match: parse_bool_spec(value, l.quit_on_match), ..l }
    } else if key == "wrap_selection"@ {
        Search { wrap_selection: parse_bool_spec(value, l.wrap_selection), ..l }
    } else {
        l
    }
}

/// Whether `key` names a setting of the `display` group.
pub open spec fn is_display_key(key: Seq<char>) -> bool {
    key == "icons"@
        || key == "colors"@
        || key == "bold_dirs"@
        || key == "slash_dirs"@
        || key == "show_cwd"@
        || key == "mouse"@
        || key == "fullscreen"@
        || key == "popup_percent"@
}

/// The `display` group after the setting `key = value`.
pub open spec fn update_display(l: Display, key: Seq<char>, value: Seq<char>) -> Display {
    if key == "icons"@ {
        Display { icons: parse_bool_spec(value, l.icons), ..l }
    } else if key == "colors"@ {
        Display { colors: parse_bool_spec(value, l.colors), ..l }
    } else if key == "bold_dirs"@ {
        Display { bold_dirs: parse_bool_spec(value, l.bold_dirs), ..l }
    } else if key == "slash_dirs"@ {
        Display { slash_dirs: parse_bool_spec(value, l.slash_dirs), ..l }
    } else if key == "show_cwd"@ {
        Display { show_cwd: parse_bool_spec(value, l.show_cwd), ..l }
    } else if key == "mouse"@ {
        Display { mouse: parse_bool_spec(value, l.mouse), ..l }
    } else if key == "fullscreen"@ {
        Display { fullscreen: parse_bool_spec(value, l.fullscreen), ..l }
    } else if key == "popup_percent"@ {
        match parse_u16_spec(value) {
            Some(n) => Display { popup_percent: clamp(n as int, 10, 90) as u16, ..l },
            None => l,
        }
    } else {
        l
    }
}

/// Whether `key` names a setting of the `launch` group.
pub open spec fn is_launch_key(key: Seq<char>) -> bool {
    key == "editor"@
        || key == "open_system"@
        || key == "home_scope"@
        || key == "keep_open"@
}

/// The `launch` group after the setting `key = value`.
pub open spec fn update_launch(l: LaunchView, key: Seq<char>, value: Seq<char>) -> LaunchView {
    if key == "editor"@ {
        LaunchView { editor: Some(strip_char(value, '"')), ..l }
    } else if key == "open_system"@ {
        LaunchView { open_system: parse_bool_spec(value, l.open_system), ..l }
    } else if key == "home_scope"@ {
        LaunchView { home_scope: parse_bool_spec(value, l.home_scope), ..l }
    } else if key == "keep_open"@ {
        LaunchView { keep_open: parse_bool_spec(value, l.keep_open), ..l }
    } else {
        l
    }
}

/// The settings after one `key = value` setting of the config file: an unknown key or
/// a value that does not parse leaves them as they were.
pub open spec fn apply_config_spec(s: SettingsView, key: Seq<char>, value: Seq<char>) -> SettingsView {
    if is_listing_key(key) {
        SettingsView { listing: update_listing(s.listing, key, value), ..s }
    } else if is_search_key(key) {
        SettingsView { search: update_search(s.search, key, value), ..s }
    } else if is_display_key(key) {
        SettingsView { display: update_display(s.display, key, value), ..s }
    } else if is_launch_key(key) {
        SettingsView { launch: update_launch(s.launch, key, value), ..s }
    } else {
        s
    }
}

fn clamp_percent(n: u16) -> (r: u16)
    ensures
        r as int == clamp(n as int, 10, 90),
{
    if n < 10 {
        10
    } else if n > 90 {
        90
    } else {
        n
    }
}

fn is_listing_key_exec(k: &Vec<char>) -> (r: bool)
    ensures
        r == is_listing_key(k@),
{
    eq_lit(k, "show_hidden")
        || eq_lit(k, "recursive")
        || eq_lit(k, "ignore_gitignore")
        || eq_lit(k, "follow_links")
        || eq_lit(k, "show_all")
        || eq_lit(k, "sort_by")
        || eq_lit(k, "dirs_first")
        || eq_lit(k, "reverse")
}

fn is_search_key_exec(k: &Vec<char>) -> (r: bool)
    ensures
        r == is_search_key(k@),
{
    eq_lit(k, "exact")
        || eq_lit(k, "case_insensitive")
        || eq_lit(k, "quit_on_match")
        || eq_lit(k, "wrap_selection")
}

fn is_display_key_exec(k: &Vec<char>) -> (r: bool)
    ensures
        r == is_display_key(k@),
{
    eq_lit(k, "icons")
        || eq_lit(k, "colors")
        || eq_lit(k, "bold_dirs")
        || eq_lit(k, "slash_dirs")
        || eq_lit(k, "show_cwd")
        || eq_lit(k, "mouse")
        || eq_lit(k, "fullscreen")
        || eq_lit(k, "popup_percent")
}

fn is_launch_key_exec(k: &Vec<char>) -> (r: bool)
    ensures
        r == is_launch_key(k@),
{
    eq_lit(k, "editor")
        || eq_lit(k, "open_system")
        || eq_lit(k, "home_scope")
        || eq_lit(k, "keep_open")
}

fn update_listing_exec(l: Listing, k: &Vec<char>, v: &Vec<char>) -> (r: Listing)
    ensures
        r == update_listing(l, k@, v@),
{
    if eq_lit(k, "show_hidden") {
        Listing { show_hidden: parse_bool(v, l.show_hidden), ..l }
    } else if eq_lit(k, "recursive") {
        Listing { recursive: parse_bool(v, l.recursive), ..l }
    } else if eq_lit(k, "ignore_gitignore") {
        Listing { ignore_gitignore: parse_bool(v, l.ignore_gitignore), ..l }
    } else if eq_lit(k, "follow_links") {
        Listing { follow_links: parse_bool(v, l.follow_links), ..l }
    } else if eq_lit(k, "show_all") {
        Listing { show_all: parse_bool(v, l.show_all), ..l }
    } else if eq_lit(k, "sort_by") {
        match parse_sort_key(v) {
            Some(sk) => Listing { sort_by: sk, ..l },
            None => l,
        }
    } else if eq_lit(k, "dirs_first") {
        Listing { dirs_first: parse_bool(v, l.dirs_first), ..l }
    } else if eq_lit(k, "reverse") {
        Listing { reverse: parse_bool(v, l.reverse), ..l }
    } else {
        l
    }
}

fn update_search_exec(l: Search, k: &Vec<char>, v: &Vec<char>) -> (r: Search)
    ensures
        r == update_search(l, k@, v@),
{
    if eq_lit(k, "exact") {
        Search { exact: parse_bool(v, l.exact), ..l }
    } else if eq_lit(k, "case_insensitive") {
        Search { case_insensitive: parse_bool(v, l.case_insensitive), ..l }
    } else if eq_lit(k, "quit_on_match") {
        Search { quit_on_match: parse_bool(v, l.quit_on_match), ..l }
    } else if eq_lit(k, "wrap_selection") {
        Search { wrap_selection: parse_bool(v, l.wrap_selection), ..l }
    } else {
        l
    }
}

fn update_display_exec(l: Display, k: &Vec<char>, v: &Vec<char>) -> (r: Display)
    ensures
        r == update_display(l, k@, v@),
{
    if eq_lit(k, "icons") {
        Display { icons: parse_bool(v, l.icons), ..l }
    } else if eq_lit(k, "colors") {
        Display { colors: parse_bool(v, l.colors), ..l }
    } else if eq_lit(k, "bold_dirs") {
        Display { bold_dirs: parse_bool(v, l.bold_dirs), ..l }
    } else if eq_lit(k, "slash_dirs") {
        Display { slash_dirs: parse_bool(v, l.slash_dirs), ..l }
    } else if eq_lit(k, "show_cwd") {
        Display { show_cwd: parse_bool(v, l.show_cwd), ..l }
    } else if eq_lit(k, "mouse") {
        Display { mouse: parse_bool(v, l.mouse), ..l }
    } else if eq_lit(k, "fullscreen") {
        Display { fullscreen: parse_bool(v, l.fullscreen), ..l }
    } else if eq_lit(k, "popup_percent") {
        match parse_u16(v) {
            Some(n) => Display { popup_percent: clamp_percent(n), ..l },
            None => l,
        }
    } else {
        l
    }
}

impl Launch {
    fn update(&mut self, k: &Vec<char>, v: &Vec<char>)
        ensures
            final(self)@ == update_launch(old(self)@, k@, v@),
    {
        if eq_lit(k, "editor") {
            let e = strip_char_exec(v, '"');
            self.editor = Some(string_of(e.as_slice()));
        } else if eq_lit(k, "open_system") {
            self.open_system = parse_bool(v, self.open_system);
        } else if eq_lit(k, "home_scope") {
            self.home_scope = parse_bool(v, self.home_scope);
        } else if eq_lit(k, "keep_open") {
            self.keep_open = parse_bool(v, self.keep_open);
        }
    }
}

impl Settings {
    /// Applies one `key = value` setting. Unknown keys and unparseable values are
    /// silently skipped.
    pub fn apply_config(&mut self, key: &str, value: &str)
        ensures
            final(self)@ == apply_config_spec(old(self)@, key@, value@),
    {
        let k = chars_of(key);
        let v = chars_of(value);
        self.apply_config_chars(&k, &v);
    }

    fn apply_config_chars(&mut self, k: &Vec<char>, v: &Vec<char>)
        ensures
            final(self)@ == apply_config_spec(old(self)@, k@, v@),
    {
        if is_listing_key_exec(k) {
            self.listing = update_listing_exec(self.listing, k, v);
        } else if is_search_key_exec(k) {
            self.search = update_search_exec(self.search, k, v);
        } else if is_display_key_exec(k) {
            self.display = update_display_exec(self.display, k, v);
        } else if is_launch_key_exec(k) {
            self.launch.update(k, v);
        }
    }
}

/// The settings after one line of the config file: blank lines, `#` comments, lines
/// without `=` and lines with an empty key or value change nothing; otherwise the text
/// before the first `=` is the key and the text after it the value, both trimmed.
pub open spec fn config_line(s: SettingsView, raw: Seq<char>) -> SettingsView {
    let line = trim(raw);
    if line.len() == 0 || begins_with(line, '#') {
        s
    } else {
        match find_from(line, seq!['='], 0) {
            None => s,
            Some(p) => {
                let k = trim(line.take(p));
                let v = trim(line.skip(p + 1));
                if k.len() == 0 || v.len() == 0 {
                    s
                } else {
                    apply_config_spec(s, k, v)
                }
            },
        }
    }
}

/// The settings after the config lines `lines`, in order.
pub open spec fn config_lines(s: SettingsView, lines: Seq<Seq<char>>) -> SettingsView
    decreases lines.len(),
{
    if lines.len() == 0 {
        s
    } else {
        config_line(config_lines(s, lines.drop_last()), lines.last())
    }
}

/// The settings that a config file with contents `text` gives: the defaults, then
/// each line in order, so that a later line wins over an earlier one.
pub open spec fn parse_config_spec(text: Seq<char>) -> SettingsView {
    config_lines(default_settings(), split_on(text, '\n'))
}

impl Settings {
    fn apply_line(&mut self, raw: &Vec<char>)
        ensures
            final(self)@ == config_line(old(self)@, raw@),
    {
        let line = trim_chars(raw);
        if line.len() == 0 || line[0] == '#' {
            return;
        }
        let eq: Vec<char> = vec!['='];
        assert(eq@ =~= seq!['=']);
        match find_chars(&line, &eq, 0) {
            None => {},
            Some(p) => {
                let k = trim_chars(&slice_chars(&line, 0, p));
                let v = trim_chars(&slice_chars(&line, p + 1, line.len()));
                assert(line@.take(p as int) =~= line@.subrange(0, p as int));
                assert(line@.skip(p + 1) =~= line@.subrange(p + 1, line@.len() as int));
                if k.len() == 0 || v.len() == 0 {
                    return;
                }
                self.apply_config_chars(&k, &v);
            },
        }
    }
}

/// Settings from the contents of a config file: the defaults, overridden line by line.
/// (Reading the file is the caller's part; a missing or unreadable file means the defaults.)
pub fn parse_config(text: &str) -> (s: Settings)
    ensures
        s@ == parse_config_spec(text@),
{
    let t = chars_of(text);
    let mut s = Settings::default();
    let mut cur: Vec<char> = Vec::new();
    let mut i: usize = 0;
    while i < t.len()
        invariant
            i <= t.len(),
            s@ == config_lines(default_settings(), cut_state(t@.take(i as int), '\n').0),
            cur@ == cut_state(t@.take(i as int), '\n').1,
        decreases t.len() - i,
    {
        assert(t@.take(i + 1).drop_last() =~= t@.take(i as int));
        if t[i] == '\n' {
            let ghost done = cut_state(t@.take(i as int), '\n').0;
            s.apply_line(&cur);
            assert(done.push(cur@).drop_last() =~= done);
            cur = Vec::new();
        } else {
            cur.push(t[i]);
        }
        i += 1;
    }
    assert(t@.take(t@.len() as int) =~= t@);
    let ghost done = cut_state(t@, '\n').0;
    s.apply_line(&cur);
    assert(done.push(cur@).drop_last() =~= done);
    s
}

/// `base` joined with the relative path `rel`, as `PathBuf::join` does for a non-empty base:
/// one `/` between them unless `base` already ends in `/`.
pub open spec fn join_path(base: Seq<char>, rel: Seq<char>) -> Seq<char> {
    if base.len() > 0 && base.last() == '/' {
        base + rel
    } else {
        base + seq!['/'] + rel
    }
}

/// Where the config file is: `$XDG_CONFIG_HOME/sicth/config` when that variable holds an
/// absolute path, else `$HOME/.config/sicth/config` when `HOME` is non-empty, else nowhere.
pub open spec fn config_path_spec(xdg: Option<Seq<char>>, home: Option<Seq<char>>) -> Option<Seq<char>> {
    if xdg is Some && begins_with(xdg->0, '/') {
        Some(join_path(xdg->0, "sicth/config"@))
    } else if home is Some && home->0.len() > 0 {
        Some(join_path(home->0, ".config/sicth/config"@))
    } else {
        None
    }
}

pub(crate) fn join_path_exec(base: &Vec<char>, rel: &str) -> (r: Vec<char>)
    requires
        base.len() > 0,
    ensures
        r@ == join_path(base@, rel@),
{
    let relc = chars_of(rel);
    if base[base.len() - 1] == '/' {
        concat_chars(base, &relc)
    } else {
        let mut b = concat_chars(base, &vec!['/']);
        assert(b@ =~= base@ + seq!['/']);
        concat_chars(&b, &relc)
    }
}

/// The default config path, from the values of `XDG_CONFIG_HOME` and `HOME` (`None` where a
/// variable is unset). Returns `None` when neither provides a usable path.
pub fn config_path(xdg: Option<String>, home: Option<String>) -> (r: Option<String>)
    ensures
        opt_view(r) == config_path_spec(opt_view(xdg), opt_view(home)),
{
    if let Some(x) = &xdg {
        let xc = chars_of(x.as_str());
        if xc.len() > 0 && xc[0] == '/' {
            let p = join_path_exec(&xc, "sicth/config");
            return Some(string_of(p.as_slice()));
        }
    }
    if let Some(h) = &home {
        let hc = chars_of(h.as_str());
        if hc.len() > 0 {
            let p = join_path_exec(&hc, ".config/sicth/config");
            return Some(string_of(p.as_slice()));
        }
    }
    None
}

/// What the command line asks for.
#[derive(Debug)]
pub enum Parsed {
    Run { settings: Settings, out_file: Option<String> },
    Setup,
    Keybinds,
    Help,
}

/// A command line that cannot be used, with the message to show.
#[derive(Debug)]
pub enum ParseError {
    Msg(String),
}

/// The mathematical value of `Parsed`.
pub enum ParsedView {
    Run { settings: SettingsView, out_file: Option<Seq<char>> },
    Setup,
    Keybinds,
    Help,
}

impl View for Parsed {
    type V = ParsedView;

    open spec fn view(&self) -> ParsedView {
        match self {
            Parsed::Run { settings, out_file } => ParsedView::Run {
                settings: settings@,
                out_file: opt_view(*out_file),
            },
            Parsed::Setup => ParsedView::Setup,
            Parsed::Keybinds => ParsedView::Keybinds,
            Parsed::Help => ParsedView::Help,
        }
    }
}

/// The command-line arguments as character sequences.
pub open spec fn args_view(argv: Seq<String>) -> Seq<Seq<char>> {
    argv.map_values(|a: String| a@)
}

/// Whether `a` is one of the meta flags, which end the parse at once.
pub open spec fn is_meta(a: Seq<char>) -> bool {
    a == "--setup"@ || a == "--keybinds"@ || a == "--help"@ || a == "-h"@
}

/// The first scan, from position `i`: the first meta flag decides (`--setup`, `--keybinds`,
/// `--help` or `-h`); the argument after `--config` is its value and is skipped.
pub open spec fn meta_scan(argv: Seq<Seq<char>>, i: int) -> Option<ParsedView>
    decreases argv.len() + 1 - i,
{
    if i < 0 || i >= argv.len() {
        None
    } else if argv[i] == "--setup"@ {
        Some(ParsedView::Setup)
    } else if argv[i] == "--keybinds"@ {
        Some(ParsedView::Keybinds)
    } else if argv[i] == "--help"@ || argv[i] == "-h"@ {
        Some(ParsedView::Help)
    } else if argv[i] == "--config"@ {
        meta_scan(argv, i + 2)
    } else {
        meta_scan(argv, i + 1)
    }
}

/// The config file that the command line names, from position `i` on: the last
/// `--config <path>` or `--config=<path>` wins.
pub open spec fn config_override_scan(argv: Seq<Seq<char>>, i: int, found: Option<Seq<char>>) -> Option<Seq<char>>
    decreases argv.len() + 1 - i,
{
    if i < 0 || i >= argv.len() {
        found
    } else if argv[i] == "--config"@ {
        if i + 1 < argv.len() {
            config_override_scan(argv, i + 2, Some(argv[i + 1]))
        } else {
            found
        }
    } else if has_prefix(argv[i], "--config="@) {
        config_override_scan(argv, i + 1, Some(argv[i].skip(9)))
    } else {
        config_override_scan(argv, i + 1, found)
    }
}

/// The listing settings after the short flag `ch`, if `ch` is one of them.
pub open spec fn listing_flag(l: Listing, ch: char) -> Option<Listing> {
    if ch == 'a' {
        Some(Listing { show_hidden: true, ..l })
    } else if ch == 'r' {
        Some(Listing { recursive: true, ..l })
    } else if ch == 'g' {
        Some(Listing { ignore_gitignore: true, ..l })
    } else if ch == 'L' {
        Some(Listing { follow_links: true, ..l })
    } else if ch == 'A' {
        Some(Listing { show_all: true, ..l })
    } else if ch == 's' {
        Some(Listing { sort_by: SortKey::Size, ..l })
    } else if ch == 't' {
        Some(Listing { sort_by: SortKey::Mtime, ..l })
    } else if ch == 'd' {
        Some(Listing { dirs_first: false, ..l })
    } else if ch == 'v' {
        Some(Listing { reverse: true, ..l })
    } else {
        None
    }
}

/// The search settings after the short flag `ch`, if `ch` is one of them.
pub open spec fn search_flag(l: Search, ch: char) -> Option<Search> {
    if ch == 'x' {
        Some(Search { exact: true, ..l })
    } else if ch == 'i' {
        Some(Search { case_insensitive: true, ..l })
    } else if ch == 'z' {
        Some(Search { quit_on_match: true, ..l })
    } else if ch == 'w' {
        Some(Search { wrap_selection: true, ..l })
    } else {
        None
    }
}

/// The display settings after the short flag `ch`, if `ch` is one of them.
pub open spec fn display_flag(l: Display, ch: char) -> Option<Display> {
    if ch == 'n' {
        Some(Display { icons: false, ..l })
    } else if ch == 'c' {
        Some(Display { colors: false, ..l })
    } else if ch == 'b' {
        Some(Display { bold_dirs: false, ..l })
    } else if ch == 'l' {
        Some(Display { slash_dirs: false, ..l })
    } else if ch == 'q' {
        Some(Display { show_cwd: false, ..l })
    } else if ch == 'm' {
        Some(Display { mouse: false, ..l })
    } else if ch == 'F' {
        Some(Display { fullscreen: true, ..l })
    } else {
        None
    }
}

/// The launch settings after the short flag `ch`, if `ch` is one of them.
pub open spec fn launch_flag(l: LaunchView, ch: char) -> Option<LaunchView> {
    if ch == 'o' {
        Some(LaunchView { open_system: true, ..l })
    } else if ch == 'H' {
        Some(LaunchView { home_scope: true, ..l })
    } else if ch == 'k' {
        Some(LaunchView { keep_open: true, ..l })
    } else {
        None
    }
}

/// The settings after a switch flag `ch` of a short-flag cluster; `None` when `ch` is
/// not a switch.
#[verifier::opaque]
pub open spec fn flag_update(s: SettingsView, ch: char) -> Option<SettingsView> {
    match listing_flag(s.listing, ch) {
        Some(l) => Some(SettingsView { listing: l, ..s }),
        None => match search_flag(s.search, ch) {
            Some(l) => Some(SettingsView { search: l, ..s }),
            None => match display_flag(s.display, ch) {
                Some(l) => Some(SettingsView { display: l, ..s }),
                None => match launch_flag(s.launch, ch) {
                    Some(l) => Some(SettingsView { launch: l, ..s }),
                    None => None,
                },
            },
        },
    }
}

/// How a short-flag cluster ends: an error, a request for help, or the settings it set and
/// whether its value flag took the next argument.
pub enum ClusterEnd {
    Fail(Seq<char>),
    Help,
    Next(SettingsView, bool),
}

/// The end of a cluster at its value flag `chars[ci]` (`p` or `e`): the value is the rest of
/// the cluster, or else the next argument; `-p` wants a number, clamped to `10..=90`.
pub open spec fn value_end(argv: Seq<Seq<char>>, i: int, chars: Seq<char>, ci: int, st: SettingsView) -> ClusterEnd {
    let ch = chars[ci];
    let glued = ci + 1 < chars.len();
    if !glued && i + 1 >= argv.len() {
        ClusterEnd::Fail(
            if ch == 'p' {
                "-p requires a number 10..=90"@
            } else {
                "-e requires a value"@
            },
        )
    } else {
        let val = if glued {
            chars.skip(ci + 1)
        } else {
            argv[i + 1]
        };
        if ch == 'p' {
            match parse_u16_spec(val) {
                Some(n) => ClusterEnd::Next(
                    SettingsView {
                        display: Display {
                            popup_percent: clamp(n as int, 10, 90) as u16,
                            ..st.display
                        },
                        ..st
                    },
                    !glued,
                ),
                None => ClusterEnd::Fail("-p requires a number 10..=90"@),
            }
        } else {
            ClusterEnd::Next(
                SettingsView { launch: LaunchView { editor: Some(val), ..st.launch }, ..st },
                !glued,
            )
        }
    }
}

/// The rest of the short-flag cluster `chars` (the argument at `i` without its `-`) from
/// position `ci`. `-p` and `-e` take the remainder of the cluster, or else the next argument,
/// as their value, and end the cluster.
pub open spec fn cluster_scan(argv: Seq<Seq<char>>, i: int, chars: Seq<char>, ci: int, st: SettingsView) -> ClusterEnd
    decreases chars.len() - ci,
{
    if ci < 0 || ci >= chars.len() {
        ClusterEnd::Next(st, false)
    } else {
        let ch = chars[ci];
        if flag_update(st, ch) is Some {
            cluster_scan(argv, i, chars, ci + 1, flag_update(st, ch)->0)
        } else if ch == 'h' {
            ClusterEnd::Help
        } else if ch == 'p' || ch == 'e' {
            value_end(argv, i, chars, ci, st)
        } else {
            ClusterEnd::Fail(seq!['-', ch] + ": unknown flag"@)
        }
    }
}

/// `show_all` turns on both `show_hidden` and `ignore_gitignore`.
pub open spec fn finish_settings(s: SettingsView) -> SettingsView {
    if s.listing.show_all {
        SettingsView {
            listing: Listing { show_hidden: true, ignore_gitignore: true, ..s.listing },
            ..s
        }
    } else {
        s
    }
}

/// The second scan, from position `i`, with the settings `st` and out-file `out` so far:
/// flags are applied over the settings that the config file gave.
pub open spec fn cli_scan(argv: Seq<Seq<char>>, i: int, st: SettingsView, out: Option<Seq<char>>) -> Result<ParsedView, Seq<char>>
    decreases argv.len() + 1 - i,
{
    if i < 0 || i >= argv.len() {
        Ok(ParsedView::Run { settings: finish_settings(st), out_file: out })
    } else {
        let a = argv[i];
        if a == "--config"@ {
            cli_scan(argv, i + 2, st, out)
        } else if has_prefix(a, "--config="@) || is_meta(a) {
            cli_scan(argv, i + 1, st, out)
        } else if a == "--out-file"@ {
            if i + 1 >= argv.len() {
                Err("--out-file requires a value"@)
            } else {
                cli_scan(argv, i + 2, st, Some(argv[i + 1]))
            }
        } else if has_prefix(a, "--out-file="@) {
            cli_scan(argv, i + 1, st, Some(a.skip(11)))
        } else if a == "--keep-open"@ {
            cli_scan(
                argv,
                i + 1,
                SettingsView { launch: LaunchView { keep_open: true, ..st.launch }, ..st },
                out,
            )
        } else if begins_with(a, '-') && a.len() >= 2 && !has_prefix(a, "--"@) {
            match cluster_scan(argv, i, a.drop_first(), 0, st) {
                ClusterEnd::Fail(m) => Err(m),
                ClusterEnd::Help => Ok(ParsedView::Help),
                ClusterEnd::Next(st2, took_next) => cli_scan(
                    argv,
                    if took_next {
                        i + 2
                    } else {
                        i + 1
                    },
                    st2,
                    out,
                ),
            }
        } else if has_prefix(a, "--"@) {
            Err(a + ": unknown flag"@)
        } else {
            Err("unexpected argument: "@ + a)
        }
    }
}

/// What the command line `argv` means on top of the config settings `config`: a meta flag
/// found by the first scan, else the result of the second scan.
pub open spec fn parse_args_spec(argv: Seq<Seq<char>>, config: SettingsView) -> Result<ParsedView, Seq<char>> {
    match meta_scan(argv, 0) {
        Some(m) => Ok(m),
        None => cli_scan(argv, 0, config, None),
    }
}

/// The mathematical value of a parse result.
pub open spec fn parse_result_view(r: Result<Parsed, ParseError>) -> Result<ParsedView, Seq<char>> {
    match r {
        Ok(p) => Ok(p@),
        Err(ParseError::Msg(m)) => Err(m@),
    }
}

fn listing_flag_exec(l: Listing, ch: char) -> (r: Option<Listing>)
    ensures
        r == listing_flag(l, ch),
{
    if ch == 'a' {
        Some(Listing { show_hidden: true, ..l })
    } else if ch == 'r' {
        Some(Listing { recursive: true, ..l })
    } else if ch == 'g' {
        Some(Listing { ignore_gitignore: true, ..l })
    } else if ch == 'L' {
        Some(Listing { follow_links: true, ..l })
    } else if ch == 'A' {
        Some(Listing { show_all: true, ..l })
    } else if ch == 's' {
        Some(Listing { sort_by: SortKey::Size, ..l })
    } else if ch == 't' {
        Some(Listing { sort_by: SortKey::Mtime, ..l })
    } else if ch == 'd' {
        Some(Listing { dirs_first: false, ..l })
    } else if ch == 'v' {
        Some(Listing { reverse: true, ..l })
    } else {
        None
    }
}

fn search_flag_exec(l: Search, ch: char) -> (r: Option<Search>)
    ensures
        r == search_flag(l, ch),
{
    if ch == 'x' {
        Some(Search { exact: true, ..l })
    } else if ch == 'i' {
        Some(Search { case_insensitive: true, ..l })
    } else if ch == 'z' {
        Some(Search { quit_on_match: true, ..l })
    } else if ch == 'w' {
        Some(Search { wrap_selection: true, ..l })
    } else {
        None
    }
}

fn display_flag_exec(l: Display, ch: char) -> (r: Option<Display>)
    ensures
        r == display_flag(l, ch),
{
    if ch == 'n' {
        Some(Display { icons: false, ..l })
    } else if ch == 'c' {
        Some(Display { colors: false, ..l })
    } else if ch == 'b' {
        Some(Display { bold_dirs: false, ..l })
    } else if ch == 'l' {
        Some(Display { slash_dirs: false, ..l })
    } else if ch == 'q' {
        Some(Display { show_cwd: false, ..l })
    } else if ch == 'm' {
        Some(Display { mouse: false, ..l })
    } else if ch == 'F' {
        Some(Display { fullscreen: true, ..l })
    } else {
        None
    }
}

impl Launch {
    fn flag(&mut self, ch: char) -> (ok: bool)
        ensures
            ok == (launch_flag(old(self)@, ch) is Some),
            ok ==> final(self)@ == launch_flag(old(self)@, ch)->0,
            !ok ==> final(self)@ == old(self)@,
    {
        if ch == 'o' {
            self.open_system = true;
            true
        } else if ch == 'H' {
            self.home_scope = true;
            true
        } else if ch == 'k' {
            self.keep_open = true;
            true
        } else {
            false
        }
    }
}

impl Settings {
    /// Applies the switch flag `ch`; returns whether `ch` is one.
    fn flag(&mut self, ch: char) -> (ok: bool)
        ensures
            ok == (flag_update(old(self)@, ch) is Some),
            ok ==> final(self)@ == flag_update(old(self)@, ch)->0,
            !ok ==> final(self)@ == old(self)@,
    {
        reveal(flag_update);
        if let Some(l) = listing_flag_exec(self.listing, ch) {
            self.listing = l;
            return true;
        }
        if let Some(l) = search_flag_exec(self.search, ch) {
            self.search = l;
            return true;
        }
        if let Some(l) = display_flag_exec(self.display, ch) {
            self.display = l;
            return true;
        }
        self.launch.flag(ch)
    }

    fn set_percent(&mut self, n: u16)
        ensures
            final(self)@ == (SettingsView {
                display: Display { popup_percent: n, ..old(self)@.display },
                ..old(self)@
            }),
    {
        self.display = Display { popup_percent: n, ..self.display };
    }

    fn set_editor(&mut self, e: String)
        ensures
            final(self)@ == (SettingsView {
                launch: LaunchView { editor: Some(e@), ..old(self)@.launch },
                ..old(self)@
            }),
    {
        self.launch.editor = Some(e);
    }

    fn keep_open_on(&mut self)
        ensures
            final(self)@ == (SettingsView {
                launch: LaunchView { keep_open: true, ..old(self)@.launch },
                ..old(self)@
            }),
    {
        self.launch.keep_open = true;
    }

    fn finish(&mut self)
        ensures
            final(self)@ == finish_settings(old(self)@),
    {
        if self.listing.show_all {
            self.listing = Listing { show_hidden: true, ignore_gitignore: true, ..self.listing };
        }
    }
}

fn msg(text: &str) -> (e: ParseError)
    ensures
        e matches ParseError::Msg(m) && m@ == text@,
{
    ParseError::Msg(String::from_str(text))
}

/// The result of a short-flag cluster, computed.
enum ClusterOutcome {
    Fail(ParseError),
    Help,
    Next(bool),
}

/// What a value flag (`-p` or `-e`) of a cluster does.
enum ValueFlag {
    Fail(ParseError),
    Percent(u16, bool),
    Editor(String, bool),
}

/// The value flag `chars[ci]` (`p` or `e`) of the cluster `argv[i]`.
fn value_flag(argv: &[String], i: usize, chars: &Vec<char>, ci: usize, st: &Settings) -> (r: ValueFlag)
    requires
        i < argv.len(),
        ci < chars.len(),
        chars@[ci as int] == 'p' || chars@[ci as int] == 'e',
        flag_update(st@, chars@[ci as int]) is None,
    ensures
        match value_end(args_view(argv@), i as int, chars@, ci as int, st@) {
            ClusterEnd::Fail(m) => r matches ValueFlag::Fail(ParseError::Msg(e)) && e@ == m,
            ClusterEnd::Help => false,
            ClusterEnd::Next(s2, took) => match r {
                ValueFlag::Percent(n, t) => t == took && s2 == (SettingsView {
                    display: Display { popup_percent: n, ..st@.display },
                    ..st@
                }),
                ValueFlag::Editor(e, t) => t == took && s2 == (SettingsView {
                    launch: LaunchView { editor: Some(e@), ..st@.launch },
                    ..st@
                }),
                ValueFlag::Fail(_) => false,
            },
        },
{
    let ghost av = args_view(argv@);
    let ch = chars[ci];
    let glued = ci + 1 < chars.len();
    let val: Vec<char> = if glued {
        slice_chars(chars, ci + 1, chars.len())
    } else {
        if i + 1 >= argv.len() {
            if ch == 'p' {
                return ValueFlag::Fail(msg("-p requires a number 10..=90"));
            } else {
                return ValueFlag::Fail(msg("-e requires a value"));
            }
        }
        assert(av[i + 1] == argv@[i + 1]@);
        chars_of(argv[i + 1].as_str())
    };
    assert(glued ==> val@ =~= chars@.skip(ci + 1));
    if ch == 'p' {
        match parse_u16(&val) {
            Some(n) => ValueFlag::Percent(clamp_percent(n), !glued),
            None => ValueFlag::Fail(msg("-p requires a number 10..=90")),
        }
    } else {
        ValueFlag::Editor(string_of(val.as_slice()), !glued)
    }
}

/// Applies the short-flag cluster `argv[i]` (without its `-`, as `chars`) to `st`.
/// Applies the switch flags at the start of the cluster `chars`; returns the position of the
/// first character that is not a switch (or the cluster's length).
fn run_switches(argv: &[String], i: usize, chars: &Vec<char>, st: &mut Settings) -> (ci: usize)
    requires
        i < argv.len(),
    ensures
        ci <= chars.len(),
        cluster_scan(args_view(argv@), i as int, chars@, 0, old(st)@) == cluster_scan(
            args_view(argv@),
            i as int,
            chars@,
            ci as int,
            final(st)@,
        ),
        ci < chars.len() ==> flag_update(final(st)@, chars@[ci as int]) is None,
{
    let ghost av = args_view(argv@);
    let ghost st0 = st@;
    let mut ci: usize = 0;
    loop
        invariant_except_break
            ci <= chars.len(),
            cluster_scan(av, i as int, chars@, 0, st0) == cluster_scan(av, i as int, chars@, ci as int, st@),
        invariant
            i < argv.len(),
            av == args_view(argv@),
            st0 == old(st)@,
        ensures
            ci <= chars.len(),
            cluster_scan(av, i as int, chars@, 0, st0) == cluster_scan(av, i as int, chars@, ci as int, st@),
            ci < chars.len() ==> flag_update(st@, chars@[ci as int]) is None,
        decreases chars.len() - ci,
    {
        if ci >= chars.len() {
            break;
        }
        if !st.flag(chars[ci]) {
            break;
        }
        ci += 1;
    }
    ci
}

/// Applies the short-flag cluster `argv[i]` (without its `-`, as `chars`) to `st`.
fn apply_cluster(argv: &[String], i: usize, chars: &Vec<char>, st: &mut Settings) -> (r: ClusterOutcome)
    requires
        i < argv.len(),
    ensures
        match cluster_scan(args_view(argv@), i as int, chars@, 0, old(st)@) {
            ClusterEnd::Fail(m) => r matches ClusterOutcome::Fail(ParseError::Msg(e)) && e@ == m,
            ClusterEnd::Help => r is Help,
            ClusterEnd::Next(s2, took) => r matches ClusterOutcome::Next(t) && t == took && final(st)@ == s2,
        },
{
    let ghost av = args_view(argv@);
    let ci = run_switches(argv, i, chars, st);
    if ci >= chars.len() {
        return ClusterOutcome::Next(false);
    }
    let ch = chars[ci];
    let ghost here = cluster_scan(av, i as int, chars@, ci as int, st@);
    if ch == 'h' {
        assert(here is Help);
        return ClusterOutcome::Help;
    }
    if ch == 'p' || ch == 'e' {
        assert(here == value_end(av, i as int, chars@, ci as int, st@));
        let ghost pre = st@;
        match value_flag(argv, i, chars, ci, st) {
            ValueFlag::Fail(e) => {
                return ClusterOutcome::Fail(e);
            },
            ValueFlag::Percent(n, took) => {
                st.set_percent(n);
                return ClusterOutcome::Next(took);
            },
            ValueFlag::Editor(e, took) => {
                st.set_editor(e);
                return ClusterOutcome::Next(took);
            },
        }
    }
    assert(here == ClusterEnd::Fail(seq!['-', ch] + ": unknown flag"@));
    let m: Vec<char> = vec!['-', ch];
    let tail = chars_of(": unknown flag");
    let full = concat_chars(&m, &tail);
    assert(m@ =~= seq!['-', ch]);
    ClusterOutcome::Fail(ParseError::Msg(string_of(full.as_slice())))
}

/// The config file that the command line names with `--config <path>` or `--config=<path>`
/// (the last one wins), if any.
pub fn config_override(argv: &[String]) -> (r: Option<String>)
    ensures
        opt_view(r) == config_override_scan(args_view(argv@), 0, None),
{
    let ghost av = args_view(argv@);
    let mut found: Option<String> = None;
    let mut i: usize = 0;
    while i < argv.len()
        invariant
            av == args_view(argv@),
            i <= argv.len(),
            config_override_scan(av, 0, None) == config_override_scan(av, i as int, opt_view(found)),
        decreases argv.len() - i,
    {
        let a = chars_of(argv[i].as_str());
        assert(av[i as int] == a@);
        if eq_lit(&a, "--config") {
            if i + 1 < argv.len() {
                assert(av[i + 1] == argv@[i + 1]@);
                found = Some(argv[i + 1].clone());
                i += 2;
            } else {
                i = argv.len();
            }
        } else if starts_with_lit(&a, "--config=") {
            proof {
                reveal(has_prefix);
                reveal_strlit("--config=");
            }
            found = Some(string_of(slice_chars(&a, 9, a.len()).as_slice()));
            assert(a@.skip(9) =~= a@.subrange(9, a@.len() as int));
            i += 1;
        } else {
            i += 1;
        }
    }
    found
}

/// What one argument of the second scan leads to.
enum CliStep {
    /// Go on at this argument.
    Next(usize),
    Help,
    Fail(ParseError),
}

/// The second scan at argument `i`: applies it to `st` and `out`.
fn cli_arg(argv: &[String], i: usize, st: &mut Settings, out: &mut Option<String>) -> (r: CliStep)
    requires
        i < argv.len(),
    ensures
        match r {
            CliStep::Next(j) => i < j <= argv.len() && cli_scan(args_view(argv@), i as int, old(st)@, opt_view(*old(out)))
                == cli_scan(args_view(argv@), j as int, final(st)@, opt_view(*final(out))),
            CliStep::Help => cli_scan(args_view(argv@), i as int, old(st)@, opt_view(*old(out))) == Ok::<ParsedView, Seq<char>>(ParsedView::Help),
            CliStep::Fail(ParseError::Msg(m)) => cli_scan(args_view(argv@), i as int, old(st)@, opt_view(*old(out))) == Err::<ParsedView, Seq<char>>(m@),
        },
{
    let ghost av = args_view(argv@);
    let a = chars_of(argv[i].as_str());
    assert(av[i as int] == a@);
    if eq_lit(&a, "--config") {
        if i + 1 < argv.len() {
            CliStep::Next(i + 2)
        } else {
            assert(cli_scan(av, i + 2, st@, opt_view(*out)) == cli_scan(av, argv@.len() as int, st@, opt_view(*out)));
            CliStep::Next(argv.len())
        }
    } else if starts_with_lit(&a, "--config=") || eq_lit(&a, "--setup") || eq_lit(&a, "--keybinds")
        || eq_lit(&a, "--help") || eq_lit(&a, "-h") {
        CliStep::Next(i + 1)
    } else if eq_lit(&a, "--out-file") {
        if i + 1 >= argv.len() {
            return CliStep::Fail(msg("--out-file requires a value"));
        }
        assert(av[i + 1] == argv@[i + 1]@);
        *out = Some(argv[i + 1].clone());
        CliStep::Next(i + 2)
    } else if starts_with_lit(&a, "--out-file=") {
        proof {
            reveal(has_prefix);
            reveal_strlit("--out-file=");
        }
        *out = Some(string_of(slice_chars(&a, 11, a.len()).as_slice()));
        assert(a@.skip(11) =~= a@.subrange(11, a@.len() as int));
        CliStep::Next(i + 1)
    } else if eq_lit(&a, "--keep-open") {
        st.keep_open_on();
        CliStep::Next(i + 1)
    } else if a.len() >= 2 && a[0] == '-' && !starts_with_lit(&a, "--") {
        let rest = slice_chars(&a, 1, a.len());
        assert(rest@ =~= a@.drop_first());
        match apply_cluster(argv, i, &rest, st) {
            ClusterOutcome::Fail(e) => CliStep::Fail(e),
            ClusterOutcome::Help => CliStep::Help,
            ClusterOutcome::Next(took_next) => {
                if took_next {
                    if i + 1 < argv.len() {
                        CliStep::Next(i + 2)
                    } else {
                        assert(cli_scan(av, i + 2, st@, opt_view(*out)) == cli_scan(av, argv@.len() as int, st@, opt_view(*out)));
                        CliStep::Next(argv.len())
                    }
                } else {
                    CliStep::Next(i + 1)
                }
            },
        }
    } else if starts_with_lit(&a, "--") {
        let tail = chars_of(": unknown flag");
        let full = concat_chars(&a, &tail);
        CliStep::Fail(ParseError::Msg(string_of(full.as_slice())))
    } else {
        let head = chars_of("unexpected argument: ");
        let full = concat_chars(&head, &a);
        CliStep::Fail(ParseError::Msg(string_of(full.as_slice())))
    }
}

/// Parses the command line `argv` on top of the settings `config` that the config file gave.
/// First scan: the first meta flag wins. Second scan: the flags, applied over `config`.
pub fn parse_args_inner(argv: &[String], config: Settings) -> (r: Result<Parsed, ParseError>)
    ensures
        parse_result_view(r) == parse_args_spec(args_view(argv@), config@),
{
    let ghost av = args_view(argv@);
    let mut i: usize = 0;
    while i < argv.len()
        invariant
            av == args_view(argv@),
            i <= argv.len(),
            meta_scan(av, 0) == meta_scan(av, i as int),
        decreases argv.len() - i,
    {
        let a = chars_of(argv[i].as_str());
        assert(av[i as int] == a@);
        if eq_lit(&a, "--setup") {
            return Ok(Parsed::Setup);
        }
        if eq_lit(&a, "--keybinds") {
            return Ok(Parsed::Keybinds);
        }
        if eq_lit(&a, "--help") || eq_lit(&a, "-h") {
            return Ok(Parsed::Help);
        }
        if eq_lit(&a, "--config") {
            if i + 1 < argv.len() {
                i += 2;
            } else {
                assert(meta_scan(av, i + 2) is None);
                i = argv.len();
            }
        } else {
            i += 1;
        }
    }
    let mut st = config;
    let mut out: Option<String> = None;
    let mut i: usize = 0;
    while i < argv.len()
        invariant
            av == args_view(argv@),
            i <= argv.len(),
            meta_scan(av, 0) is None,
            cli_scan(av, 0, config@, None) == cli_scan(av, i as int, st@, opt_view(out)),
        decreases argv.len() - i,
    {
        match cli_arg(argv, i, &mut st, &mut out) {
            CliStep::Next(j) => {
                i = j;
            },
            CliStep::Help => {
                return Ok(Parsed::Help);
            },
            CliStep::Fail(e) => {
                return Err(e);
            },
        }
    }
    st.finish();
    Ok(Parsed::Run { settings: st, out_file: out })
}

} // verus!
