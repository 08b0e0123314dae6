//! What holds of the settings for every command line and config file.
use vstd::prelude::*;
use crate::settings::{
    apply_config_spec, config_lines, default_settings, parse_config_spec, args_view, cli_scan, cluster_scan, clamp, config_line, finish_settings,
    flag_update, is_display_key, is_launch_key, is_listing_key, is_search_key, meta_scan,
    parse_args_spec, parse_bool_spec, ClusterEnd, Display, LaunchView, Listing, ParsedView, Search,
    SettingsView, SortKey,
};
use crate::text::{begins_with, trim};

verus! {

/// The popup height percentage lies in `10..=90`.
pub open spec fn percent_ok(s: SettingsView) -> bool {
    10 <= s.display.popup_percent <= 90
}

/// A switch flag changes no popup height.
proof fn lemma_flag_keeps_percent(s: SettingsView, ch: char)
    requires
        flag_update(s, ch) is Some,
    ensures
        flag_update(s, ch)->0.display.popup_percent == s.display.popup_percent,
{
    reveal(flag_update);
}

/// The end of a short-flag cluster keeps the percentage in range.
proof fn lemma_cluster_keeps_percent(argv: Seq<Seq<char>>, i: int, chars: Seq<char>, ci: int, st: SettingsView)
    requires
        percent_ok(st),
    ensures
        cluster_scan(argv, i, chars, ci, st) matches ClusterEnd::Next(t, _) ==> percent_ok(t),
    decreases chars.len() - ci,
{
    if 0 <= ci < chars.len() {
        let ch = chars[ci];
        if flag_update(st, ch) is Some {
            lemma_flag_keeps_percent(st, ch);
            lemma_cluster_keeps_percent(argv, i, chars, ci + 1, flag_update(st, ch)->0);
        }
    }
}

/// The second scan ends in settings that `finish_settings` made, with the percentage
/// in range when it started in range.
proof fn lemma_cli_scan_result(argv: Seq<Seq<char>>, i: int, st: SettingsView, out: Option<Seq<char>>)
    requires
        percent_ok(st),
    ensures
        cli_scan(argv, i, st, out) matches Ok(ParsedView::Run { settings, out_file }) ==> (
        exists|t: SettingsView| percent_ok(t) && settings == finish_settings(t)),
    decreases argv.len() + 1 - i,
{
    if i < 0 || i >= argv.len() {
        assert(percent_ok(st) && cli_scan(argv, i, st, out) == Ok::<ParsedView, Seq<char>>(
            ParsedView::Run { settings: finish_settings(st), out_file: out },
        ));
    } else {
        let a = argv[i];
        lemma_cli_scan_result(argv, i + 1, st, out);
        lemma_cli_scan_result(argv, i + 2, st, out);
        if i + 1 < argv.len() {
            lemma_cli_scan_result(argv, i + 2, st, Some(argv[i + 1]));
        }
        lemma_cli_scan_result(argv, i + 1, st, Some(a.skip(11)));
        lemma_cli_scan_result(
            argv,
            i + 1,
            SettingsView { launch: crate::settings::LaunchView { keep_open: true, ..st.launch }, ..st },
            out,
        );
        lemma_cluster_keeps_percent(argv, i, a.drop_first(), 0, st);
        match cluster_scan(argv, i, a.drop_first(), 0, st) {
            ClusterEnd::Next(st2, took) => {
                lemma_cli_scan_result(argv, i + 1, st2, out);
                lemma_cli_scan_result(argv, i + 2, st2, out);
            },
            _ => {},
        }
    }
}

/// Whatever the command line, `show_all` in the result comes with `show_hidden` and
/// `ignore_gitignore`, and a config whose popup percentage lies in `10..=90` gives a
/// result whose percentage does too.
pub proof fn law_run_settings(argv: Seq<Seq<char>>, config: SettingsView)
    requires
        percent_ok(config),
    ensures
        parse_args_spec(argv, config) matches Ok(ParsedView::Run { settings, out_file }) ==> {
            &&& percent_ok(settings)
            &&& settings.listing.show_all ==> settings.listing.show_hidden && settings.listing.ignore_gitignore
        },
{
    lemma_meta_not_run(argv, 0);
    lemma_cli_scan_result(argv, 0, config, None);
    if let Ok(ParsedView::Run { settings, out_file }) = parse_args_spec(argv, config) {
        let t = choose|t: SettingsView| percent_ok(t) && settings == finish_settings(t);
        assert(percent_ok(t) && settings == finish_settings(t));
    }
}

/// The first scan only ever finds a meta flag.
proof fn lemma_meta_not_run(argv: Seq<Seq<char>>, i: int)
    ensures
        meta_scan(argv, i) matches Some(m) ==> !(m is Run),
    decreases argv.len() + 1 - i,
{
    if 0 <= i < argv.len() {
        lemma_meta_not_run(argv, i + 1);
        lemma_meta_not_run(argv, i + 2);
    }
}

/// The first meta flag decides the parse, whatever else the command line holds.
pub proof fn law_meta_flag_wins(argv: Seq<Seq<char>>, config: SettingsView)
    requires
        meta_scan(argv, 0) is Some,
    ensures
        parse_args_spec(argv, config) == Ok::<ParsedView, Seq<char>>(meta_scan(argv, 0)->0),
{
}

/// A switch flag on the command line is applied over the settings of the config
/// file, so the flag wins over what the file said.
pub proof fn law_switch_flag_over_config(config: SettingsView, ch: char)
    requires
        flag_update(config, ch) is Some,
    ensures
        parse_args_spec(seq![seq!['-', ch]], config) == Ok::<ParsedView, Seq<char>>(
            ParsedView::Run { settings: finish_settings(flag_update(config, ch)->0), out_file: None },
        ),
{
    let argv = seq![seq!['-', ch]];
    let a = seq!['-', ch];
    reveal_with_fuel(meta_scan, 3);
    assert(a != "--setup"@) by {
        reveal_strlit("--setup");
    }
    assert(a != "--keybinds"@) by {
        reveal_strlit("--keybinds");
    }
    assert(a != "--help"@) by {
        reveal_strlit("--help");
    }
    assert(a != "--config"@) by {
        reveal_strlit("--config");
    }
    assert(meta_scan(argv, 1) is None);
    if a == "-h"@ {
        reveal_strlit("-h");
        reveal(flag_update);
        assert(false);
    }
    assert(meta_scan(argv, 0) is None);
    assert(!crate::text::has_prefix(a, "--config="@)) by {
        reveal(crate::text::has_prefix);
        reveal_strlit("--config=");
    }
    assert(a != "--out-file"@) by {
        reveal_strlit("--out-file");
    }
    assert(!crate::text::has_prefix(a, "--out-file="@)) by {
        reveal(crate::text::has_prefix);
        reveal_strlit("--out-file=");
    }
    assert(a != "--keep-open"@) by {
        reveal_strlit("--keep-open");
    }
    if ch == '-' {
        reveal(flag_update);
        assert(flag_update(config, ch) is None);
    }
    assert(!crate::text::has_prefix(a, "--"@)) by {
        reveal(crate::text::has_prefix);
        reveal_strlit("--");
        if "--"@.is_prefix_of(a) {
            assert(a.subrange(0, 2)[1] == "--"@[1]);
        }
    }
    assert(a.drop_first() =~= seq![ch]);
    let t = flag_update(config, ch)->0;
    assert(cluster_scan(argv, 0, seq![ch], 1, t) == ClusterEnd::Next(t, false));
    assert(cluster_scan(argv, 0, seq![ch], 0, config) == ClusterEnd::Next(t, false));
    assert(!crate::settings::is_meta(a));
    assert(begins_with(a, '-') && a.len() >= 2);
    assert(cli_scan(argv, 1, t, None) == Ok::<ParsedView, Seq<char>>(
        ParsedView::Run { settings: finish_settings(t), out_file: None },
    ));
    assert(cli_scan(argv, 0, config, None) == cli_scan(argv, 1, t, None));
}

/// A config setting with an unknown key leaves the settings as they were.
pub proof fn law_unknown_config_key(s: SettingsView, key: Seq<char>, value: Seq<char>)
    requires
        !is_listing_key(key),
        !is_search_key(key),
        !is_display_key(key),
        !is_launch_key(key),
    ensures
        apply_config_spec(s, key, value) == s,
{
}

/// A boolean setting whose value is neither `true` nor `false` keeps its value.
pub proof fn law_bad_bool_keeps(raw: Seq<char>, fallback: bool)
    requires
        raw != "true"@,
        raw != "false"@,
    ensures
        parse_bool_spec(raw, fallback) == fallback,
{
}

/// Blank lines and `#` comments of the config file change nothing.
pub proof fn law_comments_ignored(s: SettingsView, raw: Seq<char>)
    requires
        trim(raw).len() == 0 || begins_with(trim(raw), '#'),
    ensures
        config_line(s, raw) == s,
{
}

/// The popup percentage stays in `10..=90` through any lines of a config file.
proof fn lemma_config_lines_percent(s: SettingsView, lines: Seq<Seq<char>>)
    requires
        percent_ok(s),
    ensures
        percent_ok(config_lines(s, lines)),
    decreases lines.len(),
{
    if lines.len() > 0 {
        lemma_config_lines_percent(s, lines.drop_last());
    }
}

/// Whatever a config file holds, the popup percentage that it gives lies in `10..=90`.
pub proof fn law_config_percent_in_range(text: Seq<char>)
    ensures
        percent_ok(parse_config_spec(text)),
{
    lemma_config_lines_percent(default_settings(), crate::text::split_on(text, '\n'));
}

/// Whether `ch` is a switch flag (one that takes no value).
pub open spec fn is_switch(ch: char) -> bool {
    flag_update(default_settings(), ch) is Some
}

/// Whether `a` is a cluster of switch flags: `-` followed by one or more switches.
pub open spec fn is_switch_cluster(a: Seq<char>) -> bool {
    &&& a.len() >= 2
    &&& a[0] == '-'
    &&& forall|k: int| 1 <= k < a.len() ==> is_switch(#[trigger] a[k])
}

/// The settings after the switches `chars[ci..]`, applied left to right.
pub open spec fn switches_from(s: SettingsView, chars: Seq<char>, ci: int) -> SettingsView
    decreases chars.len() - ci,
{
    if ci < 0 || ci >= chars.len() {
        s
    } else {
        switches_from(flag_update(s, chars[ci])->0, chars, ci + 1)
    }
}

/// The settings after the switch clusters `argv[i..]`, in order.
pub open spec fn clusters_from(s: SettingsView, argv: Seq<Seq<char>>, i: int) -> SettingsView
    decreases argv.len() - i,
{
    if i < 0 || i >= argv.len() {
        s
    } else {
        clusters_from(switches_from(s, argv[i].drop_first(), 0), argv, i + 1)
    }
}

/// That `ch` is a switch does not depend on the settings it applies to.
proof fn lemma_switch_any(s: SettingsView, ch: char)
    ensures
        (flag_update(s, ch) is Some) == is_switch(ch),
{
    reveal(flag_update);
}

/// What a listing switch sets holds in `l` (other characters: nothing to hold).
pub open spec fn listing_holds(l: Listing, ch: char) -> bool {
    if ch == 'a' {
        l.show_hidden
    } else if ch == 'r' {
        l.recursive
    } else if ch == 'g' {
        l.ignore_gitignore
    } else if ch == 'L' {
        l.follow_links
    } else if ch == 'A' {
        l.show_all
    } else if ch == 's' || ch == 't' {
        l.sort_by != SortKey::Name
    } else if ch == 'd' {
        !l.dirs_first
    } else if ch == 'v' {
        l.reverse
    } else {
        true
    }
}

/// What a search switch sets holds in `l`.
pub open spec fn search_holds(l: Search, ch: char) -> bool {
    if ch == 'x' {
        l.exact
    } else if ch == 'i' {
        l.case_insensitive
    } else if ch == 'z' {
        l.quit_on_match
    } else if ch == 'w' {
        l.wrap_selection
    } else {
        true
    }
}

/// What a display switch sets holds in `l`.
pub open spec fn display_holds(l: Display, ch: char) -> bool {
    if ch == 'n' {
        !l.icons
    } else if ch == 'c' {
        !l.colors
    } else if ch == 'b' {
        !l.bold_dirs
    } else if ch == 'l' {
        !l.slash_dirs
    } else if ch == 'q' {
        !l.show_cwd
    } else if ch == 'm' {
        !l.mouse
    } else if ch == 'F' {
        l.fullscreen
    } else {
        true
    }
}

/// What a launch switch sets holds in `l`.
pub open spec fn launch_holds(l: LaunchView, ch: char) -> bool {
    if ch == 'o' {
        l.open_system
    } else if ch == 'H' {
        l.home_scope
    } else if ch == 'k' {
        l.keep_open
    } else {
        true
    }
}

/// What the switch `ch` sets holds in `s`: its field has the switch's value (for `-s`
/// and `-t`, the sort is by something else than the name).
pub open spec fn flag_holds(s: SettingsView, ch: char) -> bool {
    &&& listing_holds(s.listing, ch)
    &&& search_holds(s.search, ch)
    &&& display_holds(s.display, ch)
    &&& launch_holds(s.launch, ch)
}

proof fn lemma_listing_switch(l: Listing, ch: char, ch2: char)
    requires
        crate::settings::listing_flag(l, ch2) is Some,
    ensures
        listing_holds(crate::settings::listing_flag(l, ch2)->0, ch2),
        listing_holds(l, ch) ==> listing_holds(crate::settings::listing_flag(l, ch2)->0, ch),
{
}

proof fn lemma_search_switch(l: Search, ch: char, ch2: char)
    requires
        crate::settings::search_flag(l, ch2) is Some,
    ensures
        search_holds(crate::settings::search_flag(l, ch2)->0, ch2),
        search_holds(l, ch) ==> search_holds(crate::settings::search_flag(l, ch2)->0, ch),
{
}

proof fn lemma_display_switch(l: Display, ch: char, ch2: char)
    requires
        crate::settings::display_flag(l, ch2) is Some,
    ensures
        display_holds(crate::settings::display_flag(l, ch2)->0, ch2),
        display_holds(l, ch) ==> display_holds(crate::settings::display_flag(l, ch2)->0, ch),
{
}

proof fn lemma_launch_switch(l: LaunchView, ch: char, ch2: char)
    requires
        crate::settings::launch_flag(l, ch2) is Some,
    ensures
        launch_holds(crate::settings::launch_flag(l, ch2)->0, ch2),
        launch_holds(l, ch) ==> launch_holds(crate::settings::launch_flag(l, ch2)->0, ch),
{
}

/// A switch holds in every group other than its own.
proof fn lemma_holds_elsewhere(s: SettingsView, ch: char)
    ensures
        crate::settings::listing_flag(s.listing, ch) is None ==> listing_holds(s.listing, ch),
        crate::settings::search_flag(s.search, ch) is None ==> search_holds(s.search, ch),
        crate::settings::display_flag(s.display, ch) is None ==> display_holds(s.display, ch),
        crate::settings::launch_flag(s.launch, ch) is None ==> launch_holds(s.launch, ch),
{
}

/// A switch makes what it sets hold; later switches and `finish_settings` keep what an
/// earlier one set, and keep two settings that agree on the sort key in agreement.
proof fn lemma_switch_effects(x: SettingsView, y: SettingsView, ch: char, ch2: char)
    requires
        is_switch(ch),
        is_switch(ch2),
    ensures
        flag_holds(flag_update(x, ch)->0, ch),
        flag_holds(x, ch) ==> flag_holds(flag_update(x, ch2)->0, ch),
        flag_holds(x, ch) ==> flag_holds(finish_settings(x), ch),
        x.listing.sort_by == y.listing.sort_by ==> flag_update(x, ch2)->0.listing.sort_by
            == flag_update(y, ch2)->0.listing.sort_by,
        (ch2 == 's' || ch2 == 't') ==> flag_update(x, ch2)->0.listing.sort_by
            == flag_update(y, ch2)->0.listing.sort_by,
{
    reveal(flag_update);
    lemma_group_step(x, ch, ch);
    lemma_group_step(x, ch, ch2);
    lemma_holds_elsewhere(flag_update(x, ch)->0, ch);
}

/// One switch, by the group it belongs to.
proof fn lemma_group_step(x: SettingsView, ch: char, ch2: char)
    requires
        flag_update(x, ch2) is Some,
    ensures
        flag_holds(flag_update(x, ch2)->0, ch2),
        flag_holds(x, ch) ==> flag_holds(flag_update(x, ch2)->0, ch),
{
    reveal(flag_update);
    let t = flag_update(x, ch2)->0;
    lemma_holds_elsewhere(x, ch2);
    lemma_holds_elsewhere(t, ch2);
    if crate::settings::listing_flag(x.listing, ch2) is Some {
        lemma_listing_switch(x.listing, ch, ch2);
    } else if crate::settings::search_flag(x.search, ch2) is Some {
        lemma_search_switch(x.search, ch, ch2);
    } else if crate::settings::display_flag(x.display, ch2) is Some {
        lemma_display_switch(x.display, ch, ch2);
    } else {
        lemma_launch_switch(x.launch, ch, ch2);
    }
}

/// Whether a switch among `chars[ci..]` sets the sort key.
pub open spec fn sorts_from(chars: Seq<char>, ci: int) -> bool {
    exists|k: int| ci <= k < chars.len() && (chars[k] == 's' || chars[k] == 't')
}

/// Applying switches keeps what held and makes each of them hold; two settings that
/// go through the same switches end with the same sort key when one of them sorts.
proof fn lemma_switches_from(x: SettingsView, y: SettingsView, chars: Seq<char>, ci: int)
    requires
        0 <= ci,
        forall|k: int| ci <= k < chars.len() ==> is_switch(#[trigger] chars[k]),
    ensures
        forall|ch: char| is_switch(ch) && flag_holds(x, ch) ==> flag_holds(switches_from(x, chars, ci), ch),
        forall|k: int| ci <= k < chars.len() ==> flag_holds(switches_from(x, chars, ci), #[trigger] chars[k]),
        (x.listing.sort_by == y.listing.sort_by || sorts_from(chars, ci)) ==>
            switches_from(x, chars, ci).listing.sort_by == switches_from(y, chars, ci).listing.sort_by,
    decreases chars.len() - ci,
{
    if ci < chars.len() {
        let ch = chars[ci];
        let x2 = flag_update(x, ch)->0;
        let y2 = flag_update(y, ch)->0;
        lemma_switches_from(x2, y2, chars, ci + 1);
        assert forall|c: char| is_switch(c) && flag_holds(x, c) implies flag_holds(switches_from(x, chars, ci), c) by {
            lemma_switch_effects(x, y, c, ch);
        }
        lemma_switch_effects(x, y, ch, ch);
        if x.listing.sort_by == y.listing.sort_by || sorts_from(chars, ci) {
            if !(ch == 's' || ch == 't') && x.listing.sort_by != y.listing.sort_by {
                let k = choose|k: int| ci <= k < chars.len() && (chars[k] == 's' || chars[k] == 't');
                assert(k != ci);
                assert(sorts_from(chars, ci + 1));
            }
        }
    }
}

/// Applying switch clusters: the same three facts.
proof fn lemma_clusters_from(x: SettingsView, y: SettingsView, argv: Seq<Seq<char>>, i: int)
    requires
        0 <= i,
        forall|j: int| i <= j < argv.len() ==> is_switch_cluster(#[trigger] argv[j]),
    ensures
        forall|ch: char| is_switch(ch) && flag_holds(x, ch) ==> flag_holds(clusters_from(x, argv, i), ch),
        forall|j: int, k: int| i <= j < argv.len() && 1 <= k < argv[j].len() ==> flag_holds(
            clusters_from(x, argv, i),
            #[trigger] argv[j][k],
        ),
        (x.listing.sort_by == y.listing.sort_by || clusters_sort(argv, i)) ==>
            clusters_from(x, argv, i).listing.sort_by == clusters_from(y, argv, i).listing.sort_by,
    decreases argv.len() - i,
{
    if i < argv.len() {
        let chars = argv[i].drop_first();
        assert forall|k: int| 0 <= k < chars.len() implies is_switch(#[trigger] chars[k]) by {
            assert(chars[k] == argv[i][k + 1]);
        }
        let x2 = switches_from(x, chars, 0);
        let y2 = switches_from(y, chars, 0);
        lemma_switches_from(x, y, chars, 0);
        lemma_clusters_from(x2, y2, argv, i + 1);
        assert forall|j: int, k: int| i <= j < argv.len() && 1 <= k < argv[j].len() implies flag_holds(
            clusters_from(x, argv, i),
            #[trigger] argv[j][k],
        ) by {
            if j == i {
                assert(argv[j][k] == chars[k - 1]);
                assert(is_switch(argv[j][k]));
            }
        }
        if x.listing.sort_by == y.listing.sort_by || clusters_sort(argv, i) {
            if !sorts_from(chars, 0) && x.listing.sort_by != y.listing.sort_by {
                let (j, k) = choose|j: int, k: int|
                    i <= j < argv.len() && 1 <= k < argv[j].len() && (argv[j][k] == 's' || argv[j][k] == 't');
                if j == i {
                    assert(chars[k - 1] == argv[j][k]);
                    assert(sorts_from(chars, 0));
                }
                assert(clusters_sort(argv, i + 1));
            }
        }
    }
}

/// Whether a switch in the clusters `argv[i..]` sets the sort key.
pub open spec fn clusters_sort(argv: Seq<Seq<char>>, i: int) -> bool {
    exists|j: int, k: int| i <= j < argv.len() && 1 <= k < argv[j].len() && (argv[j][k] == 's' || argv[j][k] == 't')
}

/// A cluster of switches reads as its switches, one after the other.
proof fn lemma_cluster_scan_switches(argv: Seq<Seq<char>>, i: int, chars: Seq<char>, ci: int, st: SettingsView)
    requires
        0 <= ci,
        forall|k: int| ci <= k < chars.len() ==> is_switch(#[trigger] chars[k]),
    ensures
        cluster_scan(argv, i, chars, ci, st) == ClusterEnd::Next(switches_from(st, chars, ci), false),
    decreases chars.len() - ci,
{
    if ci < chars.len() {
        lemma_switch_any(st, chars[ci]);
        lemma_cluster_scan_switches(argv, i, chars, ci + 1, flag_update(st, chars[ci])->0);
    }
}

/// A switch cluster is neither a meta flag nor one of the long options.
proof fn lemma_switch_cluster_not_long(a: Seq<char>)
    requires
        is_switch_cluster(a),
    ensures
        a != "--setup"@,
        a != "--keybinds"@,
        a != "--help"@,
        a != "-h"@,
        a != "--config"@,
        a != "--out-file"@,
        a != "--keep-open"@,
        !crate::text::has_prefix(a, "--"@),
        !crate::text::has_prefix(a, "--config="@),
        !crate::text::has_prefix(a, "--out-file="@),
{
    reveal(crate::text::has_prefix);
    reveal_strlit("--setup");
    reveal_strlit("--keybinds");
    reveal_strlit("--help");
    reveal_strlit("-h");
    reveal_strlit("--config");
    reveal_strlit("--out-file");
    reveal_strlit("--keep-open");
    reveal_strlit("--");
    reveal_strlit("--config=");
    reveal_strlit("--out-file=");
    assert(is_switch(a[1]));
    if a[1] == '-' || a[1] == 'h' {
        reveal(flag_update);
    }
    if "--"@.is_prefix_of(a) {
        assert(a.subrange(0, 2)[1] == a[1]);
    }
    if "--config="@.is_prefix_of(a) {
        assert(a.subrange(0, 9)[1] == a[1]);
    }
    if "--out-file="@.is_prefix_of(a) {
        assert(a.subrange(0, 11)[1] == a[1]);
    }
    if a == "-h"@ {
        assert(a[1] == 'h');
    }
}

/// Over switch clusters, the first scan finds no meta flag and the second applies the
/// clusters in order.
proof fn lemma_scan_clusters(argv: Seq<Seq<char>>, i: int, st: SettingsView)
    requires
        0 <= i,
        forall|j: int| i <= j < argv.len() ==> is_switch_cluster(#[trigger] argv[j]),
    ensures
        meta_scan(argv, i) is None,
        cli_scan(argv, i, st, None) == Ok::<ParsedView, Seq<char>>(
            ParsedView::Run { settings: finish_settings(clusters_from(st, argv, i)), out_file: None },
        ),
    decreases argv.len() - i,
{
    if i < argv.len() {
        let a = argv[i];
        lemma_switch_cluster_not_long(a);
        let chars = a.drop_first();
        assert forall|k: int| 0 <= k < chars.len() implies is_switch(#[trigger] chars[k]) by {
            assert(chars[k] == a[k + 1]);
        }
        lemma_cluster_scan_switches(argv, i, chars, 0, st);
        lemma_scan_clusters(argv, i + 1, switches_from(st, chars, 0));
        assert(!crate::settings::is_meta(a));
        assert(begins_with(a, '-'));
    }
}

/// Flags on the command line win over the config file: for a command line of switch
/// clusters (such as `-a -nmc`), the result is the config's settings with the switches
/// applied in order, and whatever the config says, every switch given has its value in
/// the result (for `-s` and `-t`, the last one given decides the sort key).
pub proof fn law_flags_over_config(argv: Seq<Seq<char>>, c1: SettingsView, c2: SettingsView)
    requires
        forall|j: int| 0 <= j < argv.len() ==> is_switch_cluster(#[trigger] argv[j]),
    ensures
        parse_args_spec(argv, c1) == Ok::<ParsedView, Seq<char>>(
            ParsedView::Run { settings: finish_settings(clusters_from(c1, argv, 0)), out_file: None },
        ),
        forall|j: int, k: int| 0 <= j < argv.len() && 1 <= k < argv[j].len() ==> flag_holds(
            finish_settings(clusters_from(c1, argv, 0)),
            #[trigger] argv[j][k],
        ),
        clusters_sort(argv, 0) ==> finish_settings(clusters_from(c1, argv, 0)).listing.sort_by
            == finish_settings(clusters_from(c2, argv, 0)).listing.sort_by,
{
    lemma_scan_clusters(argv, 0, c1);
    lemma_clusters_from(c1, c2, argv, 0);
    let r = clusters_from(c1, argv, 0);
    assert forall|j: int, k: int| 0 <= j < argv.len() && 1 <= k < argv[j].len() implies flag_holds(
        finish_settings(r),
        #[trigger] argv[j][k],
    ) by {
        assert(is_switch(argv[j][k]));
        lemma_switch_effects(r, r, argv[j][k], argv[j][k]);
    }
}

/// Whether the switch `ch2` sets the field that `ch` sets (`-s` and `-t` share the
/// sort key).
pub open spec fn touches(ch2: char, ch: char) -> bool {
    ch2 == ch || ((ch2 == 's' || ch2 == 't') && (ch == 's' || ch == 't'))
}

/// `a` and `b` agree on the listing field that the switch `ch` sets.
pub open spec fn listing_same(a: Listing, b: Listing, ch: char) -> bool {
    if ch == 'a' {
        a.show_hidden == b.show_hidden
    } else if ch == 'r' {
        a.recursive == b.recursive
    } else if ch == 'g' {
        a.ignore_gitignore == b.ignore_gitignore
    } else if ch == 'L' {
        a.follow_links == b.follow_links
    } else if ch == 'A' {
        a.show_all == b.show_all
    } else if ch == 's' || ch == 't' {
        a.sort_by == b.sort_by
    } else if ch == 'd' {
        a.dirs_first == b.dirs_first
    } else if ch == 'v' {
        a.reverse == b.reverse
    } else {
        true
    }
}

/// `a` and `b` agree on the search field that the switch `ch` sets.
pub open spec fn search_same(a: Search, b: Search, ch: char) -> bool {
    if ch == 'x' {
        a.exact == b.exact
    } else if ch == 'i' {
        a.case_insensitive == b.case_insensitive
    } else if ch == 'z' {
        a.quit_on_match == b.quit_on_match
    } else if ch == 'w' {
        a.wrap_selection == b.wrap_selection
    } else {
        true
    }
}

/// `a` and `b` agree on the display field that the switch `ch` sets.
pub open spec fn display_same(a: Display, b: Display, ch: char) -> bool {
    if ch == 'n' {
        a.icons == b.icons
    } else if ch == 'c' {
        a.colors == b.colors
    } else if ch == 'b' {
        a.bold_dirs == b.bold_dirs
    } else if ch == 'l' {
        a.slash_dirs == b.slash_dirs
    } else if ch == 'q' {
        a.show_cwd == b.show_cwd
    } else if ch == 'm' {
        a.mouse == b.mouse
    } else if ch == 'F' {
        a.fullscreen == b.fullscreen
    } else {
        true
    }
}

/// `a` and `b` agree on the launch field that the switch `ch` sets.
pub open spec fn launch_same(a: LaunchView, b: LaunchView, ch: char) -> bool {
    if ch == 'o' {
        a.open_system == b.open_system
    } else if ch == 'H' {
        a.home_scope == b.home_scope
    } else if ch == 'k' {
        a.keep_open == b.keep_open
    } else {
        true
    }
}

/// `a` and `b` agree on the field that the switch `ch` sets.
pub open spec fn same_field(a: SettingsView, b: SettingsView, ch: char) -> bool {
    &&& listing_same(a.listing, b.listing, ch)
    &&& search_same(a.search, b.search, ch)
    &&& display_same(a.display, b.display, ch)
    &&& launch_same(a.launch, b.launch, ch)
}

/// A switch leaves alone the fields of the switches it does not touch, the popup
/// percentage and the editor.
proof fn lemma_switch_frame(x: SettingsView, ch: char, ch2: char)
    requires
        flag_update(x, ch2) is Some,
    ensures
        !touches(ch2, ch) ==> same_field(flag_update(x, ch2)->0, x, ch),
        flag_update(x, ch2)->0.display.popup_percent == x.display.popup_percent,
        flag_update(x, ch2)->0.launch.editor == x.launch.editor,
{
    reveal(flag_update);
}

/// Switches that do not touch `ch` leave its field, the popup percentage and the
/// editor as they were.
proof fn lemma_switches_frame(x: SettingsView, chars: Seq<char>, ci: int, ch: char)
    requires
        0 <= ci,
        forall|k: int| ci <= k < chars.len() ==> is_switch(#[trigger] chars[k]),
    ensures
        (forall|k: int| ci <= k < chars.len() ==> !touches(#[trigger] chars[k], ch)) ==> same_field(
            switches_from(x, chars, ci),
            x,
            ch,
        ),
        switches_from(x, chars, ci).display.popup_percent == x.display.popup_percent,
        switches_from(x, chars, ci).launch.editor == x.launch.editor,
    decreases chars.len() - ci,
{
    if ci < chars.len() {
        lemma_switch_any(x, chars[ci]);
        lemma_switch_frame(x, ch, chars[ci]);
        lemma_switches_frame(flag_update(x, chars[ci])->0, chars, ci + 1, ch);
    }
}

/// Whether no switch of the clusters `argv[i..]` touches the field of `ch`.
pub open spec fn untouched(argv: Seq<Seq<char>>, i: int, ch: char) -> bool {
    forall|j: int, k: int| i <= j < argv.len() && 1 <= k < argv[j].len() ==> !touches(#[trigger] argv[j][k], ch)
}

/// Switch clusters that do not touch `ch` leave its field, the popup percentage and
/// the editor as they were.
proof fn lemma_clusters_frame(x: SettingsView, argv: Seq<Seq<char>>, i: int, ch: char)
    requires
        0 <= i,
        forall|j: int| i <= j < argv.len() ==> is_switch_cluster(#[trigger] argv[j]),
    ensures
        untouched(argv, i, ch) ==> same_field(clusters_from(x, argv, i), x, ch),
        clusters_from(x, argv, i).display.popup_percent == x.display.popup_percent,
        clusters_from(x, argv, i).launch.editor == x.launch.editor,
    decreases argv.len() - i,
{
    if i < argv.len() {
        let chars = argv[i].drop_first();
        assert forall|k: int| 0 <= k < chars.len() implies is_switch(#[trigger] chars[k]) by {
            assert(chars[k] == argv[i][k + 1]);
        }
        lemma_switches_frame(x, chars, 0, ch);
        let x2 = switches_from(x, chars, 0);
        lemma_clusters_frame(x2, argv, i + 1, ch);
        if untouched(argv, i, ch) {
            assert forall|k: int| 0 <= k < chars.len() implies !touches(#[trigger] chars[k], ch) by {
                assert(chars[k] == argv[i][k + 1]);
            }
            assert(untouched(argv, i + 1, ch));
        }
    }
}

/// The clusters after two leading arguments are the clusters of the rest.
proof fn lemma_clusters_shift(s: SettingsView, head: Seq<Seq<char>>, flags: Seq<Seq<char>>, i: int)
    requires
        head.len() == 2,
        0 <= i,
    ensures
        clusters_from(s, head + flags, i + 2) == clusters_from(s, flags, i),
    decreases flags.len() - i,
{
    if i < flags.len() {
        assert((head + flags)[i + 2] == flags[i]);
        lemma_clusters_shift(switches_from(s, flags[i].drop_first(), 0), head, flags, i + 1);
    }
}

/// The command line `--config p` followed by switch clusters, over the settings that
/// the file `p` (with text `text`) gives: the result is the file's settings with the
/// switches applied in order. Every switch given has its value, whatever the file
/// says; every switch field that no switch given touches keeps the file's value
/// (except that `show_all` turns on `show_hidden` and `ignore_gitignore`); and the
/// popup percentage and the editor are the file's.
pub proof fn law_config_file_then_flags(text: Seq<char>, p: Seq<char>, flags: Seq<Seq<char>>)
    requires
        forall|j: int| 0 <= j < flags.len() ==> is_switch_cluster(#[trigger] flags[j]),
    ensures
        ({
            let argv = seq!["--config"@, p] + flags;
            let config = parse_config_spec(text);
            let r = finish_settings(clusters_from(config, flags, 0));
            &&& parse_args_spec(argv, config) == Ok::<ParsedView, Seq<char>>(
                ParsedView::Run { settings: r, out_file: None },
            )
            &&& forall|j: int, k: int| 0 <= j < flags.len() && 1 <= k < flags[j].len() ==> flag_holds(
                r,
                #[trigger] flags[j][k],
            )
            &&& forall|ch: char| is_switch(ch) && untouched(flags, 0, ch) && !((ch == 'a' || ch == 'g') && r.listing.show_all)
                ==> #[trigger] same_field(r, config, ch)
            &&& r.display.popup_percent == config.display.popup_percent
            &&& r.launch.editor == config.launch.editor
        }),
{
    let head = seq!["--config"@, p];
    let argv = head + flags;
    let config = parse_config_spec(text);
    let c = clusters_from(config, flags, 0);
    let r = finish_settings(c);
    assert forall|j: int| 2 <= j < argv.len() implies is_switch_cluster(#[trigger] argv[j]) by {
        assert(argv[j] == flags[j - 2]);
    }
    lemma_scan_clusters(argv, 2, config);
    lemma_clusters_shift(config, head, flags, 0);
    assert(argv[0] == "--config"@);
    assert("--config"@ != "--setup"@ && "--config"@ != "--keybinds"@ && "--config"@ != "--help"@
        && "--config"@ != "-h"@) by {
        reveal_strlit("--config");
        reveal_strlit("--setup");
        reveal_strlit("--keybinds");
        reveal_strlit("--help");
        reveal_strlit("-h");
    }
    assert(meta_scan(argv, 0) == meta_scan(argv, 2));
    assert(cli_scan(argv, 0, config, None) == cli_scan(argv, 2, config, None));
    law_flags_over_config(flags, config, config);
    assert forall|ch: char| is_switch(ch) && untouched(flags, 0, ch) && !((ch == 'a' || ch == 'g') && r.listing.show_all)
        implies #[trigger] same_field(r, config, ch) by {
        lemma_clusters_frame(config, flags, 0, ch);
    }
    lemma_clusters_frame(config, flags, 0, 'a');
}

/// The word that the config file writes for a boolean.
pub open spec fn bool_word(b: bool) -> Seq<char> {
    if b {
        "true"@
    } else {
        "false"@
    }
}

proof fn lemma_config_key_show_hidden(s: SettingsView, b: bool)
    ensures
        apply_config_spec(s, "show_hidden"@, bool_word(b)).listing.show_hidden == b,
{
    reveal_strlit("show_hidden");
    assert("show_hidden"@.len() == 11);
    reveal_strlit("recursive");
    assert("recursive"@.len() == 9);
    reveal_strlit("ignore_gitignore");
    assert("ignore_gitignore"@.len() == 16);
    reveal_strlit("follow_links");
    assert("follow_links"@.len() == 12);
    reveal_strlit("show_all");
    assert("show_all"@.len() == 8);
    reveal_strlit("sort_by");
    assert("sort_by"@.len() == 7);
    reveal_strlit("dirs_first");
    assert("dirs_first"@.len() == 10);
    reveal_strlit("reverse");
    assert("reverse"@.len() == 7);
    reveal_strlit("exact");
    assert("exact"@.len() == 5);
    reveal_strlit("case_insensitive");
    assert("case_insensitive"@.len() == 16);
    reveal_strlit("quit_on_match");
    assert("quit_on_match"@.len() == 13);
    reveal_strlit("wrap_selection");
    assert("wrap_selection"@.len() == 14);
    reveal_strlit("icons");
    assert("icons"@.len() == 5);
    reveal_strlit("colors");
    assert("colors"@.len() == 6);
    reveal_strlit("bold_dirs");
    assert("bold_dirs"@.len() == 9);
    reveal_strlit("slash_dirs");
    assert("slash_dirs"@.len() == 10);
    reveal_strlit("show_cwd");
    assert("show_cwd"@.len() == 8);
    reveal_strlit("mouse");
    assert("mouse"@.len() == 5);
    reveal_strlit("fullscreen");
    assert("fullscreen"@.len() == 10);
    reveal_strlit("popup_percent");
    assert("popup_percent"@.len() == 13);
    reveal_strlit("editor");
    assert("editor"@.len() == 6);
    reveal_strlit("open_system");
    assert("open_system"@.len() == 11);
    reveal_strlit("home_scope");
    assert("home_scope"@.len() == 10);
    reveal_strlit("keep_open");
    assert("keep_open"@.len() == 9);
    assert("show_hidden"@[0] != "open_system"@[0]);
    reveal_strlit("true");
    assert("true"@.len() == 4);
    reveal_strlit("false");
    assert("false"@.len() == 5);
}

proof fn lemma_config_key_recursive(s: SettingsView, b: bool)
    ensures
        apply_config_spec(s, "recursive"@, bool_word(b)).listing.recursive == b,
{
    reveal_strlit("show_hidden");
    assert("show_hidden"@.len() == 11);
    reveal_strlit("recursive");
    assert("recursive"@.len() == 9);
    reveal_strlit("ignore_gitignore");
    assert("ignore_gitignore"@.len() == 16);
    reveal_strlit("follow_links");
    assert("follow_links"@.len() == 12);
    reveal_strlit("show_all");
    assert("show_all"@.len() == 8);
    reveal_strlit("sort_by");
    assert("sort_by"@.len() == 7);
    reveal_strlit("dirs_first");
    assert("dirs_first"@.len() == 10);
    reveal_strlit("reverse");
    assert("reverse"@.len() == 7);
    reveal_strlit("exact");
    assert("exact"@.len() == 5);
    reveal_strlit("case_insensitive");
    assert("case_insensitive"@.len() == 16);
    reveal_strlit("quit_on_match");
    assert("quit_on_match"@.len() == 13);
    reveal_strlit("wrap_selection");
    assert("wrap_selection"@.len() == 14);
    reveal_strlit("icons");
    assert("icons"@.len() == 5);
    reveal_strlit("colors");
    assert("colors"@.len() == 6);
    reveal_strlit("bold_dirs");
    assert("bold_dirs"@.len() == 9);
    reveal_strlit("slash_dirs");
    assert("slash_dirs"@.len() == 10);
    reveal_strlit("show_cwd");
    assert("show_cwd"@.len() == 8);
    reveal_strlit("mouse");
    assert("mouse"@.len() == 5);
    reveal_strlit("fullscreen");
    assert("fullscreen"@.len() == 10);
    reveal_strlit("popup_percent");
    assert("popup_percent"@.len() == 13);
    reveal_strlit("editor");
    assert("editor"@.len() == 6);
    reveal_strlit("open_system");
    assert("open_system"@.len() == 11);
    reveal_strlit("home_scope");
    assert("home_scope"@.len() == 10);
    reveal_strlit("keep_open");
    assert("keep_open"@.len() == 9);
    assert("recursive"@[0] != "bold_dirs"@[0]);
    assert("recursive"@[0] != "keep_open"@[0]);
    reveal_strlit("true");
    assert("true"@.len() == 4);
    reveal_strlit("false");
    assert("false"@.len() == 5);
}

proof fn lemma_config_key_ignore_gitignore(s: SettingsView, b: bool)
    ensures
        apply_config_spec(s, "ignore_gitignore"@, bool_word(b)).listing.ignore_gitignore == b,
{
    reveal_strlit("show_hidden");
    assert("show_hidden"@.len() == 11);
    reveal_strlit("recursive");
    assert("recursive"@.len() == 9);
    reveal_strlit("ignore_gitignore");
    assert("ignore_gitignore"@.len() == 16);
    reveal_strlit("follow_links");
    assert("follow_links"@.len() == 12);
    reveal_strlit("show_all");
    assert("show_all"@.len() == 8);
    reveal_strlit("sort_by");
    assert("sort_by"@.len() == 7);
    reveal_strlit("dirs_first");
    assert("dirs_first"@.len() == 10);
    reveal_strlit("reverse");
    assert("reverse"@.len() == 7);
    reveal_strlit("exact");
    assert("exact"@.len() == 5);
    reveal_strlit("case_insensitive");
    assert("case_insensitive"@.len() == 16);
    reveal_strlit("quit_on_match");
    assert("quit_on_match"@.len() == 13);
    reveal_strlit("wrap_selection");
    assert("wrap_selection"@.len() == 14);
    reveal_strlit("icons");
    assert("icons"@.len() == 5);
    reveal_strlit("colors");
    assert("colors"@.len() == 6);
    reveal_strlit("bold_dirs");
    assert("bold_dirs"@.len() == 9);
    reveal_strlit("slash_dirs");
    assert("slash_dirs"@.len() == 10);
    reveal_strlit("show_cwd");
    assert("show_cwd"@.len() == 8);
    reveal_strlit("mouse");
    assert("mouse"@.len() == 5);
    reveal_strlit("fullscreen");
    assert("fullscreen"@.len() == 10);
    reveal_strlit("popup_percent");
    assert("popup_percent"@.len() == 13);
    reveal_strlit("editor");
    assert("editor"@.len() == 6);
    reveal_strlit("open_system");
    assert("open_system"@.len() == 11);
    reveal_strlit("home_scope");
    assert("home_scope"@.len() == 10);
    reveal_strlit("keep_open");
    assert("keep_open"@.len() == 9);
    assert("ignore_gitignore"@[0] != "case_insensitive"@[0]);
    reveal_strlit("true");
    assert("true"@.len() == 4);
    reveal_strlit("false");
    assert("false"@.len() == 5);
}

proof fn lemma_config_key_follow_links(s: SettingsView, b: bool)
    ensures
        apply_config_spec(s, "follow_links"@, bool_word(b)).listing.follow_links == b,
{
    reveal_strlit("show_hidden");
    assert("show_hidden"@.len() == 11);
    reveal_strlit("recursive");
    assert("recursive"@.len() == 9);
    reveal_strlit("ignore_gitignore");
    assert("ignore_gitignore"@.len() == 16);
    reveal_strlit("follow_links");
    assert("follow_links"@.len() == 12);
    reveal_strlit("show_all");
    assert("show_all"@.len() == 8);
    reveal_strlit("sort_by");
    assert("sort_by"@.len() == 7);
    reveal_strlit("dirs_first");
    assert("dirs_first"@.len() == 10);
    reveal_strlit("reverse");
    assert("reverse"@.len() == 7);
    reveal_strlit("exact");
    assert("exact"@.len() == 5);
    reveal_strlit("case_insensitive");
    assert("case_insensitive"@.len() == 16);
    reveal_strlit("quit_on_match");
    assert("quit_on_match"@.len() == 13);
    reveal_strlit("wrap_selection");
    assert("wrap_selection"@.len() == 14);
    reveal_strlit("icons");
    assert("icons"@.len() == 5);
    reveal_strlit("colors");
    assert("colors"@.len() == 6);
    reveal_strlit("bold_dirs");
    assert("bold_dirs"@.len() == 9);
    reveal_strlit("slash_dirs");
    assert("slash_dirs"@.len() == 10);
    reveal_strlit("show_cwd");
    assert("show_cwd"@.len() == 8);
    reveal_strlit("mouse");
    assert("mouse"@.len() == 5);
    reveal_strlit("fullscreen");
    assert("fullscreen"@.len() == 10);
    reveal_strlit("popup_percent");
    assert("popup_percent"@.len() == 13);
    reveal_strlit("editor");
    assert("editor"@.len() == 6);
    reveal_strlit("open_system");
    assert("open_system"@.len() == 11);
    reveal_strlit("home_scope");
    assert("home_scope"@.len() == 10);
    reveal_strlit("keep_open");
    assert("keep_open"@.len() == 9);
    reveal_strlit("true");
    assert("true"@.len() == 4);
    reveal_strlit("false");
    assert("false"@.len() == 5);
}

proof fn lemma_config_key_show_all(s: SettingsView, b: bool)
    ensures
        apply_config_spec(s, "show_all"@, bool_word(b)).listing.show_all == b,
{
    reveal_strlit("show_hidden");
    assert("show_hidden"@.len() == 11);
    reveal_strlit("recursive");
    assert("recursive"@.len() == 9);
    reveal_strlit("ignore_gitignore");
    assert("ignore_gitignore"@.len() == 16);
    reveal_strlit("follow_links");
    assert("follow_links"@.len() == 12);
    reveal_strlit("show_all");
    assert("show_all"@.len() == 8);
    reveal_strlit("sort_by");
    assert("sort_by"@.len() == 7);
    reveal_strlit("dirs_first");
    assert("dirs_first"@.len() == 10);
    reveal_strlit("reverse");
    assert("reverse"@.len() == 7);
    reveal_strlit("exact");
    assert("exact"@.len() == 5);
    reveal_strlit("case_insensitive");
    assert("case_insensitive"@.len() == 16);
    reveal_strlit("quit_on_match");
    assert("quit_on_match"@.len() == 13);
    reveal_strlit("wrap_selection");
    assert("wrap_selection"@.len() == 14);
    reveal_strlit("icons");
    assert("icons"@.len() == 5);
    reveal_strlit("colors");
    assert("colors"@.len() == 6);
    reveal_strlit("bold_dirs");
    assert("bold_dirs"@.len() == 9);
    reveal_strlit("slash_dirs");
    assert("slash_dirs"@.len() == 10);
    reveal_strlit("show_cwd");
    assert("show_cwd"@.len() == 8);
    reveal_strlit("mouse");
    assert("mouse"@.len() == 5);
    reveal_strlit("fullscreen");
    assert("fullscreen"@.len() == 10);
    reveal_strlit("popup_percent");
    assert("popup_percent"@.len() == 13);
    reveal_strlit("editor");
    assert("editor"@.len() == 6);
    reveal_strlit("open_system");
    assert("open_system"@.len() == 11);
    reveal_strlit("home_scope");
    assert("home_scope"@.len() == 10);
    reveal_strlit("keep_open");
    assert("keep_open"@.len() == 9);
    assert("show_all"@[5] != "show_cwd"@[5]);
    reveal_strlit("true");
    assert("true"@.len() == 4);
    reveal_strlit("false");
    assert("false"@.len() == 5);
}

proof fn lemma_config_key_dirs_first(s: SettingsView, b: bool)
    ensures
        apply_config_spec(s, "dirs_first"@, bool_word(b)).listing.dirs_first == b,
{
    reveal_strlit("show_hidden");
    assert("show_hidden"@.len() == 11);
    reveal_strlit("recursive");
    assert("recursive"@.len() == 9);
    reveal_strlit("ignore_gitignore");
    assert("ignore_gitignore"@.len() == 16);
    reveal_strlit("follow_links");
    assert("follow_links"@.len() == 12);
    reveal_strlit("show_all");
    assert("show_all"@.len() == 8);
    reveal_strlit("sort_by");
    assert("sort_by"@.len() == 7);
    reveal_strlit("dirs_first");
    assert("dirs_first"@.len() == 10);
    reveal_strlit("reverse");
    assert("reverse"@.len() == 7);
    reveal_strlit("exact");
    assert("exact"@.len() == 5);
    reveal_strlit("case_insensitive");
    assert("case_insensitive"@.len() == 16);
    reveal_strlit("quit_on_match");
    assert("quit_on_match"@.len() == 13);
    reveal_strlit("wrap_selection");
    assert("wrap_selection"@.len() == 14);
    reveal_strlit("icons");
    assert("icons"@.len() == 5);
    reveal_strlit("colors");
    assert("colors"@.len() == 6);
    reveal_strlit("bold_dirs");
    assert("bold_dirs"@.len() == 9);
    reveal_strlit("slash_dirs");
    assert("slash_dirs"@.len() == 10);
    reveal_strlit("show_cwd");
    assert("show_cwd"@.len() == 8);
    reveal_strlit("mouse");
    assert("mouse"@.len() == 5);
    reveal_strlit("fullscreen");
    assert("fullscreen"@.len() == 10);
    reveal_strlit("popup_percent");
    assert("popup_percent"@.len() == 13);
    reveal_strlit("editor");
    assert("editor"@.len() == 6);
    reveal_strlit("open_system");
    assert("open_system"@.len() == 11);
    reveal_strlit("home_scope");
    assert("home_scope"@.len() == 10);
    reveal_strlit("keep_open");
    assert("keep_open"@.len() == 9);
    assert("dirs_first"@[0] != "slash_dirs"@[0]);
    assert("dirs_first"@[0] != "fullscreen"@[0]);
    assert("dirs_first"@[0] != "home_scope"@[0]);
    reveal_strlit("true");
    assert("true"@.len() == 4);
    reveal_strlit("false");
    assert("false"@.len() == 5);
}

proof fn lemma_config_key_reverse(s: SettingsView, b: bool)
    ensures
        apply_config_spec(s, "reverse"@, bool_word(b)).listing.reverse == b,
{
    reveal_strlit("show_hidden");
    assert("show_hidden"@.len() == 11);
    reveal_strlit("recursive");
    assert("recursive"@.len() == 9);
    reveal_strlit("ignore_gitignore");
    assert("ignore_gitignore"@.len() == 16);
    reveal_strlit("follow_links");
    assert("follow_links"@.len() == 12);
    reveal_strlit("show_all");
    assert("show_all"@.len() == 8);
    reveal_strlit("sort_by");
    assert("sort_by"@.len() == 7);
    reveal_strlit("dirs_first");
    assert("dirs_first"@.len() == 10);
    reveal_strlit("reverse");
    assert("reverse"@.len() == 7);
    reveal_strlit("exact");
    assert("exact"@.len() == 5);
    reveal_strlit("case_insensitive");
    assert("case_insensitive"@.len() == 16);
    reveal_strlit("quit_on_match");
    assert("quit_on_match"@.len() == 13);
    reveal_strlit("wrap_selection");
    assert("wrap_selection"@.len() == 14);
    reveal_strlit("icons");
    assert("icons"@.len() == 5);
    reveal_strlit("colors");
    assert("colors"@.len() == 6);
    reveal_strlit("bold_dirs");
    assert("bold_dirs"@.len() == 9);
    reveal_strlit("slash_dirs");
    assert("slash_dirs"@.len() == 10);
    reveal_strlit("show_cwd");
    assert("show_cwd"@.len() == 8);
    reveal_strlit("mouse");
    assert("mouse"@.len() == 5);
    reveal_strlit("fullscreen");
    assert("fullscreen"@.len() == 10);
    reveal_strlit("popup_percent");
    assert("popup_percent"@.len() == 13);
    reveal_strlit("editor");
    assert("editor"@.len() == 6);
    reveal_strlit("open_system");
    assert("open_system"@.len() == 11);
    reveal_strlit("home_scope");
    assert("home_scope"@.len() == 10);
    reveal_strlit("keep_open");
    assert("keep_open"@.len() == 9);
    assert("reverse"@[0] != "sort_by"@[0]);
    reveal_strlit("true");
    assert("true"@.len() == 4);
    reveal_strlit("false");
    assert("false"@.len() == 5);
}

proof fn lemma_config_key_exact(s: SettingsView, b: bool)
    ensures
        apply_config_spec(s, "exact"@, bool_word(b)).search.exact == b,
{
    reveal_strlit("show_hidden");
    assert("show_hidden"@.len() == 11);
    reveal_strlit("recursive");
    assert("recursive"@.len() == 9);
    reveal_strlit("ignore_gitignore");
    assert("ignore_gitignore"@.len() == 16);
    reveal_strlit("follow_links");
    assert("follow_links"@.len() == 12);
    reveal_strlit("show_all");
    assert("show_all"@.len() == 8);
    reveal_strlit("sort_by");
    assert("sort_by"@.len() == 7);
    reveal_strlit("dirs_first");
    assert("dirs_first"@.len() == 10);
    reveal_strlit("reverse");
    assert("reverse"@.len() == 7);
    reveal_strlit("exact");
    assert("exact"@.len() == 5);
    reveal_strlit("case_insensitive");
    assert("case_insensitive"@.len() == 16);
    reveal_strlit("quit_on_match");
    assert("quit_on_match"@.len() == 13);
    reveal_strlit("wrap_selection");
    assert("wrap_selection"@.len() == 14);
    reveal_strlit("icons");
    assert("icons"@.len() == 5);
    reveal_strlit("colors");
    assert("colors"@.len() == 6);
    reveal_strlit("bold_dirs");
    assert("bold_dirs"@.len() == 9);
    reveal_strlit("slash_dirs");
    assert("slash_dirs"@.len() == 10);
    reveal_strlit("show_cwd");
    assert("show_cwd"@.len() == 8);
    reveal_strlit("mouse");
    assert("mouse"@.len() == 5);
    reveal_strlit("fullscreen");
    assert("fullscreen"@.len() == 10);
    reveal_strlit("popup_percent");
    assert("popup_percent"@.len() == 13);
    reveal_strlit("editor");
    assert("editor"@.len() == 6);
    reveal_strlit("open_system");
    assert("open_system"@.len() == 11);
    reveal_strlit("home_scope");
    assert("home_scope"@.len() == 10);
    reveal_strlit("keep_open");
    assert("keep_open"@.len() == 9);
    assert("exact"@[0] != "icons"@[0]);
    assert("exact"@[0] != "mouse"@[0]);
    reveal_strlit("true");
    assert("true"@.len() == 4);
    reveal_strlit("false");
    assert("false"@.len() == 5);
}

proof fn lemma_config_key_case_insensitive(s: SettingsView, b: bool)
    ensures
        apply_config_spec(s, "case_insensitive"@, bool_word(b)).search.case_insensitive == b,
{
    reveal_strlit("show_hidden");
    assert("show_hidden"@.len() == 11);
    reveal_strlit("recursive");
    assert("recursive"@.len() == 9);
    reveal_strlit("ignore_gitignore");
    assert("ignore_gitignore"@.len() == 16);
    reveal_strlit("follow_links");
    assert("follow_links"@.len() == 12);
    reveal_strlit("show_all");
    assert("show_all"@.len() == 8);
    reveal_strlit("sort_by");
    assert("sort_by"@.len() == 7);
    reveal_strlit("dirs_first");
    assert("dirs_first"@.len() == 10);
    reveal_strlit("reverse");
    assert("reverse"@.len() == 7);
    reveal_strlit("exact");
    assert("exact"@.len() == 5);
    reveal_strlit("case_insensitive");
    assert("case_insensitive"@.len() == 16);
    reveal_strlit("quit_on_match");
    assert("quit_on_match"@.len() == 13);
    reveal_strlit("wrap_selection");
    assert("wrap_selection"@.len() == 14);
    reveal_strlit("icons");
    assert("icons"@.len() == 5);
    reveal_strlit("colors");
    assert("colors"@.len() == 6);
    reveal_strlit("bold_dirs");
    assert("bold_dirs"@.len() == 9);
    reveal_strlit("slash_dirs");
    assert("slash_dirs"@.len() == 10);
    reveal_strlit("show_cwd");
    assert("show_cwd"@.len() == 8);
    reveal_strlit("mouse");
    assert("mouse"@.len() == 5);
    reveal_strlit("fullscreen");
    assert("fullscreen"@.len() == 10);
    reveal_strlit("popup_percent");
    assert("popup_percent"@.len() == 13);
    reveal_strlit("editor");
    assert("editor"@.len() == 6);
    reveal_strlit("open_system");
    assert("open_system"@.len() == 11);
    reveal_strlit("home_scope");
    assert("home_scope"@.len() == 10);
    reveal_strlit("keep_open");
    assert("keep_open"@.len() == 9);
    assert("case_insensitive"@[0] != "ignore_gitignore"@[0]);
    reveal_strlit("true");
    assert("true"@.len() == 4);
    reveal_strlit("false");
    assert("false"@.len() == 5);
}

proof fn lemma_config_key_quit_on_match(s: SettingsView, b: bool)
    ensures
        apply_config_spec(s, "quit_on_match"@, bool_word(b)).search.quit_on_match == b,
{
    reveal_strlit("show_hidden");
    assert("show_hidden"@.len() == 11);
    reveal_strlit("recursive");
    assert("recursive"@.len() == 9);
    reveal_strlit("ignore_gitignore");
    assert("ignore_gitignore"@.len() == 16);
    reveal_strlit("follow_links");
    assert("follow_links"@.len() == 12);
    reveal_strlit("show_all");
    assert("show_all"@.len() == 8);
    reveal_strlit("sort_by");
    assert("sort_by"@.len() == 7);
    reveal_strlit("dirs_first");
    assert("dirs_first"@.len() == 10);
    reveal_strlit("reverse");
    assert("reverse"@.len() == 7);
    reveal_strlit("exact");
    assert("exact"@.len() == 5);
    reveal_strlit("case_insensitive");
    assert("case_insensitive"@.len() == 16);
    reveal_strlit("quit_on_match");
    assert("quit_on_match"@.len() == 13);
    reveal_strlit("wrap_selection");
    assert("wrap_selection"@.len() == 14);
    reveal_strlit("icons");
    assert("icons"@.len() == 5);
    reveal_strlit("colors");
    assert("colors"@.len() == 6);
    reveal_strlit("bold_dirs");
    assert("bold_dirs"@.len() == 9);
    reveal_strlit("slash_dirs");
    assert("slash_dirs"@.len() == 10);
    reveal_strlit("show_cwd");
    assert("show_cwd"@.len() == 8);
    reveal_strlit("mouse");
    assert("mouse"@.len() == 5);
    reveal_strlit("fullscreen");
    assert("fullscreen"@.len() == 10);
    reveal_strlit("popup_percent");
    assert("popup_percent"@.len() == 13);
    reveal_strlit("editor");
    assert("editor"@.len() == 6);
    reveal_strlit("open_system");
    assert("open_system"@.len() == 11);
    reveal_strlit("home_scope");
    assert("home_scope"@.len() == 10);
    reveal_strlit("keep_open");
    assert("keep_open"@.len() == 9);
    assert("quit_on_match"@[0] != "popup_percent"@[0]);
    reveal_strlit("true");
    assert("true"@.len() == 4);
    reveal_strlit("false");
    assert("false"@.len() == 5);
}

proof fn lemma_config_key_wrap_selection(s: SettingsView, b: bool)
    ensures
        apply_config_spec(s, "wrap_selection"@, bool_word(b)).search.wrap_selection == b,
{
    reveal_strlit("show_hidden");
    assert("show_hidden"@.len() == 11);
    reveal_strlit("recursive");
    assert("recursive"@.len() == 9);
    reveal_strlit("ignore_gitignore");
    assert("ignore_gitignore"@.len() == 16);
    reveal_strlit("follow_links");
    assert("follow_links"@.len() == 12);
    reveal_strlit("show_all");
    assert("show_all"@.len() == 8);
    reveal_strlit("sort_by");
    assert("sort_by"@.len() == 7);
    reveal_strlit("dirs_first");
    assert("dirs_first"@.len() == 10);
    reveal_strlit("reverse");
    assert("reverse"@.len() == 7);
    reveal_strlit("exact");
    assert("exact"@.len() == 5);
    reveal_strlit("case_insensitive");
    assert("case_insensitive"@.len() == 16);
    reveal_strlit("quit_on_match");
    assert("quit_on_match"@.len() == 13);
    reveal_strlit("wrap_selection");
    assert("wrap_selection"@.len() == 14);
    reveal_strlit("icons");
    assert("icons"@.len() == 5);
    reveal_strlit("colors");
    assert("colors"@.len() == 6);
    reveal_strlit("bold_dirs");
    assert("bold_dirs"@.len() == 9);
    reveal_strlit("slash_dirs");
    assert("slash_dirs"@.len() == 10);
    reveal_strlit("show_cwd");
    assert("show_cwd"@.len() == 8);
    reveal_strlit("mouse");
    assert("mouse"@.len() == 5);
    reveal_strlit("fullscreen");
    assert("fullscreen"@.len() == 10);
    reveal_strlit("popup_percent");
    assert("popup_percent"@.len() == 13);
    reveal_strlit("editor");
    assert("editor"@.len() == 6);
    reveal_strlit("open_system");
    assert("open_system"@.len() == 11);
    reveal_strlit("home_scope");
    assert("home_scope"@.len() == 10);
    reveal_strlit("keep_open");
    assert("keep_open"@.len() == 9);
    reveal_strlit("true");
    assert("true"@.len() == 4);
    reveal_strlit("false");
    assert("false"@.len() == 5);
}

proof fn lemma_config_key_icons(s: SettingsView, b: bool)
    ensures
        apply_config_spec(s, "icons"@, bool_word(b)).display.icons == b,
{
    reveal_strlit("show_hidden");
    assert("show_hidden"@.len() == 11);
    reveal_strlit("recursive");
    assert("recursive"@.len() == 9);
    reveal_strlit("ignore_gitignore");
    assert("ignore_gitignore"@.len() == 16);
    reveal_strlit("follow_links");
    assert("follow_links"@.len() == 12);
    reveal_strlit("show_all");
    assert("show_all"@.len() == 8);
    reveal_strlit("sort_by");
    assert("sort_by"@.len() == 7);
    reveal_strlit("dirs_first");
    assert("dirs_first"@.len() == 10);
    reveal_strlit("reverse");
    assert("reverse"@.len() == 7);
    reveal_strlit("exact");
    assert("exact"@.len() == 5);
    reveal_strlit("case_insensitive");
    assert("case_insensitive"@.len() == 16);
    reveal_strlit("quit_on_match");
    assert("quit_on_match"@.len() == 13);
    reveal_strlit("wrap_selection");
    assert("wrap_selection"@.len() == 14);
    reveal_strlit("icons");
    assert("icons"@.len() == 5);
    reveal_strlit("colors");
    assert("colors"@.len() == 6);
    reveal_strlit("bold_dirs");
    assert("bold_dirs"@.len() == 9);
    reveal_strlit("slash_dirs");
    assert("slash_dirs"@.len() == 10);
    reveal_strlit("show_cwd");
    assert("show_cwd"@.len() == 8);
    reveal_strlit("mouse");
    assert("mouse"@.len() == 5);
    reveal_strlit("fullscreen");
    assert("fullscreen"@.len() == 10);
    reveal_strlit("popup_percent");
    assert("popup_percent"@.len() == 13);
    reveal_strlit("editor");
    assert("editor"@.len() == 6);
    reveal_strlit("open_system");
    assert("open_system"@.len() == 11);
    reveal_strlit("home_scope");
    assert("home_scope"@.len() == 10);
    reveal_strlit("keep_open");
    assert("keep_open"@.len() == 9);
    assert("icons"@[0] != "exact"@[0]);
    assert("icons"@[0] != "mouse"@[0]);
    reveal_strlit("true");
    assert("true"@.len() == 4);
    reveal_strlit("false");
    assert("false"@.len() == 5);
}

proof fn lemma_config_key_colors(s: SettingsView, b: bool)
    ensures
        apply_config_spec(s, "colors"@, bool_word(b)).display.colors == b,
{
    reveal_strlit("show_hidden");
    assert("show_hidden"@.len() == 11);
    reveal_strlit("recursive");
    assert("recursive"@.len() == 9);
    reveal_strlit("ignore_gitignore");
    assert("ignore_gitignore"@.len() == 16);
    reveal_strlit("follow_links");
    assert("follow_links"@.len() == 12);
    reveal_strlit("show_all");
    assert("show_all"@.len() == 8);
    reveal_strlit("sort_by");
    assert("sort_by"@.len() == 7);
    reveal_strlit("dirs_first");
    assert("dirs_first"@.len() == 10);
    reveal_strlit("reverse");
    assert("reverse"@.len() == 7);
    reveal_strlit("exact");
    assert("exact"@.len() == 5);
    reveal_strlit("case_insensitive");
    assert("case_insensitive"@.len() == 16);
    reveal_strlit("quit_on_match");
    assert("quit_on_match"@.len() == 13);
    reveal_strlit("wrap_selection");
    assert("wrap_selection"@.len() == 14);
    reveal_strlit("icons");
    assert("icons"@.len() == 5);
    reveal_strlit("colors");
    assert("colors"@.len() == 6);
    reveal_strlit("bold_dirs");
    assert("bold_dirs"@.len() == 9);
    reveal_strlit("slash_dirs");
    assert("slash_dirs"@.len() == 10);
    reveal_strlit("show_cwd");
    assert("show_cwd"@.len() == 8);
    reveal_strlit("mouse");
    assert("mouse"@.len() == 5);
    reveal_strlit("fullscreen");
    assert("fullscreen"@.len() == 10);
    reveal_strlit("popup_percent");
    assert("popup_percent"@.len() == 13);
    reveal_strlit("editor");
    assert("editor"@.len() == 6);
    reveal_strlit("open_system");
    assert("open_system"@.len() == 11);
    reveal_strlit("home_scope");
    assert("home_scope"@.len() == 10);
    reveal_strlit("keep_open");
    assert("keep_open"@.len() == 9);
    assert("colors"@[0] != "editor"@[0]);
    reveal_strlit("true");
    assert("true"@.len() == 4);
    reveal_strlit("false");
    assert("false"@.len() == 5);
}

proof fn lemma_config_key_bold_dirs(s: SettingsView, b: bool)
    ensures
        apply_config_spec(s, "bold_dirs"@, bool_word(b)).display.bold_dirs == b,
{
    reveal_strlit("show_hidden");
    assert("show_hidden"@.len() == 11);
    reveal_strlit("recursive");
    assert("recursive"@.len() == 9);
    reveal_strlit("ignore_gitignore");
    assert("ignore_gitignore"@.len() == 16);
    reveal_strlit("follow_links");
    assert("follow_links"@.len() == 12);
    reveal_strlit("show_all");
    assert("show_all"@.len() == 8);
    reveal_strlit("sort_by");
    assert("sort_by"@.len() == 7);
    reveal_strlit("dirs_first");
    assert("dirs_first"@.len() == 10);
    reveal_strlit("reverse");
    assert("reverse"@.len() == 7);
    reveal_strlit("exact");
    assert("exact"@.len() == 5);
    reveal_strlit("case_insensitive");
    assert("case_insensitive"@.len() == 16);
    reveal_strlit("quit_on_match");
    assert("quit_on_match"@.len() == 13);
    reveal_strlit("wrap_selection");
    assert("wrap_selection"@.len() == 14);
    reveal_strlit("icons");
    assert("icons"@.len() == 5);
    reveal_strlit("colors");
    assert("colors"@.len() == 6);
    reveal_strlit("bold_dirs");
    assert("bold_dirs"@.len() == 9);
    reveal_strlit("slash_dirs");
    assert("slash_dirs"@.len() == 10);
    reveal_strlit("show_cwd");
    assert("show_cwd"@.len() == 8);
    reveal_strlit("mouse");
    assert("mouse"@.len() == 5);
    reveal_strlit("fullscreen");
    assert("fullscreen"@.len() == 10);
    reveal_strlit("popup_percent");
    assert("popup_percent"@.len() == 13);
    reveal_strlit("editor");
    assert("editor"@.len() == 6);
    reveal_strlit("open_system");
    assert("open_system"@.len() == 11);
    reveal_strlit("home_scope");
    assert("home_scope"@.len() == 10);
    reveal_strlit("keep_open");
    assert("keep_open"@.len() == 9);
    assert("bold_dirs"@[0] != "recursive"@[0]);
    assert("bold_dirs"@[0] != "keep_open"@[0]);
    reveal_strlit("true");
    assert("true"@.len() == 4);
    reveal_strlit("false");
    assert("false"@.len() == 5);
}

proof fn lemma_config_key_slash_dirs(s: SettingsView, b: bool)
    ensures
        apply_config_spec(s, "slash_dirs"@, bool_word(b)).display.slash_dirs == b,
{
    reveal_strlit("show_hidden");
    assert("show_hidden"@.len() == 11);
    reveal_strlit("recursive");
    assert("recursive"@.len() == 9);
    reveal_strlit("ignore_gitignore");
    assert("ignore_gitignore"@.len() == 16);
    reveal_strlit("follow_links");
    assert("follow_links"@.len() == 12);
    reveal_strlit("show_all");
    assert("show_all"@.len() == 8);
    reveal_strlit("sort_by");
    assert("sort_by"@.len() == 7);
    reveal_strlit("dirs_first");
    assert("dirs_first"@.len() == 10);
    reveal_strlit("reverse");
    assert("reverse"@.len() == 7);
    reveal_strlit("exact");
    assert("exact"@.len() == 5);
    reveal_strlit("case_insensitive");
    assert("case_insensitive"@.len() == 16);
    reveal_strlit("quit_on_match");
    assert("quit_on_match"@.len() == 13);
    reveal_strlit("wrap_selection");
    assert("wrap_selection"@.len() == 14);
    reveal_strlit("icons");
    assert("icons"@.len() == 5);
    reveal_strlit("colors");
    assert("colors"@.len() == 6);
    reveal_strlit("bold_dirs");
    assert("bold_dirs"@.len() == 9);
    reveal_strlit("slash_dirs");
    assert("slash_dirs"@.len() == 10);
    reveal_strlit("show_cwd");
    assert("show_cwd"@.len() == 8);
    reveal_strlit("mouse");
    assert("mouse"@.len() == 5);
    reveal_strlit("fullscreen");
    assert("fullscreen"@.len() == 10);
    reveal_strlit("popup_percent");
    assert("popup_percent"@.len() == 13);
    reveal_strlit("editor");
    assert("editor"@.len() == 6);
    reveal_strlit("open_system");
    assert("open_system"@.len() == 11);
    reveal_strlit("home_scope");
    assert("home_scope"@.len() == 10);
    reveal_strlit("keep_open");
    assert("keep_open"@.len() == 9);
    assert("slash_dirs"@[0] != "dirs_first"@[0]);
    assert("slash_dirs"@[0] != "fullscreen"@[0]);
    assert("slash_dirs"@[0] != "home_scope"@[0]);
    reveal_strlit("true");
    assert("true"@.len() == 4);
    reveal_strlit("false");
    assert("false"@.len() == 5);
}

proof fn lemma_config_key_show_cwd(s: SettingsView, b: bool)
    ensures
        apply_config_spec(s, "show_cwd"@, bool_word(b)).display.show_cwd == b,
{
    reveal_strlit("show_hidden");
    assert("show_hidden"@.len() == 11);
    reveal_strlit("recursive");
    assert("recursive"@.len() == 9);
    reveal_strlit("ignore_gitignore");
    assert("ignore_gitignore"@.len() == 16);
    reveal_strlit("follow_links");
    assert("follow_links"@.len() == 12);
    reveal_strlit("show_all");
    assert("show_all"@.len() == 8);
    reveal_strlit("sort_by");
    assert("sort_by"@.len() == 7);
    reveal_strlit("dirs_first");
    assert("dirs_first"@.len() == 10);
    reveal_strlit("reverse");
    assert("reverse"@.len() == 7);
    reveal_strlit("exact");
    assert("exact"@.len() == 5);
    reveal_strlit("case_insensitive");
    assert("case_insensitive"@.len() == 16);
    reveal_strlit("quit_on_match");
    assert("quit_on_match"@.len() == 13);
    reveal_strlit("wrap_selection");
    assert("wrap_selection"@.len() == 14);
    reveal_strlit("icons");
    assert("icons"@.len() == 5);
    reveal_strlit("colors");
    assert("colors"@.len() == 6);
    reveal_strlit("bold_dirs");
    assert("bold_dirs"@.len() == 9);
    reveal_strlit("slash_dirs");
    assert("slash_dirs"@.len() == 10);
    reveal_strlit("show_cwd");
    assert("show_cwd"@.len() == 8);
    reveal_strlit("mouse");
    assert("mouse"@.len() == 5);
    reveal_strlit("fullscreen");
    assert("fullscreen"@.len() == 10);
    reveal_strlit("popup_percent");
    assert("popup_percent"@.len() == 13);
    reveal_strlit("editor");
    assert("editor"@.len() == 6);
    reveal_strlit("open_system");
    assert("open_system"@.len() == 11);
    reveal_strlit("home_scope");
    assert("home_scope"@.len() == 10);
    reveal_strlit("keep_open");
    assert("keep_open"@.len() == 9);
    assert("show_cwd"@[5] != "show_all"@[5]);
    reveal_strlit("true");
    assert("true"@.len() == 4);
    reveal_strlit("false");
    assert("false"@.len() == 5);
}

proof fn lemma_config_key_mouse(s: SettingsView, b: bool)
    ensures
        apply_config_spec(s, "mouse"@, bool_word(b)).display.mouse == b,
{
    reveal_strlit("show_hidden");
    assert("show_hidden"@.len() == 11);
    reveal_strlit("recursive");
    assert("recursive"@.len() == 9);
    reveal_strlit("ignore_gitignore");
    assert("ignore_gitignore"@.len() == 16);
    reveal_strlit("follow_links");
    assert("follow_links"@.len() == 12);
    reveal_strlit("show_all");
    assert("show_all"@.len() == 8);
    reveal_strlit("sort_by");
    assert("sort_by"@.len() == 7);
    reveal_strlit("dirs_first");
    assert("dirs_first"@.len() == 10);
    reveal_strlit("reverse");
    assert("reverse"@.len() == 7);
    reveal_strlit("exact");
    assert("exact"@.len() == 5);
    reveal_strlit("case_insensitive");
    assert("case_insensitive"@.len() == 16);
    reveal_strlit("quit_on_match");
    assert("quit_on_match"@.len() == 13);
    reveal_strlit("wrap_selection");
    assert("wrap_selection"@.len() == 14);
    reveal_strlit("icons");
    assert("icons"@.len() == 5);
    reveal_strlit("colors");
    assert("colors"@.len() == 6);
    reveal_strlit("bold_dirs");
    assert("bold_dirs"@.len() == 9);
    reveal_strlit("slash_dirs");
    assert("slash_dirs"@.len() == 10);
    reveal_strlit("show_cwd");
    assert("show_cwd"@.len() == 8);
    reveal_strlit("mouse");
    assert("mouse"@.len() == 5);
    reveal_strlit("fullscreen");
    assert("fullscreen"@.len() == 10);
    reveal_strlit("popup_percent");
    assert("popup_percent"@.len() == 13);
    reveal_strlit("editor");
    assert("editor"@.len() == 6);
    reveal_strlit("open_system");
    assert("open_system"@.len() == 11);
    reveal_strlit("home_scope");
    assert("home_scope"@.len() == 10);
    reveal_strlit("keep_open");
    assert("keep_open"@.len() == 9);
    assert("mouse"@[0] != "exact"@[0]);
    assert("mouse"@[0] != "icons"@[0]);
    reveal_strlit("true");
    assert("true"@.len() == 4);
    reveal_strlit("false");
    assert("false"@.len() == 5);
}

proof fn lemma_config_key_fullscreen(s: SettingsView, b: bool)
    ensures
        apply_config_spec(s, "fullscreen"@, bool_word(b)).display.fullscreen == b,
{
    reveal_strlit("show_hidden");
    assert("show_hidden"@.len() == 11);
    reveal_strlit("recursive");
    assert("recursive"@.len() == 9);
    reveal_strlit("ignore_gitignore");
    assert("ignore_gitignore"@.len() == 16);
    reveal_strlit("follow_links");
    assert("follow_links"@.len() == 12);
    reveal_strlit("show_all");
    assert("show_all"@.len() == 8);
    reveal_strlit("sort_by");
    assert("sort_by"@.len() == 7);
    reveal_strlit("dirs_first");
    assert("dirs_first"@.len() == 10);
    reveal_strlit("reverse");
    assert("reverse"@.len() == 7);
    reveal_strlit("exact");
    assert("exact"@.len() == 5);
    reveal_strlit("case_insensitive");
    assert("case_insensitive"@.len() == 16);
    reveal_strlit("quit_on_match");
    assert("quit_on_match"@.len() == 13);
    reveal_strlit("wrap_selection");
    assert("wrap_selection"@.len() == 14);
    reveal_strlit("icons");
    assert("icons"@.len() == 5);
    reveal_strlit("colors");
    assert("colors"@.len() == 6);
    reveal_strlit("bold_dirs");
    assert("bold_dirs"@.len() == 9);
    reveal_strlit("slash_dirs");
    assert("slash_dirs"@.len() == 10);
    reveal_strlit("show_cwd");
    assert("show_cwd"@.len() == 8);
    reveal_strlit("mouse");
    assert("mouse"@.len() == 5);
    reveal_strlit("fullscreen");
    assert("fullscreen"@.len() == 10);
    reveal_strlit("popup_percent");
    assert("popup_percent"@.len() == 13);
    reveal_strlit("editor");
    assert("editor"@.len() == 6);
    reveal_strlit("open_system");
    assert("open_system"@.len() == 11);
    reveal_strlit("home_scope");
    assert("home_scope"@.len() == 10);
    reveal_strlit("keep_open");
    assert("keep_open"@.len() == 9);
    assert("fullscreen"@[0] != "dirs_first"@[0]);
    assert("fullscreen"@[0] != "slash_dirs"@[0]);
    assert("fullscreen"@[0] != "home_scope"@[0]);
    reveal_strlit("true");
    assert("true"@.len() == 4);
    reveal_strlit("false");
    assert("false"@.len() == 5);
}

proof fn lemma_config_key_open_system(s: SettingsView, b: bool)
    ensures
        apply_config_spec(s, "open_system"@, bool_word(b)).launch.open_system == b,
{
    reveal_strlit("show_hidden");
    assert("show_hidden"@.len() == 11);
    reveal_strlit("recursive");
    assert("recursive"@.len() == 9);
    reveal_strlit("ignore_gitignore");
    assert("ignore_gitignore"@.len() == 16);
    reveal_strlit("follow_links");
    assert("follow_links"@.len() == 12);
    reveal_strlit("show_all");
    assert("show_all"@.len() == 8);
    reveal_strlit("sort_by");
    assert("sort_by"@.len() == 7);
    reveal_strlit("dirs_first");
    assert("dirs_first"@.len() == 10);
    reveal_strlit("reverse");
    assert("reverse"@.len() == 7);
    reveal_strlit("exact");
    assert("exact"@.len() == 5);
    reveal_strlit("case_insensitive");
    assert("case_insensitive"@.len() == 16);
    reveal_strlit("quit_on_match");
    assert("quit_on_match"@.len() == 13);
    reveal_strlit("wrap_selection");
    assert("wrap_selection"@.len() == 14);
    reveal_strlit("icons");
    assert("icons"@.len() == 5);
    reveal_strlit("colors");
    assert("colors"@.len() == 6);
    reveal_strlit("bold_dirs");
    assert("bold_dirs"@.len() == 9);
    reveal_strlit("slash_dirs");
    assert("slash_dirs"@.len() == 10);
    reveal_strlit("show_cwd");
    assert("show_cwd"@.len() == 8);
    reveal_strlit("mouse");
    assert("mouse"@.len() == 5);
    reveal_strlit("fullscreen");
    assert("fullscreen"@.len() == 10);
    reveal_strlit("popup_percent");
    assert("popup_percent"@.len() == 13);
    reveal_strlit("editor");
    assert("editor"@.len() == 6);
    reveal_strlit("open_system");
    assert("open_system"@.len() == 11);
    reveal_strlit("home_scope");
    assert("home_scope"@.len() == 10);
    reveal_strlit("keep_open");
    assert("keep_open"@.len() == 9);
    assert("open_system"@[0] != "show_hidden"@[0]);
    reveal_strlit("true");
    assert("true"@.len() == 4);
    reveal_strlit("false");
    assert("false"@.len() == 5);
}

proof fn lemma_config_key_home_scope(s: SettingsView, b: bool)
    ensures
        apply_config_spec(s, "home_scope"@, bool_word(b)).launch.home_scope == b,
{
    reveal_strlit("show_hidden");
    assert("show_hidden"@.len() == 11);
    reveal_strlit("recursive");
    assert("recursive"@.len() == 9);
    reveal_strlit("ignore_gitignore");
    assert("ignore_gitignore"@.len() == 16);
    reveal_strlit("follow_links");
    assert("follow_links"@.len() == 12);
    reveal_strlit("show_all");
    assert("show_all"@.len() == 8);
    reveal_strlit("sort_by");
    assert("sort_by"@.len() == 7);
    reveal_strlit("dirs_first");
    assert("dirs_first"@.len() == 10);
    reveal_strlit("reverse");
    assert("reverse"@.len() == 7);
    reveal_strlit("exact");
    assert("exact"@.len() == 5);
    reveal_strlit("case_insensitive");
    assert("case_insensitive"@.len() == 16);
    reveal_strlit("quit_on_match");
    assert("quit_on_match"@.len() == 13);
    reveal_strlit("wrap_selection");
    assert("wrap_selection"@.len() == 14);
    reveal_strlit("icons");
    assert("icons"@.len() == 5);
    reveal_strlit("colors");
    assert("colors"@.len() == 6);
    reveal_strlit("bold_dirs");
    assert("bold_dirs"@.len() == 9);
    reveal_strlit("slash_dirs");
    assert("slash_dirs"@.len() == 10);
    reveal_strlit("show_cwd");
    assert("show_cwd"@.len() == 8);
    reveal_strlit("mouse");
    assert("mouse"@.len() == 5);
    reveal_strlit("fullscreen");
    assert("fullscreen"@.len() == 10);
    reveal_strlit("popup_percent");
    assert("popup_percent"@.len() == 13);
    reveal_strlit("editor");
    assert("editor"@.len() == 6);
    reveal_strlit("open_system");
    assert("open_system"@.len() == 11);
    reveal_strlit("home_scope");
    assert("home_scope"@.len() == 10);
    reveal_strlit("keep_open");
    assert("keep_open"@.len() == 9);
    assert("home_scope"@[0] != "dirs_first"@[0]);
    assert("home_scope"@[0] != "slash_dirs"@[0]);
    assert("home_scope"@[0] != "fullscreen"@[0]);
    reveal_strlit("true");
    assert("true"@.len() == 4);
    reveal_strlit("false");
    assert("false"@.len() == 5);
}

proof fn lemma_config_key_keep_open(s: SettingsView, b: bool)
    ensures
        apply_config_spec(s, "keep_open"@, bool_word(b)).launch.keep_open == b,
{
    reveal_strlit("show_hidden");
    assert("show_hidden"@.len() == 11);
    reveal_strlit("recursive");
    assert("recursive"@.len() == 9);
    reveal_strlit("ignore_gitignore");
    assert("ignore_gitignore"@.len() == 16);
    reveal_strlit("follow_links");
    assert("follow_links"@.len() == 12);
    reveal_strlit("show_all");
    assert("show_all"@.len() == 8);
    reveal_strlit("sort_by");
    assert("sort_by"@.len() == 7);
    reveal_strlit("dirs_first");
    assert("dirs_first"@.len() == 10);
    reveal_strlit("reverse");
    assert("reverse"@.len() == 7);
    reveal_strlit("exact");
    assert("exact"@.len() == 5);
    reveal_strlit("case_insensitive");
    assert("case_insensitive"@.len() == 16);
    reveal_strlit("quit_on_match");
    assert("quit_on_match"@.len() == 13);
    reveal_strlit("wrap_selection");
    assert("wrap_selection"@.len() == 14);
    reveal_strlit("icons");
    assert("icons"@.len() == 5);
    reveal_strlit("colors");
    assert("colors"@.len() == 6);
    reveal_strlit("bold_dirs");
    assert("bold_dirs"@.len() == 9);
    reveal_strlit("slash_dirs");
    assert("slash_dirs"@.len() == 10);
    reveal_strlit("show_cwd");
    assert("show_cwd"@.len() == 8);
    reveal_strlit("mouse");
    assert("mouse"@.len() == 5);
    reveal_strlit("fullscreen");
    assert("fullscreen"@.len() == 10);
    reveal_strlit("popup_percent");
    assert("popup_percent"@.len() == 13);
    reveal_strlit("editor");
    assert("editor"@.len() == 6);
    reveal_strlit("open_system");
    assert("open_system"@.len() == 11);
    reveal_strlit("home_scope");
    assert("home_scope"@.len() == 10);
    reveal_strlit("keep_open");
    assert("keep_open"@.len() == 9);
    assert("keep_open"@[0] != "recursive"@[0]);
    assert("keep_open"@[0] != "bold_dirs"@[0]);
    reveal_strlit("true");
    assert("true"@.len() == 4);
    reveal_strlit("false");
    assert("false"@.len() == 5);
}

/// Every boolean config key sets the setting of the same name: `key = true` turns it
/// on and `key = false` turns it off, whatever the settings were.
pub proof fn law_config_bool_keys(s: SettingsView, b: bool)
    ensures
        apply_config_spec(s, "show_hidden"@, bool_word(b)).listing.show_hidden == b,
        apply_config_spec(s, "recursive"@, bool_word(b)).listing.recursive == b,
        apply_config_spec(s, "ignore_gitignore"@, bool_word(b)).listing.ignore_gitignore == b,
        apply_config_spec(s, "follow_links"@, bool_word(b)).listing.follow_links == b,
        apply_config_spec(s, "show_all"@, bool_word(b)).listing.show_all == b,
        apply_config_spec(s, "dirs_first"@, bool_word(b)).listing.dirs_first == b,
        apply_config_spec(s, "reverse"@, bool_word(b)).listing.reverse == b,
        apply_config_spec(s, "exact"@, bool_word(b)).search.exact == b,
        apply_config_spec(s, "case_insensitive"@, bool_word(b)).search.case_insensitive == b,
        apply_config_spec(s, "quit_on_match"@, bool_word(b)).search.quit_on_match == b,
        apply_config_spec(s, "wrap_selection"@, bool_word(b)).search.wrap_selection == b,
        apply_config_spec(s, "icons"@, bool_word(b)).display.icons == b,
        apply_config_spec(s, "colors"@, bool_word(b)).display.colors == b,
        apply_config_spec(s, "bold_dirs"@, bool_word(b)).display.bold_dirs == b,
        apply_config_spec(s, "slash_dirs"@, bool_word(b)).display.slash_dirs == b,
        apply_config_spec(s, "show_cwd"@, bool_word(b)).display.show_cwd == b,
        apply_config_spec(s, "mouse"@, bool_word(b)).display.mouse == b,
        apply_config_spec(s, "fullscreen"@, bool_word(b)).display.fullscreen == b,
        apply_config_spec(s, "open_system"@, bool_word(b)).launch.open_system == b,
        apply_config_spec(s, "home_scope"@, bool_word(b)).launch.home_scope == b,
        apply_config_spec(s, "keep_open"@, bool_word(b)).launch.keep_open == b,
{
    lemma_config_key_show_hidden(s, b);
    lemma_config_key_recursive(s, b);
    lemma_config_key_ignore_gitignore(s, b);
    lemma_config_key_follow_links(s, b);
    lemma_config_key_show_all(s, b);
    lemma_config_key_dirs_first(s, b);
    lemma_config_key_reverse(s, b);
    lemma_config_key_exact(s, b);
    lemma_config_key_case_insensitive(s, b);
    lemma_config_key_quit_on_match(s, b);
    lemma_config_key_wrap_selection(s, b);
    lemma_config_key_icons(s, b);
    lemma_config_key_colors(s, b);
    lemma_config_key_bold_dirs(s, b);
    lemma_config_key_slash_dirs(s, b);
    lemma_config_key_show_cwd(s, b);
    lemma_config_key_mouse(s, b);
    lemma_config_key_fullscreen(s, b);
    lemma_config_key_open_system(s, b);
    lemma_config_key_home_scope(s, b);
    lemma_config_key_keep_open(s, b);
}

/// `sort_by = name`, `size` or `mtime` sets the sort key of that name.
pub proof fn law_config_sort_key(s: SettingsView)
    ensures
        apply_config_spec(s, "sort_by"@, "name"@).listing.sort_by == SortKey::Name,
        apply_config_spec(s, "sort_by"@, "size"@).listing.sort_by == SortKey::Size,
        apply_config_spec(s, "sort_by"@, "mtime"@).listing.sort_by == SortKey::Mtime,
{
    reveal_strlit("show_hidden");
    assert("show_hidden"@.len() == 11);
    reveal_strlit("recursive");
    assert("recursive"@.len() == 9);
    reveal_strlit("ignore_gitignore");
    assert("ignore_gitignore"@.len() == 16);
    reveal_strlit("follow_links");
    assert("follow_links"@.len() == 12);
    reveal_strlit("show_all");
    assert("show_all"@.len() == 8);
    reveal_strlit("sort_by");
    assert("sort_by"@.len() == 7);
    reveal_strlit("name");
    assert("name"@.len() == 4);
    reveal_strlit("size");
    assert("name"@[0] != "size"@[0]);
    assert("size"@.len() == 4);
    reveal_strlit("mtime");
    assert("mtime"@.len() == 5);
}

/// Whether `a` is a meta flag or `--config` (which takes the next argument).
pub open spec fn is_meta_or_config(a: Seq<char>) -> bool {
    a == "--setup"@ || a == "--keybinds"@ || a == "--help"@ || a == "-h"@ || a == "--config"@
}

/// The first scan passes over arguments that are neither meta flags nor `--config`.
proof fn lemma_meta_scan_skips(argv: Seq<Seq<char>>, i: int, n: int)
    requires
        0 <= i <= n <= argv.len(),
        forall|j: int| i <= j < n ==> !is_meta_or_config(#[trigger] argv[j]),
    ensures
        meta_scan(argv, i) == meta_scan(argv, n),
    decreases n - i,
{
    if i < n {
        lemma_meta_scan_skips(argv, i + 1, n);
    }
}

/// `--help` and `-h` ask for the usage, `--setup` for the installer and `--keybinds`
/// for the key list, whatever the config and whatever follows, when no other meta flag
/// and no `--config` stands before them.
pub proof fn law_meta_flags(pre: Seq<Seq<char>>, rest: Seq<Seq<char>>, config: SettingsView)
    requires
        forall|j: int| 0 <= j < pre.len() ==> !is_meta_or_config(#[trigger] pre[j]),
    ensures
        parse_args_spec(pre + seq!["--help"@] + rest, config) == Ok::<ParsedView, Seq<char>>(ParsedView::Help),
        parse_args_spec(pre + seq!["-h"@] + rest, config) == Ok::<ParsedView, Seq<char>>(ParsedView::Help),
        parse_args_spec(pre + seq!["--setup"@] + rest, config) == Ok::<ParsedView, Seq<char>>(ParsedView::Setup),
        parse_args_spec(pre + seq!["--keybinds"@] + rest, config) == Ok::<ParsedView, Seq<char>>(
            ParsedView::Keybinds,
        ),
{
    reveal_strlit("--help");
    reveal_strlit("-h");
    reveal_strlit("--setup");
    reveal_strlit("--keybinds");
    assert("--help"@.len() == 6);
    assert("-h"@.len() == 2);
    assert("--setup"@.len() == 7);
    assert("--keybinds"@.len() == 10);
    let n = pre.len() as int;
    let a1 = pre + seq!["--help"@] + rest;
    let a2 = pre + seq!["-h"@] + rest;
    let a3 = pre + seq!["--setup"@] + rest;
    let a4 = pre + seq!["--keybinds"@] + rest;
    assert forall|j: int| 0 <= j < n implies !is_meta_or_config(#[trigger] a1[j]) by {
        assert(a1[j] == pre[j]);
    }
    assert forall|j: int| 0 <= j < n implies !is_meta_or_config(#[trigger] a2[j]) by {
        assert(a2[j] == pre[j]);
    }
    assert forall|j: int| 0 <= j < n implies !is_meta_or_config(#[trigger] a3[j]) by {
        assert(a3[j] == pre[j]);
    }
    assert forall|j: int| 0 <= j < n implies !is_meta_or_config(#[trigger] a4[j]) by {
        assert(a4[j] == pre[j]);
    }
    lemma_meta_scan_skips(a1, 0, n);
    lemma_meta_scan_skips(a2, 0, n);
    lemma_meta_scan_skips(a3, 0, n);
    lemma_meta_scan_skips(a4, 0, n);
    assert(a1[n] == "--help"@);
    assert(a2[n] == "-h"@);
    assert(a3[n] == "--setup"@);
    assert(a4[n] == "--keybinds"@);
}

/// A short-flag cluster that starts with neither `-` nor `h` is none of the long
/// arguments.
proof fn lemma_short_not_long(a: Seq<char>)
    requires
        a.len() >= 2,
        a[0] == '-',
        a[1] != '-',
        a[1] != 'h',
    ensures
        !is_meta_or_config(a),
        !crate::settings::is_meta(a),
        a != "--out-file"@,
        a != "--keep-open"@,
        !crate::text::has_prefix(a, "--"@),
        !crate::text::has_prefix(a, "--config="@),
        !crate::text::has_prefix(a, "--out-file="@),
{
    reveal(crate::text::has_prefix);
    reveal_strlit("--setup");
    reveal_strlit("--keybinds");
    reveal_strlit("--help");
    reveal_strlit("-h");
    reveal_strlit("--config");
    reveal_strlit("--out-file");
    reveal_strlit("--keep-open");
    reveal_strlit("--");
    reveal_strlit("--config=");
    reveal_strlit("--out-file=");
    if "--"@.is_prefix_of(a) {
        assert(a.subrange(0, 2)[1] == a[1]);
    }
    if "--config="@.is_prefix_of(a) {
        assert(a.subrange(0, 9)[1] == a[1]);
    }
    if "--out-file="@.is_prefix_of(a) {
        assert(a.subrange(0, 11)[1] == a[1]);
    }
    if a == "-h"@ {
        assert(a[1] == 'h');
    }
    if a == "--setup"@ || a == "--keybinds"@ || a == "--help"@ || a == "--config"@ {
        assert(a[1] == '-');
    }
}

/// `p` and `e` are not switches.
proof fn lemma_value_letters(s: SettingsView)
    ensures
        flag_update(s, 'p') is None,
        flag_update(s, 'e') is None,
{
    reveal(flag_update);
}

/// The value flags: `-p N` and `-pN` set the popup height to `N` clamped to
/// `10..=90`, and `-e CMD` and `-eCMD` set the editor to `CMD`; the value does not
/// change anything else that the command line would give.
#[verifier::rlimit(40)]
pub proof fn law_value_flags(config: SettingsView, v: Seq<char>, n: u16)
    requires
        !is_meta_or_config(v),
        v.len() > 0,
    ensures
        crate::text::parse_u16_spec(v) == Some(n) ==> {
            &&& parse_args_spec(seq!["-p"@, v], config) == Ok::<ParsedView, Seq<char>>(ParsedView::Run {
                settings: finish_settings(SettingsView {
                    display: Display { popup_percent: clamp(n as int, 10, 90) as u16, ..config.display },
                    ..config
                }),
                out_file: None,
            })
            &&& parse_args_spec(seq![seq!['-', 'p'] + v], config) == parse_args_spec(seq!["-p"@, v], config)
        },
        parse_args_spec(seq!["-e"@, v], config) == Ok::<ParsedView, Seq<char>>(ParsedView::Run {
            settings: finish_settings(SettingsView {
                launch: LaunchView { editor: Some(v), ..config.launch },
                ..config
            }),
            out_file: None,
        }),
        parse_args_spec(seq![seq!['-', 'e'] + v], config) == parse_args_spec(seq!["-e"@, v], config),
{
    reveal_strlit("-p");
    reveal_strlit("-e");
    lemma_value_letters(config);
    let p2 = seq!["-p"@, v];
    let e2 = seq!["-e"@, v];
    let pg = seq![seq!['-', 'p'] + v];
    let eg = seq![seq!['-', 'e'] + v];
    lemma_short_not_long("-p"@);
    lemma_short_not_long("-e"@);
    lemma_short_not_long(seq!['-', 'p'] + v);
    lemma_short_not_long(seq!['-', 'e'] + v);
    // First scans: no meta flag anywhere.
    assert(p2[1] == v && e2[1] == v);
    lemma_meta_scan_skips(p2, 0, 2);
    lemma_meta_scan_skips(e2, 0, 2);
    lemma_meta_scan_skips(pg, 0, 1);
    lemma_meta_scan_skips(eg, 0, 1);
    // Second scans.
    assert("-p"@.drop_first() =~= seq!['p']);
    assert("-e"@.drop_first() =~= seq!['e']);
    assert((seq!['-', 'p'] + v).drop_first() =~= seq!['p'] + v);
    assert((seq!['-', 'e'] + v).drop_first() =~= seq!['e'] + v);
    assert((seq!['p'] + v).skip(1) =~= v);
    assert((seq!['e'] + v).skip(1) =~= v);
    assert(begins_with("-p"@, '-') && begins_with("-e"@, '-'));
    assert(begins_with(seq!['-', 'p'] + v, '-') && begins_with(seq!['-', 'e'] + v, '-'));
    assert((seq!['p'] + v)[0] == 'p');
    assert((seq!['e'] + v)[0] == 'e');
    let te = SettingsView { launch: LaunchView { editor: Some(v), ..config.launch }, ..config };
    assert(crate::settings::value_end(e2, 0, seq!['e'], 0, config) == ClusterEnd::Next(te, true));
    assert(cluster_scan(e2, 0, seq!['e'], 0, config) == ClusterEnd::Next(te, true));
    assert(cli_scan(e2, 2, te, None) == Ok::<ParsedView, Seq<char>>(
        ParsedView::Run { settings: finish_settings(te), out_file: None },
    ));
    assert(cli_scan(e2, 0, config, None) == cli_scan(e2, 2, te, None));
    if crate::text::parse_u16_spec(v) == Some(n) {
        let tp = SettingsView {
            display: Display { popup_percent: clamp(n as int, 10, 90) as u16, ..config.display },
            ..config
        };
        assert(crate::settings::value_end(p2, 0, seq!['p'], 0, config) == ClusterEnd::Next(tp, true));
        assert(cluster_scan(p2, 0, seq!['p'], 0, config) == ClusterEnd::Next(tp, true));
        assert(cli_scan(p2, 0, config, None) == cli_scan(p2, 2, tp, None));
        assert(crate::settings::value_end(pg, 0, seq!['p'] + v, 0, config) == ClusterEnd::Next(tp, false));
        assert(cli_scan(pg, 0, config, None) == cli_scan(pg, 1, tp, None));
    }
    assert(crate::settings::value_end(eg, 0, seq!['e'] + v, 0, config) == ClusterEnd::Next(te, false));
    assert(cli_scan(eg, 0, config, None) == cli_scan(eg, 1, te, None));
}

/// `popup_percent = N` sets the popup height to `N` clamped to `10..=90`; a value that
/// is no number leaves it as it was.
pub proof fn law_config_popup_percent(s: SettingsView, v: Seq<char>)
    ensures
        apply_config_spec(s, "popup_percent"@, v).display.popup_percent == match crate::text::parse_u16_spec(v) {
            Some(n) => clamp(n as int, 10, 90) as u16,
            None => s.display.popup_percent,
        },
{
    reveal_strlit("show_hidden");
    assert("show_hidden"@.len() == 11);
    reveal_strlit("recursive");
    assert("recursive"@.len() == 9);
    reveal_strlit("ignore_gitignore");
    assert("ignore_gitignore"@.len() == 16);
    reveal_strlit("follow_links");
    assert("follow_links"@.len() == 12);
    reveal_strlit("show_all");
    assert("show_all"@.len() == 8);
    reveal_strlit("sort_by");
    assert("sort_by"@.len() == 7);
    reveal_strlit("dirs_first");
    assert("dirs_first"@.len() == 10);
    reveal_strlit("reverse");
    assert("reverse"@.len() == 7);
    reveal_strlit("exact");
    assert("exact"@.len() == 5);
    reveal_strlit("case_insensitive");
    assert("case_insensitive"@.len() == 16);
    reveal_strlit("quit_on_match");
    assert("quit_on_match"@.len() == 13);
    reveal_strlit("wrap_selection");
    assert("wrap_selection"@.len() == 14);
    reveal_strlit("icons");
    assert("icons"@.len() == 5);
    reveal_strlit("colors");
    assert("colors"@.len() == 6);
    reveal_strlit("bold_dirs");
    assert("bold_dirs"@.len() == 9);
    reveal_strlit("slash_dirs");
    assert("slash_dirs"@.len() == 10);
    reveal_strlit("show_cwd");
    assert("show_cwd"@.len() == 8);
    reveal_strlit("mouse");
    assert("mouse"@.len() == 5);
    reveal_strlit("fullscreen");
    assert("fullscreen"@.len() == 10);
    reveal_strlit("popup_percent");
    assert("popup_percent"@.len() == 13);
    reveal_strlit("editor");
    assert("editor"@.len() == 6);
    reveal_strlit("open_system");
    assert("open_system"@.len() == 11);
    reveal_strlit("home_scope");
    assert("home_scope"@.len() == 10);
    reveal_strlit("keep_open");
    assert("keep_open"@.len() == 9);
    assert("popup_percent"@[0] != "quit_on_match"@[0]);
}

/// `editor = CMD` sets the editor to `CMD`, when `CMD` is not quoted.
pub proof fn law_config_editor(s: SettingsView, v: Seq<char>)
    requires
        v.len() > 0,
        v[0] != '"',
        v.last() != '"',
    ensures
        apply_config_spec(s, "editor"@, v).launch.editor == Some(v),
{
    reveal_strlit("show_hidden");
    assert("show_hidden"@.len() == 11);
    reveal_strlit("recursive");
    assert("recursive"@.len() == 9);
    reveal_strlit("ignore_gitignore");
    assert("ignore_gitignore"@.len() == 16);
    reveal_strlit("follow_links");
    assert("follow_links"@.len() == 12);
    reveal_strlit("show_all");
    assert("show_all"@.len() == 8);
    reveal_strlit("sort_by");
    assert("sort_by"@.len() == 7);
    reveal_strlit("dirs_first");
    assert("dirs_first"@.len() == 10);
    reveal_strlit("reverse");
    assert("reverse"@.len() == 7);
    reveal_strlit("exact");
    assert("exact"@.len() == 5);
    reveal_strlit("case_insensitive");
    assert("case_insensitive"@.len() == 16);
    reveal_strlit("quit_on_match");
    assert("quit_on_match"@.len() == 13);
    reveal_strlit("wrap_selection");
    assert("wrap_selection"@.len() == 14);
    reveal_strlit("icons");
    assert("icons"@.len() == 5);
    reveal_strlit("colors");
    assert("colors"@.len() == 6);
    reveal_strlit("bold_dirs");
    assert("bold_dirs"@.len() == 9);
    reveal_strlit("slash_dirs");
    assert("slash_dirs"@.len() == 10);
    reveal_strlit("show_cwd");
    assert("show_cwd"@.len() == 8);
    reveal_strlit("mouse");
    assert("mouse"@.len() == 5);
    reveal_strlit("fullscreen");
    assert("fullscreen"@.len() == 10);
    reveal_strlit("popup_percent");
    assert("popup_percent"@.len() == 13);
    reveal_strlit("editor");
    assert("editor"@.len() == 6);
    reveal_strlit("open_system");
    assert("open_system"@.len() == 11);
    reveal_strlit("home_scope");
    assert("home_scope"@.len() == 10);
    reveal_strlit("keep_open");
    assert("keep_open"@.len() == 9);
    assert("editor"@[0] != "colors"@[0]);
}

} // verus!
