//! Directory entries and the order in which a listing shows them.
use vstd::prelude::*;
use crate::settings::SortKey;
use crate::text::{begins_with, chars_of, lex_less, lex_lt, lemma_lex_total, lemma_lex_trans, lowercase, to_lowercase};

verus! {

broadcast use vstd::seq_lib::group_to_multiset_ensures;

/// Whether an entry is a directory or something else.
#[derive(Debug, Clone, Copy, PartialEq, Eq, Structural)]
pub enum Kind {
    Dir,
    File,
}

/// One entry of a listing. `rel` is the name shown (relative to the listed directory),
/// `abs` the full path, `mtime` the modification time in nanoseconds since the Unix epoch
/// (negative before it), when known.
#[derive(Debug)]
pub struct Entry {
    pub rel: String,
    pub abs: String,
    pub kind: Kind,
    pub size: u64,
    pub mtime: Option<i128>,
}

/// The mathematical value of an `Entry`.
pub struct EntryView {
    pub rel: Seq<char>,
    pub abs: Seq<char>,
    pub kind: Kind,
    pub size: u64,
    pub mtime: Option<i128>,
}

impl View for Entry {
    type V = EntryView;

    open spec fn view(&self) -> EntryView {
        EntryView { rel: self.rel@, abs: self.abs@, kind: self.kind, size: self.size, mtime: self.mtime }
    }
}

impl Clone for Entry {
    fn clone(&self) -> (r: Self)
        ensures
            r@ == self@,
    {
        Entry {
            rel: self.rel.clone(),
            abs: self.abs.clone(),
            kind: self.kind,
            size: self.size,
            mtime: self.mtime,
        }
    }
}

/// The views of a sequence of entries.
pub open spec fn entries_view(v: Seq<Entry>) -> Seq<EntryView> {
    v.map_values(|e: Entry| e@)
}

/// What the order of a listing compares: the directory class (`false` sorts first), the
/// size, the modification time and the lower-cased name.
pub struct KeyView {
    pub class: bool,
    pub size: u64,
    pub mtime: Option<i128>,
    pub name: Seq<char>,
}

/// The comparison key of an entry. With `dirs_first`, directories get class `false` and so
/// come first; without it, they come last.
pub open spec fn key_of(e: EntryView, dirs_first: bool) -> KeyView {
    KeyView {
        class: if dirs_first {
            e.kind != Kind::Dir
        } else {
            e.kind == Kind::Dir
        },
        size: e.size,
        mtime: e.mtime,
        name: lowercase(e.rel),
    }
}

/// The order of `Option` (as std's `Ord for Option`): `None` first, then by value.
pub open spec fn opt_lt(a: Option<i128>, b: Option<i128>) -> bool {
    match (a, b) {
        (None, Some(_)) => true,
        (Some(x), Some(y)) => x < y,
        _ => false,
    }
}

/// Whether key `a` sorts strictly before key `b`: by class, then by the sort key (largest
/// size first; newest modification time first, unknown times last; or by name), then by
/// lower-cased name.
pub open spec fn key_lt(a: KeyView, b: KeyView, by: SortKey) -> bool {
    if a.class != b.class {
        !a.class
    } else {
        match by {
            SortKey::Name => lex_lt(a.name, b.name),
            SortKey::Size => if a.size != b.size {
                a.size > b.size
            } else {
                lex_lt(a.name, b.name)
            },
            SortKey::Mtime => if a.mtime != b.mtime {
                opt_lt(b.mtime, a.mtime)
            } else {
                lex_lt(a.name, b.name)
            },
        }
    }
}

/// Whether entry `a` sorts strictly before entry `b`.
pub open spec fn entry_lt(a: EntryView, b: EntryView, by: SortKey, dirs_first: bool) -> bool {
    key_lt(key_of(a, dirs_first), key_of(b, dirs_first), by)
}

/// `key_lt` is a strict weak order: irreflexive, transitive, and its complement is
/// transitive too.
pub proof fn lemma_key_order(a: KeyView, b: KeyView, c: KeyView, by: SortKey)
    ensures
        !key_lt(a, a, by),
        key_lt(a, b, by) && key_lt(b, c, by) ==> key_lt(a, c, by),
        !key_lt(b, a, by) && !key_lt(c, b, by) ==> !key_lt(c, a, by),
{
    lemma_lex_total(a.name, b.name);
    lemma_lex_total(b.name, c.name);
    lemma_lex_total(a.name, c.name);
    lemma_lex_total(b.name, a.name);
    lemma_lex_total(c.name, b.name);
    lemma_lex_total(c.name, a.name);
    if lex_lt(a.name, b.name) && lex_lt(b.name, c.name) {
        lemma_lex_trans(a.name, b.name, c.name);
    }
    if lex_lt(c.name, b.name) && lex_lt(b.name, a.name) {
        lemma_lex_trans(c.name, b.name, a.name);
    }
    if lex_lt(c.name, a.name) && lex_lt(a.name, b.name) {
        lemma_lex_trans(c.name, a.name, b.name);
    }
    if lex_lt(b.name, c.name) && lex_lt(c.name, a.name) {
        lemma_lex_trans(b.name, c.name, a.name);
    }
}

/// Position `x` comes before position `y` of the input in a stable sort: its entry sorts
/// strictly before, or the two are tied and `x` came first.
pub open spec fn idx_before(keys: Seq<KeyView>, x: int, y: int, by: SortKey) -> bool {
    key_lt(keys[x], keys[y], by) || (!key_lt(keys[y], keys[x], by) && x < y)
}

/// `idx_before` is a strict total order on positions.
pub proof fn lemma_before_order(keys: Seq<KeyView>, x: int, y: int, z: int, by: SortKey)
    ensures
        !idx_before(keys, x, x, by),
        x != y ==> idx_before(keys, x, y, by) || idx_before(keys, y, x, by),
        idx_before(keys, x, y, by) ==> !idx_before(keys, y, x, by),
        idx_before(keys, x, y, by) && idx_before(keys, y, z, by) ==> idx_before(keys, x, z, by),
        !idx_before(keys, y, x, by) && !idx_before(keys, z, y, by) ==> !idx_before(keys, z, x, by),
{
    lemma_key_order(keys[x], keys[y], keys[x], by);
    lemma_key_order(keys[y], keys[x], keys[y], by);
    lemma_key_order(keys[x], keys[y], keys[z], by);
    lemma_key_order(keys[z], keys[y], keys[x], by);
    lemma_key_order(keys[y], keys[x], keys[z], by);
    lemma_key_order(keys[x], keys[z], keys[y], by);
    lemma_key_order(keys[y], keys[z], keys[x], by);
    lemma_key_order(keys[z], keys[x], keys[y], by);
}

/// The positions `0..n`.
pub open spec fn iota(n: nat) -> Seq<usize> {
    Seq::new(n, |i: int| i as usize)
}

/// `ord` lists each position of `0..n` exactly once.
pub open spec fn is_permutation(ord: Seq<usize>, n: nat) -> bool {
    &&& ord.len() == n
    &&& forall|i: int| 0 <= i < ord.len() ==> #[trigger] ord[i] < n
    &&& ord.no_duplicates()
}

/// `out` is the input `input` sorted stably by `entry_lt` (or, with `rev`, that order
/// reversed): some permutation `ord` of the input's positions puts it in order.
pub open spec fn is_sorted_listing(
    input: Seq<EntryView>,
    out: Seq<EntryView>,
    by: SortKey,
    dirs_first: bool,
    rev: bool,
) -> bool {
    exists|ord: Seq<usize>|
        {
            &&& #[trigger] is_permutation(ord, input.len())
            &&& out.len() == input.len()
            &&& forall|i: int| 0 <= i < out.len() ==> out[i] == input[#[trigger] ord[i] as int]
            &&& forall|i: int, j: int|
                0 <= i < j < out.len() ==> if rev {
                    idx_before(input.map_values(|e| key_of(e, dirs_first)), ord[j] as int, ord[i] as int, by)
                } else {
                    idx_before(input.map_values(|e| key_of(e, dirs_first)), ord[i] as int, ord[j] as int, by)
                }
        }
}

/// The exec comparison key of an entry.
struct Key {
    class: bool,
    size: u64,
    mtime: Option<i128>,
    name: Vec<char>,
}

impl View for Key {
    type V = KeyView;

    closed spec fn view(&self) -> KeyView {
        KeyView { class: self.class, size: self.size, mtime: self.mtime, name: self.name@ }
    }
}

fn make_key(e: &Entry, dirs_first: bool) -> (k: Key)
    ensures
        k@ == key_of(e@, dirs_first),
{
    let lower = to_lowercase(e.rel.as_str());
    let name = chars_of(lower.as_str());
    let is_dir = e.kind == Kind::Dir;
    Key {
        class: if dirs_first {
            !is_dir
        } else {
            is_dir
        },
        size: e.size,
        mtime: e.mtime,
        name,
    }
}

fn opt_less(a: Option<i128>, b: Option<i128>) -> (r: bool)
    ensures
        r == opt_lt(a, b),
{
    match (a, b) {
        (None, Some(_)) => true,
        (Some(x), Some(y)) => x < y,
        _ => false,
    }
}

fn key_less(a: &Key, b: &Key, by: SortKey) -> (r: bool)
    ensures
        r == key_lt(a@, b@, by),
{
    if a.class != b.class {
        return !a.class;
    }
    match by {
        SortKey::Name => lex_less(&a.name, &b.name),
        SortKey::Size => if a.size != b.size {
            a.size > b.size
        } else {
            lex_less(&a.name, &b.name)
        },
        SortKey::Mtime => if a.mtime != b.mtime {
            opt_less(b.mtime, a.mtime)
        } else {
            lex_less(&a.name, &b.name)
        },
    }
}

/// The views of the keys.
spec fn keys_view(keys: Seq<Key>) -> Seq<KeyView> {
    keys.map_values(|k: Key| k@)
}

fn before(keys: &Vec<Key>, x: usize, y: usize, by: SortKey) -> (r: bool)
    requires
        x < keys.len(),
        y < keys.len(),
    ensures
        r == idx_before(keys_view(keys@), x as int, y as int, by),
{
    key_less(&keys[x], &keys[y], by) || (!key_less(&keys[y], &keys[x], by) && x < y)
}

/// Positions `lo..hi` of `ord` are in non-decreasing `idx_before` order.
spec fn sorted_range(kv: Seq<KeyView>, ord: Seq<usize>, lo: int, hi: int, by: SortKey) -> bool {
    forall|i: int, j: int|
        lo <= i < j < hi ==> !idx_before(kv, #[trigger] ord[j] as int, #[trigger] ord[i] as int, by)
}

spec fn in_bounds(ord: Seq<usize>, n: int) -> bool {
    forall|i: int| 0 <= i < ord.len() ==> #[trigger] ord[i] < n
}

/// Merges the sorted runs `ord[lo..mid]` and `ord[mid..hi]`.
fn merge(ord: &mut Vec<usize>, keys: &Vec<Key>, by: SortKey, lo: usize, mid: usize, hi: usize)
    requires
        lo <= mid <= hi <= old(ord).len(),
        in_bounds(old(ord)@, keys.len() as int),
        sorted_range(keys_view(keys@), old(ord)@, lo as int, mid as int, by),
        sorted_range(keys_view(keys@), old(ord)@, mid as int, hi as int, by),
    ensures
        final(ord).len() == old(ord).len(),
        in_bounds(final(ord)@, keys.len() as int),
        sorted_range(keys_view(keys@), final(ord)@, lo as int, hi as int, by),
        final(ord)@.subrange(lo as int, hi as int).to_multiset() =~= old(ord)@.subrange(
            lo as int,
            hi as int,
        ).to_multiset(),
        forall|k: int|
            0 <= k < old(ord).len() && !(lo <= k < hi) ==> #[trigger] final(ord)@[k] == old(
                ord,
            )@[k],
{
    let ghost kv = keys_view(keys@);
    let ghost l = ord@.subrange(lo as int, mid as int);
    let ghost r = ord@.subrange(mid as int, hi as int);
    let mut tmp: Vec<usize> = Vec::new();
    let mut i = lo;
    let mut j = mid;
    while i < mid || j < hi
        invariant
            lo <= i <= mid <= j <= hi <= ord.len(),
            kv == keys_view(keys@),
            l == ord@.subrange(lo as int, mid as int),
            r == ord@.subrange(mid as int, hi as int),
            in_bounds(ord@, keys.len() as int),
            in_bounds(tmp@, keys.len() as int),
            sorted_range(kv, ord@, lo as int, mid as int, by),
            sorted_range(kv, ord@, mid as int, hi as int, by),
            tmp.len() == (i - lo) + (j - mid),
            tmp@.to_multiset() =~= l.take(i - lo).to_multiset().add(r.take(j - mid).to_multiset()),
            sorted_range(kv, tmp@, 0, tmp.len() as int, by),
            tmp.len() > 0 && i < mid ==> !idx_before(kv, ord@[i as int] as int, tmp@.last() as int, by),
            tmp.len() > 0 && j < hi ==> !idx_before(kv, ord@[j as int] as int, tmp@.last() as int, by),
        decreases (mid - i) + (hi - j),
    {
        let take_left = if i < mid && j < hi {
            !before(keys, ord[j], ord[i], by)
        } else {
            i < mid
        };
        let ghost old_tmp = tmp@;
        if take_left {
            let x = ord[i];
            proof {
                if j < hi {
                    lemma_before_order(kv, ord@[j as int] as int, x as int, x as int, by);
                }
                assert forall|a: int| 0 <= a < old_tmp.len() implies !idx_before(
                    kv,
                    x as int,
                    #[trigger] old_tmp[a] as int,
                    by,
                ) by {
                    lemma_before_order(kv, old_tmp[a] as int, old_tmp.last() as int, x as int, by);
                }
                if i + 1 < mid {
                    lemma_before_order(kv, x as int, x as int, ord@[i + 1] as int, by);
                }
                if j < hi {
                    lemma_before_order(kv, x as int, x as int, ord@[j as int] as int, by);
                }
                assert(l.take(i + 1 - lo) =~= l.take(i - lo).push(x));
            }
            tmp.push(x);
            i += 1;
        } else {
            let x = ord[j];
            proof {
                if i < mid {
                    lemma_before_order(kv, x as int, ord@[i as int] as int, x as int, by);
                }
                assert forall|a: int| 0 <= a < old_tmp.len() implies !idx_before(
                    kv,
                    x as int,
                    #[trigger] old_tmp[a] as int,
                    by,
                ) by {
                    lemma_before_order(kv, old_tmp[a] as int, old_tmp.last() as int, x as int, by);
                }
                if j + 1 < hi {
                    lemma_before_order(kv, x as int, x as int, ord@[j + 1] as int, by);
                }
                assert(r.take(j + 1 - mid) =~= r.take(j - mid).push(x));
            }
            tmp.push(x);
            j += 1;
        }
    }
    assert(l.take(mid - lo) =~= l);
    assert(r.take(hi - mid) =~= r);
    proof {
        vstd::seq_lib::lemma_multiset_commutative(l, r);
        assert(l + r =~= ord@.subrange(lo as int, hi as int));
    }
    let ghost before_copy = ord@;
    let mut k: usize = 0;
    while k < tmp.len()
        invariant
            lo <= hi <= ord.len(),
            tmp.len() == hi - lo,
            ord.len() == before_copy.len(),
            in_bounds(ord@, keys.len() as int),
            in_bounds(tmp@, keys.len() as int),
            k <= tmp.len(),
            forall|a: int| 0 <= a < k ==> ord@[lo + a] == tmp@[a],
            forall|a: int| 0 <= a < ord.len() && !(lo <= a < lo + k) ==> #[trigger] ord@[a] == before_copy[a],
        decreases tmp.len() - k,
    {
        ord.set(lo + k, tmp[k]);
        k += 1;
    }
    assert(ord@.subrange(lo as int, hi as int) =~= tmp@);
    assert forall|a: int, b: int| lo <= a < b < hi implies !idx_before(
        kv,
        #[trigger] ord@[b] as int,
        #[trigger] ord@[a] as int,
        by,
    ) by {
        assert(ord@[a] == tmp@[a - lo] && ord@[b] == tmp@[b - lo]);
    }
}

/// Sorts positions `lo..hi` of `ord` by `idx_before` (merge sort).
fn merge_sort(ord: &mut Vec<usize>, keys: &Vec<Key>, by: SortKey, lo: usize, hi: usize)
    requires
        lo <= hi <= old(ord).len(),
        in_bounds(old(ord)@, keys.len() as int),
    ensures
        final(ord).len() == old(ord).len(),
        in_bounds(final(ord)@, keys.len() as int),
        sorted_range(keys_view(keys@), final(ord)@, lo as int, hi as int, by),
        final(ord)@.subrange(lo as int, hi as int).to_multiset() =~= old(ord)@.subrange(
            lo as int,
            hi as int,
        ).to_multiset(),
        forall|k: int|
            0 <= k < old(ord).len() && !(lo <= k < hi) ==> #[trigger] final(ord)@[k] == old(
                ord,
            )@[k],
    decreases hi - lo,
{
    if hi - lo <= 1 {
        return;
    }
    let mid = lo + (hi - lo) / 2;
    let ghost o0 = ord@;
    merge_sort(ord, keys, by, lo, mid);
    let ghost o1 = ord@;
    merge_sort(ord, keys, by, mid, hi);
    let ghost o2 = ord@;
    proof {
        assert(o1.subrange(mid as int, hi as int) =~= o0.subrange(mid as int, hi as int));
        assert(o2.subrange(lo as int, mid as int) =~= o1.subrange(lo as int, mid as int));
        assert forall|i: int, j: int| lo <= i < j < mid implies !idx_before(
            keys_view(keys@),
            #[trigger] o2[j] as int,
            #[trigger] o2[i] as int,
            by,
        ) by {
            assert(o2[j] == o1[j] && o2[i] == o1[i]);
        }
        vstd::seq_lib::lemma_multiset_commutative(
            o0.subrange(lo as int, mid as int),
            o0.subrange(mid as int, hi as int),
        );
        vstd::seq_lib::lemma_multiset_commutative(
            o2.subrange(lo as int, mid as int),
            o2.subrange(mid as int, hi as int),
        );
        assert(o0.subrange(lo as int, mid as int) + o0.subrange(mid as int, hi as int) =~= o0.subrange(
            lo as int,
            hi as int,
        ));
        assert(o2.subrange(lo as int, mid as int) + o2.subrange(mid as int, hi as int) =~= o2.subrange(
            lo as int,
            hi as int,
        ));
    }
    merge(ord, keys, by, lo, mid, hi);
}

/// Sorts `entries` stably (by class, then the sort key, then the lower-cased name), and
/// reverses the result when `reverse` is set.
pub fn sort(entries: &mut Vec<Entry>, sort_by: SortKey, dirs_first: bool, reverse: bool)
    ensures
        is_sorted_listing(
            entries_view(old(entries)@),
            entries_view(final(entries)@),
            sort_by,
            dirs_first,
            reverse,
        ),
{
    let n = entries.len();
    let ghost input = entries_view(entries@);
    let ghost kv_spec = input.map_values(|e| key_of(e, dirs_first));
    let mut keys: Vec<Key> = Vec::new();
    let mut ord: Vec<usize> = Vec::new();
    let mut i: usize = 0;
    while i < n
        invariant
            n == entries.len(),
            input == entries_view(entries@),
            kv_spec == input.map_values(|e| key_of(e, dirs_first)),
            i <= n,
            keys.len() == i,
            ord@ =~= iota(i as nat),
            forall|k: int| 0 <= k < i ==> #[trigger] keys@[k]@ == kv_spec[k],
        decreases n - i,
    {
        keys.push(make_key(&entries[i], dirs_first));
        ord.push(i);
        i += 1;
    }
    let ghost kv = keys_view(keys@);
    assert(kv =~= kv_spec);
    assert(in_bounds(ord@, keys.len() as int));
    let ghost o0 = ord@;
    merge_sort(&mut ord, &keys, sort_by, 0, n);
    proof {
        assert(ord@.subrange(0, n as int) =~= ord@);
        assert(o0.subrange(0, n as int) =~= iota(n as nat));
        iota(n as nat).lemma_multiset_has_no_duplicates();
        ord@.lemma_multiset_has_no_duplicates_conv();
        assert forall|a: int, b: int| 0 <= a < b < n implies idx_before(
            kv,
            #[trigger] ord@[a] as int,
            #[trigger] ord@[b] as int,
            sort_by,
        ) by {
            lemma_before_order(kv, ord@[a] as int, ord@[b] as int, ord@[b] as int, sort_by);
        }
    }
    let ghost sorted = ord@;
    let mut out: Vec<Entry> = Vec::new();
    let mut k: usize = 0;
    while k < n
        invariant
            n == entries.len(),
            input == entries_view(entries@),
            sorted.len() == n,
            in_bounds(sorted, n as int),
            sorted == ord@,
            k <= n,
            out.len() == k,
            forall|a: int|
                0 <= a < k ==> #[trigger] out@[a]@ == input[(if reverse {
                    sorted[n - 1 - a]
                } else {
                    sorted[a]
                }) as int],
        decreases n - k,
    {
        let src = if reverse {
            ord[n - 1 - k]
        } else {
            ord[k]
        };
        out.push(entries[src].clone());
        k += 1;
    }
    proof {
        let w = if reverse {
            sorted.reverse()
        } else {
            sorted
        };
        assert(is_permutation(w, input.len())) by {
            if reverse {
                assert forall|a: int, b: int| 0 <= a < w.len() && 0 <= b < w.len() && a != b implies w[a]
                    != w[b] by {
                    assert(w[a] == sorted[n - 1 - a] && w[b] == sorted[n - 1 - b]);
                }
                assert forall|a: int| 0 <= a < w.len() implies #[trigger] w[a] < n by {
                    assert(w[a] == sorted[n - 1 - a]);
                }
            }
        }
        assert forall|a: int| 0 <= a < out@.len() implies entries_view(out@)[a] == input[#[trigger] w[a] as int] by {
            if reverse {
                assert(w[a] == sorted[n - 1 - a]);
            }
        }
        assert forall|a: int, b: int| 0 <= a < b < out@.len() implies (if reverse {
            idx_before(kv, #[trigger] w[b] as int, #[trigger] w[a] as int, sort_by)
        } else {
            idx_before(kv, w[a] as int, w[b] as int, sort_by)
        }) by {
            if reverse {
                assert(w[a] == sorted[n - 1 - a] && w[b] == sorted[n - 1 - b]);
            }
        }
        assert(entries_view(out@).len() == input.len());
    }
    *entries = out;
}

/// Whether a listing shows the entry: dotfiles only with `show_hidden`.
pub open spec fn shown(e: EntryView, show_hidden: bool) -> bool {
    show_hidden || !begins_with(e.rel, '.')
}

/// The entries of `s` that a listing shows, in their order.
pub open spec fn visible_entries(s: Seq<EntryView>, show_hidden: bool) -> Seq<EntryView>
    decreases s.len(),
{
    if s.len() == 0 {
        Seq::empty()
    } else {
        let r = visible_entries(s.drop_last(), show_hidden);
        if shown(s.last(), show_hidden) {
            r.push(s.last())
        } else {
            r
        }
    }
}

/// One-level listing from the entries `raw` read from a directory: dotfiles are skipped
/// unless `show_hidden`, and the rest is sorted (directories first by default, then by
/// case-insensitive name).
pub fn browse(raw: Vec<Entry>, show_hidden: bool, sort_by: SortKey, dirs_first: bool, reverse: bool) -> (out: Vec<Entry>)
    ensures
        is_sorted_listing(
            visible_entries(entries_view(raw@), show_hidden),
            entries_view(out@),
            sort_by,
            dirs_first,
            reverse,
        ),
{
    let ghost rv = entries_view(raw@);
    let mut kept: Vec<Entry> = Vec::new();
    let mut i: usize = 0;
    while i < raw.len()
        invariant
            rv == entries_view(raw@),
            i <= raw.len(),
            entries_view(kept@) =~= visible_entries(rv.take(i as int), show_hidden),
        decreases raw.len() - i,
    {
        assert(rv.take(i + 1).drop_last() =~= rv.take(i as int));
        let e = &raw[i];
        let name = chars_of(e.rel.as_str());
        if show_hidden || !(name.len() > 0 && name[0] == '.') {
            kept.push(e.clone());
        }
        i += 1;
    }
    assert(rv.take(raw@.len() as int) =~= rv);
    sort(&mut kept, sort_by, dirs_first, reverse);
    kept
}

/// The most entries that a recursive listing holds.
pub const RECURSIVE_CAP: usize = 100_000;

/// Recursive listing from the entries `walked` that the walker found below a directory,
/// in the walker's order: the first `RECURSIVE_CAP` of them, sorted as `browse` sorts.
pub fn browse_recursive(walked: Vec<Entry>, sort_by: SortKey, dirs_first: bool, reverse: bool) -> (out: Vec<Entry>)
    ensures
        is_sorted_listing(
            entries_view(walked@).take(
                if walked@.len() > RECURSIVE_CAP { RECURSIVE_CAP as int } else { walked@.len() as int },
            ),
            entries_view(out@),
            sort_by,
            dirs_first,
            reverse,
        ),
{
    let ghost wv = entries_view(walked@);
    let mut kept: Vec<Entry> = Vec::new();
    let mut i: usize = 0;
    while i < walked.len() && i < RECURSIVE_CAP
        invariant
            wv == entries_view(walked@),
            i <= walked.len(),
            i <= RECURSIVE_CAP,
            entries_view(kept@) =~= wv.take(i as int),
        decreases walked.len() - i,
    {
        let ghost prev = kept@;
        kept.push(walked[i].clone());
        assert(entries_view(kept@) =~= entries_view(prev).push(walked@[i as int]@));
        assert(wv.take(i + 1) =~= wv.take(i as int).push(wv[i as int]));
        i += 1;
    }
    sort(&mut kept, sort_by, dirs_first, reverse);
    kept
}

/// Every entry that a listing shows passes `shown`.
proof fn lemma_visible_shown(s: Seq<EntryView>, show_hidden: bool)
    ensures
        forall|i: int| 0 <= i < visible_entries(s, show_hidden).len() ==> shown(
            #[trigger] visible_entries(s, show_hidden)[i],
            show_hidden,
        ),
    decreases s.len(),
{
    if s.len() > 0 {
        lemma_visible_shown(s.drop_last(), show_hidden);
        let r = visible_entries(s.drop_last(), show_hidden);
        assert forall|i: int| 0 <= i < visible_entries(s, show_hidden).len() implies shown(
            #[trigger] visible_entries(s, show_hidden)[i],
            show_hidden,
        ) by {
            if shown(s.last(), show_hidden) {
                assert(visible_entries(s, show_hidden) == r.push(s.last()));
                if i < r.len() {
                    assert(visible_entries(s, show_hidden)[i] == r[i]);
                }
            } else {
                assert(visible_entries(s, show_hidden) == r);
            }
        }
    }
}

/// Without `show_hidden`, a listing from `browse` holds no dotfile.
pub proof fn law_browse_hides_dotfiles(raw: Seq<EntryView>, out: Seq<EntryView>, sort_by: SortKey, dirs_first: bool, reverse: bool)
    requires
        is_sorted_listing(visible_entries(raw, false), out, sort_by, dirs_first, reverse),
    ensures
        forall|i: int| 0 <= i < out.len() ==> !begins_with(#[trigger] out[i].rel, '.'),
{
    let vis = visible_entries(raw, false);
    lemma_visible_shown(raw, false);
    let ord = choose|ord: Seq<usize>|
        {
            &&& #[trigger] is_permutation(ord, vis.len())
            &&& out.len() == vis.len()
            &&& forall|i: int| 0 <= i < out.len() ==> out[i] == vis[#[trigger] ord[i] as int]
            &&& forall|i: int, j: int|
                0 <= i < j < out.len() ==> if reverse {
                    idx_before(vis.map_values(|e| key_of(e, dirs_first)), ord[j] as int, ord[i] as int, sort_by)
                } else {
                    idx_before(vis.map_values(|e| key_of(e, dirs_first)), ord[i] as int, ord[j] as int, sort_by)
                }
        };
    assert forall|i: int| 0 <= i < out.len() implies !begins_with(#[trigger] out[i].rel, '.') by {
        assert(out[i] == vis[ord[i] as int]);
        assert(shown(vis[ord[i] as int], false));
    }
}

} // verus!
