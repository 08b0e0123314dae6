//! Installing the shell function twice leaves the rc file as installing it once.
use vstd::prelude::*;
use crate::setup::{
    append_block, block_between, marker_block, replace_block_spec, strip_newline, MARKER_END,
    MARKER_START,
};
use crate::text::{find_from, lemma_find_from_found, occurs_at};

verus! {

/// No occurrence of `pat` lies between `from` and the one that `find_from` reports.
proof fn lemma_find_from_first(s: Seq<char>, pat: Seq<char>, from: int, q: int)
    requires
        find_from(s, pat, from) matches Some(p) && from <= q < p,
    ensures
        !occurs_at(s, pat, q),
    decreases s.len() + 1 - from,
{
    if from < q {
        lemma_find_from_first(s, pat, from + 1, q);
    }
}

/// An occurrence at `p` with none between `from` and `p` is the one that `find_from`
/// reports.
proof fn lemma_find_from_is(s: Seq<char>, pat: Seq<char>, from: int, p: int)
    requires
        0 <= from <= p,
        occurs_at(s, pat, p),
        forall|q: int| from <= q < p ==> !occurs_at(s, pat, q),
    ensures
        find_from(s, pat, from) == Some(p),
    decreases p - from,
{
    if from < p {
        lemma_find_from_is(s, pat, from + 1, p);
    }
}

/// Occurrences inside the middle part of a concatenation are occurrences in that part.
proof fn lemma_occurs_in_middle(a: Seq<char>, r: Seq<char>, b: Seq<char>, pat: Seq<char>, q: int)
    requires
        0 <= q,
        q + pat.len() <= r.len(),
    ensures
        occurs_at(a + r + b, pat, a.len() + q) == occurs_at(r, pat, q),
{
    let y = a + r + b;
    assert(y.subrange(a.len() + q, a.len() + q + pat.len()) =~= r.subrange(q, q + pat.len()));
}

/// The opening marker holds `#` only in its first position and no newline.
proof fn lemma_start_marker_chars()
    ensures
        MARKER_START@.len() > 0,
        MARKER_START@[0] == '#',
        forall|k: int| 0 < k < MARKER_START@.len() ==> MARKER_START@[k] != '#',
        forall|k: int| 0 <= k < MARKER_START@.len() ==> MARKER_START@[k] != '\n',
{
    reveal_strlit("# >>> sicth wrapper v2 >>>");
}

/// A rendered block: it opens with the marker, its first closing marker ends right
/// before its final newline.
pub open spec fn is_rendered_block(r: Seq<char>) -> bool {
    &&& find_from(r, MARKER_START@, 0) == Some(0int)
    &&& find_from(r, MARKER_END@, 0) == Some(r.len() - 1 - MARKER_END@.len())
    &&& r.len() > 0
    &&& r.last() == '\n'
}

/// In `a + r + b`, where `a` holds no opening marker that could reach into `r`, the
/// installed block is `r` without its final newline.
proof fn lemma_block_of_concat(a: Seq<char>, r: Seq<char>, b: Seq<char>)
    requires
        is_rendered_block(r),
        forall|q: int| 0 <= q < a.len() ==> !occurs_at(a + r + b, MARKER_START@, q),
    ensures
        marker_block(a + r + b) == Some((a.len() as int, a.len() + r.len() - 1)),
{
    let y = a + r + b;
    let sm = MARKER_START@;
    let em = MARKER_END@;
    lemma_find_from_found(r, sm, 0);
    lemma_find_from_found(r, em, 0);
    lemma_occurs_in_middle(a, r, b, sm, 0);
    lemma_find_from_is(y, sm, 0, a.len() as int);
    let k = r.len() - 1 - em.len();
    lemma_occurs_in_middle(a, r, b, em, k);
    assert forall|q: int| a.len() <= q < a.len() + k implies !occurs_at(y, em, q) by {
        lemma_find_from_first(r, em, 0, q - a.len());
        lemma_occurs_in_middle(a, r, b, em, q - a.len());
    }
    lemma_find_from_is(y, em, a.len() as int, a.len() + k);
    assert(block_between(y, sm, em) == Some((a.len() as int, a.len() + r.len() - 1)));
}

/// No opening marker starts in `a` and reaches into `r`, when `r` starts with the marker.
proof fn lemma_no_straddle(a: Seq<char>, r: Seq<char>, b: Seq<char>, q: int)
    requires
        is_rendered_block(r),
        0 <= q < a.len(),
        a.len() < q + MARKER_START@.len(),
    ensures
        !occurs_at(a + r + b, MARKER_START@, q),
{
    let y = a + r + b;
    lemma_start_marker_chars();
    lemma_find_from_found(r, MARKER_START@, 0);
    if occurs_at(y, MARKER_START@, q) {
        let k = a.len() - q;
        assert(y.subrange(q, q + MARKER_START@.len())[k] == MARKER_START@[k]);
        assert(r.subrange(0, MARKER_START@.len() as int)[0] == MARKER_START@[0]);
        assert(y[a.len() as int] == r[0]);
    }
}

/// Installing the rendered block `r` a second time changes nothing: the block that the
/// first install wrote is found again and replaced by itself.
pub proof fn law_install_is_idempotent(x: Seq<char>, r: Seq<char>)
    requires
        is_rendered_block(r),
    ensures
        replace_block_spec(replace_block_spec(x, r), r) == replace_block_spec(x, r),
{
    let sm = MARKER_START@;
    lemma_start_marker_chars();
    let y = replace_block_spec(x, r);
    match marker_block(x) {
        None => {
            let a = if x.len() > 0 && x.last() != '\n' { x + seq!['\n'] } else { x };
            assert(y =~= a + r + Seq::<char>::empty());
            // `x` holds no opening marker, and none can reach across the newline.
            assert forall|q: int| 0 <= q < a.len() implies !occurs_at(a + r + Seq::<char>::empty(), sm, q) by {
                if q + sm.len() <= a.len() {
                    if q + sm.len() <= x.len() {
                        assert(find_from(x, sm, 0) is None);
                        lemma_find_from_none(x, sm, 0, q);
                        lemma_occurs_prefix(x, a + r + Seq::<char>::empty(), sm, q);
                    } else {
                        // The occurrence would hold the final newline of `a`.
                        let z = a + r + Seq::<char>::empty();
                        if occurs_at(z, sm, q) {
                            assert(z.subrange(q, q + sm.len())[a.len() - 1 - q] == sm[a.len() - 1 - q]);
                            assert(z[a.len() - 1] == '\n');
                        }
                    }
                } else {
                    lemma_no_straddle(a, r, Seq::<char>::empty(), q);
                }
            }
            lemma_block_of_concat(a, r, Seq::<char>::empty());
            let z = a + r + Seq::<char>::empty();
            assert(z.skip(a.len() + r.len() - 1) =~= seq!['\n']);
            assert(z.take(a.len() as int) =~= a);
        },
        Some((start, end)) => {
            crate::setup::lemma_marker_block_in_range(x);
            let a = x.take(start);
            let b = if end < x.len() { strip_newline(x.skip(end)) } else { Seq::<char>::empty() };
            assert(y =~= a + r + b);
            assert forall|q: int| 0 <= q < a.len() implies !occurs_at(a + r + b, sm, q) by {
                if q + sm.len() <= a.len() {
                    lemma_first_start_before(x, start, q);
                    lemma_occurs_prefix(a, a + r + b, sm, q);
                    lemma_occurs_prefix(a, x, sm, q);
                } else {
                    lemma_no_straddle(a, r, b, q);
                }
            }
            lemma_block_of_concat(a, r, b);
            let z = a + r + b;
            assert(z.skip(a.len() + r.len() - 1) =~= seq!['\n'] + b);
            assert(strip_newline(seq!['\n'] + b) =~= b);
            assert(z.take(a.len() as int) =~= a);
        },
    }
}

/// `find_from` finds nothing only where nothing occurs.
proof fn lemma_find_from_none(s: Seq<char>, pat: Seq<char>, from: int, q: int)
    requires
        find_from(s, pat, from) is None,
        0 <= from <= q,
    ensures
        !occurs_at(s, pat, q),
    decreases q - from,
{
    if from < q && !(from + pat.len() > s.len()) {
        lemma_find_from_none(s, pat, from + 1, q);
    }
}

/// An occurrence that lies inside a prefix is one in the whole.
proof fn lemma_occurs_prefix(a: Seq<char>, y: Seq<char>, pat: Seq<char>, q: int)
    requires
        a.is_prefix_of(y),
        0 <= q,
        q + pat.len() <= a.len(),
    ensures
        occurs_at(y, pat, q) == occurs_at(a, pat, q),
{
    assert(y.subrange(q, q + pat.len()) =~= a.subrange(q, q + pat.len()));
}

/// Before the installed block, no opening marker of the current kind occurs.
proof fn lemma_first_start_before(x: Seq<char>, start: int, q: int)
    requires
        marker_block(x) matches Some((s, e)) && s == start,
        0 <= q < start,
    ensures
        !occurs_at(x, MARKER_START@, q),
{
    match find_from(x, MARKER_START@, 0) {
        Some(p) => {
            lemma_find_from_first(x, MARKER_START@, 0, q);
        },
        None => {
            lemma_find_from_none(x, MARKER_START@, 0, q);
        },
    }
}

/// The closing marker holds `#` only in its first position, and differs from the
/// opening marker in its third character.
proof fn lemma_end_marker_chars()
    ensures
        MARKER_END@.len() == MARKER_START@.len(),
        MARKER_END@[0] == '#',
        forall|k: int| 0 < k < MARKER_END@.len() ==> MARKER_END@[k] != '#',
        MARKER_END@[2] != MARKER_START@[2],
{
    reveal_strlit("# <<< sicth wrapper v2 <<<");
    reveal_strlit("# >>> sicth wrapper v2 >>>");
}

/// A block made of the opening marker, a text without the closing marker, the closing
/// marker and a newline (the form that the templates render to) is a rendered block.
pub proof fn lemma_template_block(body: Seq<char>)
    requires
        find_from(body, MARKER_END@, 0) is None,
    ensures
        is_rendered_block(MARKER_START@ + body + MARKER_END@ + seq!['\n']),
{
    let sm = MARKER_START@;
    let em = MARKER_END@;
    let nl = seq!['\n'];
    let r = sm + body + em + nl;
    lemma_start_marker_chars();
    lemma_end_marker_chars();
    let p: int = (sm.len() + body.len()) as int;
    // The opening marker is at the start.
    assert(r.subrange(0, sm.len() as int) =~= sm);
    lemma_find_from_is(r, sm, 0, 0);
    // The closing marker is right before the newline, and nowhere earlier.
    assert(r.subrange(p, p + em.len()) =~= em);
    assert forall|q: int| 0 <= q < p implies !occurs_at(r, em, q) by {
        if occurs_at(r, em, q) {
            let w = r.subrange(q, q + em.len());
            if q == 0 {
                assert(w[2] == sm[2]);
            } else if q < sm.len() {
                assert(w[0] == sm[q]);
            } else if q + em.len() <= p {
                lemma_occurs_in_middle(sm, body, em + nl, em, q - sm.len());
                assert(sm + body + (em + nl) =~= r);
                lemma_find_from_none(body, em, 0, q - sm.len());
            } else {
                assert(w[p - q] == r[p]);
                assert(r[p] == em[0]);
            }
        }
    }
    lemma_find_from_is(r, em, 0, p);
}

/// Installing a block of the form that the templates render to a second time changes
/// nothing.
pub proof fn law_install_template_is_idempotent(x: Seq<char>, body: Seq<char>)
    requires
        find_from(body, MARKER_END@, 0) is None,
    ensures
        ({
            let r = MARKER_START@ + body + MARKER_END@ + seq!['\n'];
            replace_block_spec(replace_block_spec(x, r), r) == replace_block_spec(x, r)
        }),
{
    lemma_template_block(body);
    law_install_is_idempotent(x, MARKER_START@ + body + MARKER_END@ + seq!['\n']);
}

} // verus!
