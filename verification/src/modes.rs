//! The order of capture modes, and lists that hold each mode once.

use vstd::prelude::*;

use crate::camera::{caps_view, CameraCap, CameraCapView};
use crate::lemmas::lemma_push_contains;
use crate::text::{is_less, opt_text, same_opt, text_less};
use crate::text::{text_less_irreflexive, text_less_total, text_less_transitive};

verus! {

/// Whether the format `a` comes before the format `b`: no format first, then by
/// text.
pub open spec fn format_less(a: Option<Seq<char>>, b: Option<Seq<char>>) -> bool {
    match (a, b) {
        (_, None) => false,
        (None, Some(_)) => true,
        (Some(x), Some(y)) => text_less(x, y),
    }
}

/// Whether the mode `a` is listed before the mode `b`: the wider first, then the
/// higher, the faster, the one of the later format.
pub open spec fn ranks_before(a: CameraCapView, b: CameraCapView) -> bool {
    if a.width != b.width {
        a.width > b.width
    } else if a.height != b.height {
        a.height > b.height
    } else if a.framerate != b.framerate {
        a.framerate > b.framerate
    } else {
        format_less(b.format, a.format)
    }
}

/// The position in `s` of the first mode equal to `c`.
pub open spec fn first_position(s: Seq<CameraCapView>, c: CameraCapView) -> int
    decreases s.len(),
{
    if s.len() == 0 || s[0] == c {
        0
    } else {
        1 + first_position(s.skip(1), c)
    }
}

/// Whether `after` lists each mode of `before` once, in the order of
/// `ranks_before`, modes of the same rank in the order in which they first occur.
pub open spec fn is_normalized(before: Seq<CameraCapView>, after: Seq<CameraCapView>) -> bool {
    &&& after.no_duplicates()
    &&& forall|c: CameraCapView| before.contains(c) <==> #[trigger] after.contains(c)
    &&& forall|i: int, j: int|
        0 <= i < j < after.len() ==> listed_in_order(
            before,
            #[trigger] after[i],
            #[trigger] after[j],
        )
}

/// Whether `a` may stand before `b` in the normalized list of `before`.
pub open spec fn listed_in_order(
    before: Seq<CameraCapView>,
    a: CameraCapView,
    b: CameraCapView,
) -> bool {
    ||| ranks_before(a, b)
    ||| !ranks_before(b, a) && first_position(before, a) < first_position(before, b)
}

proof fn lemma_format_order(
    a: Option<Seq<char>>,
    b: Option<Seq<char>>,
    c: Option<Seq<char>>,
)
    ensures
        !format_less(a, a),
        format_less(a, b) && format_less(b, c) ==> format_less(a, c),
        format_less(a, b) ==> format_less(a, c) || format_less(c, b),
{
    if let Some(x) = a {
        text_less_irreflexive(x);
    }
    if a is Some && b is Some && c is Some {
        let (x, y, z) = (a->0, b->0, c->0);
        if text_less(x, y) && text_less(y, z) {
            text_less_transitive(x, y, z);
        }
        if text_less(x, y) {
            text_less_total(x, z);
            if text_less(z, x) {
                text_less_transitive(z, x, y);
            }
        }
    }
}

/// `ranks_before` is a strict order, and of two modes that it tells apart one ranks
/// before, the other after, any third.
proof fn lemma_rank_order(a: CameraCapView, b: CameraCapView, c: CameraCapView)
    ensures
        !ranks_before(a, a),
        ranks_before(a, b) && ranks_before(b, c) ==> ranks_before(a, c),
        ranks_before(a, b) ==> ranks_before(a, c) || ranks_before(c, b),
        ranks_before(a, b) ==> !ranks_before(b, a),
{
    lemma_format_order(a.format, b.format, c.format);
    lemma_format_order(c.format, b.format, a.format);
    lemma_format_order(b.format, a.format, c.format);
    lemma_format_order(a.format, b.format, a.format);
    lemma_format_order(b.format, a.format, b.format);
}

proof fn lemma_first_position(s: Seq<CameraCapView>, x: CameraCapView, c: CameraCapView)
    ensures
        0 <= first_position(s, c) <= s.len(),
        s.contains(c) ==> first_position(s, c) < s.len(),
        !s.contains(c) ==> first_position(s, c) == s.len(),
        s.contains(c) ==> first_position(s.push(x), c) == first_position(s, c),
        !s.contains(c) && x == c ==> first_position(s.push(x), c) == s.len(),
    decreases s.len(),
{
    if s.len() == 0 {
        reveal_with_fuel(first_position, 2);
    } else {
        let t = s.skip(1);
        lemma_first_position(t, x, c);
        assert(s.push(x).skip(1) =~= t.push(x));
        if s.contains(c) && s[0] != c {
            let k = choose|k: int| 0 <= k < s.len() && s[k] == c;
            assert(t[k - 1] == c);
        }
    }
}

proof fn lemma_normalized_known(
    before: Seq<CameraCapView>,
    after: Seq<CameraCapView>,
    c: CameraCapView,
)
    requires
        is_normalized(before, after),
        after.contains(c),
    ensures
        is_normalized(before.push(c), after),
{
    let grown = before.push(c);
    assert forall|d: CameraCapView| grown.contains(d) <==> #[trigger] after.contains(d) by {
        lemma_push_contains(before, c, d);
    }
    assert forall|i: int, j: int| 0 <= i < j < after.len() implies listed_in_order(
        grown,
        #[trigger] after[i],
        #[trigger] after[j],
    ) by {
        assert(after.contains(after[i]) && after.contains(after[j]));
        lemma_first_position(before, c, after[i]);
        lemma_first_position(before, c, after[j]);
    }
}

proof fn lemma_normalized_insert(
    before: Seq<CameraCapView>,
    after: Seq<CameraCapView>,
    c: CameraCapView,
    p: int,
)
    requires
        is_normalized(before, after),
        !after.contains(c),
        0 <= p <= after.len(),
        forall|i: int| 0 <= i < p ==> !ranks_before(c, #[trigger] after[i]),
        p < after.len() ==> ranks_before(c, after[p]),
    ensures
        is_normalized(before.push(c), after.insert(p, c)),
{
    let grown = before.push(c);
    let out = after.insert(p, c);
    assert forall|i: int| 0 <= i < out.len() implies #[trigger] out[i] == (if i < p {
        after[i]
    } else if i == p {
        c
    } else {
        after[i - 1]
    }) by {}
    assert forall|d: CameraCapView| grown.contains(d) <==> #[trigger] out.contains(d) by {
        lemma_push_contains(before, c, d);
        if after.contains(d) {
            let k = choose|k: int| 0 <= k < after.len() && after[k] == d;
            assert(out[if k < p { k } else { k + 1 }] == d);
        }
        if d == c {
            assert(out[p] == d);
        }
    }
    assert(out.no_duplicates());
    assert forall|i: int, j: int| 0 <= i < j < out.len() implies listed_in_order(
        grown,
        #[trigger] out[i],
        #[trigger] out[j],
    ) by {
        lemma_first_position(before, c, c);
        if i == p {
            lemma_rank_order(c, after[p], after[j - 1]);
            if j - 1 > p {
                lemma_rank_order(after[p], after[j - 1], c);
            }
        } else {
            let a = if i < p { i } else { i - 1 };
            assert(after.contains(after[a]));
            lemma_first_position(before, c, after[a]);
            if j != p {
                let b = if j < p { j } else { j - 1 };
                assert(after.contains(after[b]));
                lemma_first_position(before, c, after[b]);
            }
        }
    }
}

/// Two normalized lists of the same modes are the same list.
pub proof fn law_normalized_list_is_unique(
    before: Seq<CameraCapView>,
    x: Seq<CameraCapView>,
    y: Seq<CameraCapView>,
)
    requires
        is_normalized(before, x),
        is_normalized(before, y),
    ensures
        x == y,
{
    lemma_ordered_unique(before, x, y);
}

proof fn lemma_ordered_unique(
    before: Seq<CameraCapView>,
    x: Seq<CameraCapView>,
    y: Seq<CameraCapView>,
)
    requires
        x.no_duplicates(),
        y.no_duplicates(),
        forall|c: CameraCapView| x.contains(c) <==> #[trigger] y.contains(c),
        forall|i: int, j: int|
            0 <= i < j < x.len() ==> listed_in_order(before, #[trigger] x[i], #[trigger] x[j]),
        forall|i: int, j: int|
            0 <= i < j < y.len() ==> listed_in_order(before, #[trigger] y[i], #[trigger] y[j]),
    ensures
        x == y,
    decreases x.len(),
{
    if x.len() == 0 {
        if y.len() > 0 {
            assert(y.contains(y[0]));
        }
    } else {
        assert(y.contains(x[0]));
        let a = x.last();
        let b = y.last();
        assert(x.contains(a) && y.contains(b));
        assert(y.contains(a) && x.contains(b));
        if a != b {
            lemma_rank_order(a, b, a);
            lemma_rank_order(b, a, b);
        }
        let xs = x.drop_last();
        let ys = y.drop_last();
        assert forall|c: CameraCapView| xs.contains(c) <==> #[trigger] ys.contains(c) by {
            assert(x.contains(c) <==> y.contains(c));
            if xs.contains(c) {
                let m = choose|m: int| 0 <= m < y.len() && y[m] == c;
                assert(ys[m] == c);
            }
            if ys.contains(c) {
                let m = choose|m: int| 0 <= m < x.len() && x[m] == c;
                assert(xs[m] == c);
            }
        }
        lemma_ordered_unique(before, xs, ys);
        assert(x =~= xs.push(a));
    }
}

/// No listed mode is wider than one that is listed before it; of two that are
/// equally wide none is higher, and of two of the same size none is faster.
pub proof fn law_larger_and_faster_modes_come_first(
    before: Seq<CameraCapView>,
    after: Seq<CameraCapView>,
    i: int,
    j: int,
)
    requires
        is_normalized(before, after),
        0 <= i < j < after.len(),
    ensures
        after[j].width <= after[i].width,
        after[j].width == after[i].width ==> after[j].height <= after[i].height,
        after[j].width == after[i].width && after[j].height == after[i].height
            ==> after[j].framerate <= after[i].framerate,
{
}

/// Normalizing a normalized list changes nothing.
pub proof fn law_normalizing_is_idempotent(
    before: Seq<CameraCapView>,
    x: Seq<CameraCapView>,
    y: Seq<CameraCapView>,
)
    requires
        is_normalized(before, x),
        is_normalized(x, y),
    ensures
        y == x,
{
    assert forall|i: int| 0 <= i < x.len() implies first_position(x, #[trigger] x[i]) == i by {
        lemma_own_position(x, i);
    }
    law_normalized_list_is_unique(x, x, y);
}

proof fn lemma_own_position(x: Seq<CameraCapView>, i: int)
    requires
        x.no_duplicates(),
        0 <= i < x.len(),
    ensures
        first_position(x, x[i]) == i,
    decreases x.len(),
{
    if i > 0 {
        let t = x.skip(1);
        lemma_own_position(t, i - 1);
    }
}

/// Whether two modes hold the same.
fn same_cap(a: &CameraCap, b: &CameraCap) -> (r: bool)
    ensures
        r == (a@ == b@),
{
    a.width == b.width && a.height == b.height && a.framerate == b.framerate && a.media == b.media
        && same_opt(&a.format, &b.format)
}

fn format_is_less(a: &Option<String>, b: &Option<String>) -> (r: bool)
    ensures
        r == format_less(opt_text(*a), opt_text(*b)),
{
    match (a, b) {
        (_, None) => false,
        (None, Some(_)) => true,
        (Some(x), Some(y)) => is_less(x.as_str(), y.as_str()),
    }
}

fn comes_before(a: &CameraCap, b: &CameraCap) -> (r: bool)
    ensures
        r == ranks_before(a@, b@),
{
    if a.width != b.width {
        a.width > b.width
    } else if a.height != b.height {
        a.height > b.height
    } else if a.framerate != b.framerate {
        a.framerate > b.framerate
    } else {
        format_is_less(&b.format, &a.format)
    }
}

/// Adds `c` to a normalized list of modes.
fn insert_cap(out: &mut Vec<CameraCap>, c: CameraCap, Ghost(before): Ghost<Seq<CameraCapView>>)
    requires
        is_normalized(before, caps_view(old(out)@)),
    ensures
        is_normalized(before.push(c@), caps_view(final(out)@)),
{
    let ghost after = caps_view(out@);
    for i in 0..out.len()
        invariant
            after == caps_view(out@),
            is_normalized(before, after),
            forall|j: int| 0 <= j < i ==> #[trigger] after[j] != c@,
    {
        if same_cap(&out[i], &c) {
            proof {
                assert(after[i as int] == c@);
                lemma_normalized_known(before, after, c@);
            }
            return;
        }
    }
    let mut p: usize = 0;
    while p < out.len() && !comes_before(&c, &out[p])
        invariant
            after == caps_view(out@),
            p <= out@.len(),
            forall|i: int| 0 <= i < p ==> !ranks_before(c@, #[trigger] after[i]),
        decreases out@.len() - p,
    {
        p = p + 1;
    }
    proof {
        lemma_normalized_insert(before, after, c@, p as int);
    }
    let ghost cv = c@;
    out.insert(p, c);
    assert(caps_view(out@) =~= after.insert(p as int, cv));
}

/// Lists each mode once, the highest resolution first.
pub fn normalize_caps(caps: &mut Vec<CameraCap>)
    ensures
        is_normalized(caps_view(old(caps)@), caps_view(final(caps)@)),
{
    let mut out: Vec<CameraCap> = Vec::new();
    let ghost all = caps_view(caps@);
    for i in 0..caps.len()
        invariant
            all == caps_view(caps@),
            is_normalized(all.take(i as int), caps_view(out@)),
    {
        insert_cap(&mut out, caps[i].clone(), Ghost(all.take(i as int)));
        assert(all.take(i + 1) =~= all.take(i as int).push(all[i as int]));
    }
    assert(all.take(all.len() as int) =~= all);
    *caps = out;
}

/// The normalized list holds the modes that were given, each once and no other; of two
/// modes the wider stands first, then the higher, then the faster, then the one whose
/// format comes later, one without a format last; and of two that this does not tell
/// apart, the one that was given first.
pub proof fn law_normalized_list_is_sorted_and_complete(
    before: Seq<CameraCapView>,
    after: Seq<CameraCapView>,
)
    requires
        is_normalized(before, after),
    ensures
        forall|c: CameraCapView| #[trigger] before.contains(c) <==> after.contains(c),
        forall|i: int, j: int|
            0 <= i < j < after.len() ==> #[trigger] after[i] != #[trigger] after[j],
        forall|i: int, j: int|
            0 <= i < j < after.len() ==> {
                let (a, b) = (#[trigger] after[i], #[trigger] after[j]);
                ||| a.width > b.width
                ||| a.width == b.width && a.height > b.height
                ||| a.width == b.width && a.height == b.height && a.framerate > b.framerate
                ||| {
                    &&& a.width == b.width
                    &&& a.height == b.height
                    &&& a.framerate == b.framerate
                    &&& a.format == b.format || b.format is None || (a.format is Some && text_less(
                        b.format->0,
                        a.format->0,
                    ))
                }
            },
        forall|i: int, j: int, q: int|
            0 <= i < j < after.len() && 0 <= q < before.len() && (#[trigger] after[i]).width
                == (#[trigger] after[j]).width && after[i].height == after[j].height
                && after[i].framerate == after[j].framerate && after[i].format == after[j].format
                && #[trigger] before[q] == after[j] ==> exists|p: int|
                0 <= p < q && before[p] == after[i],
{
    assert forall|c: CameraCapView| #[trigger] before.contains(c) <==> after.contains(c) by {
        assert(before.contains(c) <==> after.contains(c));
    }
    assert forall|i: int, j: int| 0 <= i < j < after.len() implies {
        let (a, b) = (#[trigger] after[i], #[trigger] after[j]);
        ||| a.width > b.width
        ||| a.width == b.width && a.height > b.height
        ||| a.width == b.width && a.height == b.height && a.framerate > b.framerate
        ||| {
            &&& a.width == b.width
            &&& a.height == b.height
            &&& a.framerate == b.framerate
            &&& a.format == b.format || b.format is None || (a.format is Some && text_less(
                b.format->0,
                a.format->0,
            ))
        }
    } by {
        let (a, b) = (after[i], after[j]);
        assert(listed_in_order(before, a, b));
        if a.format is Some && b.format is Some {
            text_less_total(a.format->0, b.format->0);
        }
    }
    assert forall|i: int, j: int, q: int|
        0 <= i < j < after.len() && 0 <= q < before.len() && (#[trigger] after[i]).width == (
        #[trigger] after[j]).width && after[i].height == after[j].height && after[i].framerate
            == after[j].framerate && after[i].format == after[j].format && #[trigger] before[q]
            == after[j] implies exists|p: int| 0 <= p < q && before[p] == after[i] by {
        let (a, b) = (after[i], after[j]);
        assert(listed_in_order(before, a, b));
        lemma_rank_order(a, b, b);
        lemma_format_order(a.format, a.format, a.format);
        lemma_first_is_first(before, b, q);
        assert(after.contains(a));
        lemma_first_position(before, a, a);
        lemma_stands_at_first_position(before, a);
    }
}

proof fn lemma_first_is_first(s: Seq<CameraCapView>, c: CameraCapView, q: int)
    requires
        0 <= q < s.len(),
        s[q] == c,
    ensures
        first_position(s, c) <= q,
    decreases s.len(),
{
    if s[0] != c {
        lemma_first_is_first(s.skip(1), c, q - 1);
    }
}

proof fn lemma_stands_at_first_position(s: Seq<CameraCapView>, c: CameraCapView)
    requires
        s.contains(c),
    ensures
        0 <= first_position(s, c) < s.len(),
        s[first_position(s, c)] == c,
    decreases s.len(),
{
    if s[0] != c {
        let t = s.skip(1);
        let k = choose|k: int| 0 <= k < s.len() && s[k] == c;
        assert(t[k - 1] == c);
        lemma_stands_at_first_position(t, c);
    }
}

} // verus!
