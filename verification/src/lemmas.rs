//! Facts about sequences.

use vstd::prelude::*;

verus! {

pub(crate) proof fn lemma_push_contains<T>(s: Seq<T>, x: T, d: T)
    ensures
        s.push(x).contains(d) <==> s.contains(d) || d == x,
{
    let t = s.push(x);
    if s.contains(d) {
        let k = choose|k: int| 0 <= k < s.len() && s[k] == d;
        assert(t[k] == d);
    }
    if d == x {
        assert(t[s.len() as int] == d);
    }
}

pub(crate) proof fn lemma_last_contains<T>(s: Seq<T>, x: T)
    requires
        s.len() > 0,
    ensures
        s.contains(x) <==> s.drop_last().contains(x) || s.last() == x,
{
    let t = s.drop_last();
    if s.contains(x) {
        let k = choose|k: int| 0 <= k < s.len() && s[k] == x;
        if k < t.len() {
            assert(t[k] == x);
        }
    }
}

pub(crate) proof fn lemma_join_contains<T>(a: Seq<T>, b: Seq<T>, x: T)
    ensures
        (a + b).contains(x) <==> a.contains(x) || b.contains(x),
{
    let s = a + b;
    if a.contains(x) {
        let k = choose|k: int| 0 <= k < a.len() && a[k] == x;
        assert(s[k] == x);
    }
    if b.contains(x) {
        let k = choose|k: int| 0 <= k < b.len() && b[k] == x;
        assert(s[a.len() + k] == x);
    }
}

pub(crate) broadcast proof fn lemma_join_is_associative<T>(a: Seq<T>, b: Seq<T>, c: Seq<T>)
    ensures
        #[trigger] ((a + b) + c) == a + (b + c),
{
    assert((a + b) + c =~= a + (b + c));
}

} // verus!
