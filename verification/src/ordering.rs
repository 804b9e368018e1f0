use crate::contract::{insert_sorted, seq_less, sort_seq};
use vstd::prelude::*;

verus! {

/// Whether every element orders strictly before every later one.
pub open spec fn strictly_sorted(t: Seq<Seq<char>>) -> bool {
    forall|i: int, j: int| 0 <= i < j < t.len() ==> seq_less(#[trigger] t[i], #[trigger] t[j])
}

/// No text orders before itself, and of two texts at most one orders first.
pub proof fn lemma_less_asymmetric(a: Seq<char>, b: Seq<char>)
    ensures
        seq_less(a, b) ==> !seq_less(b, a),
        !seq_less(a, a),
    decreases a.len(),
{
    if a.len() > 0 && b.len() > 0 && a[0] == b[0] {
        lemma_less_asymmetric(a.drop_first(), b.drop_first());
    }
    if a.len() > 0 {
        lemma_less_asymmetric(a.drop_first(), a.drop_first());
    }
}

/// The order is transitive.
pub proof fn lemma_less_transitive(a: Seq<char>, b: Seq<char>, c: Seq<char>)
    requires
        seq_less(a, b),
        seq_less(b, c),
    ensures
        seq_less(a, c),
    decreases a.len(),
{
    if a.len() > 0 && b.len() > 0 && c.len() > 0 && a[0] == b[0] && b[0] == c[0] {
        lemma_less_transitive(a.drop_first(), b.drop_first(), c.drop_first());
    }
}

/// Of two different texts, one orders first.
pub proof fn lemma_less_total(a: Seq<char>, b: Seq<char>)
    requires
        a != b,
    ensures
        seq_less(a, b) || seq_less(b, a),
    decreases a.len(),
{
    if a.len() > 0 && b.len() > 0 && a[0] == b[0] {
        if a.drop_first() == b.drop_first() {
            assert(a =~= seq![a[0]] + a.drop_first());
            assert(b =~= seq![b[0]] + b.drop_first());
            assert(a == b);
        } else {
            lemma_less_total(a.drop_first(), b.drop_first());
            assert(seq_less(a, b) == seq_less(a.drop_first(), b.drop_first()));
            assert(seq_less(b, a) == seq_less(b.drop_first(), a.drop_first()));
        }
    } else if a.len() == 0 && b.len() == 0 {
        assert(a =~= b);
    } else if a.len() > 0 && b.len() > 0 {
        assert(a[0] != b[0]);
        assert((a[0] as int) != (b[0] as int));
    }
}

/// Inserting keeps the elements and adds `x`.
pub proof fn lemma_insert_sorted_contains(t: Seq<Seq<char>>, x: Seq<char>, e: Seq<char>)
    ensures
        insert_sorted(t, x).contains(e) <==> t.contains(e) || e == x,
        insert_sorted(t, x).len() == t.len() + 1,
    decreases t.len(),
{
    broadcast use vstd::seq_lib::group_seq_properties;
    if t.len() > 0 && !seq_less(x, t[0]) {
        lemma_insert_sorted_contains(t.drop_first(), x, e);
        assert(t =~= seq![t[0]] + t.drop_first());
    } else if t.len() > 0 {
        assert(seq![x] + t == seq![x] + t);
    }
}

/// Inserting a new element into a sorted sequence keeps it sorted.
pub proof fn lemma_insert_sorted_sorted(t: Seq<Seq<char>>, x: Seq<char>)
    requires
        strictly_sorted(t),
        !t.contains(x),
    ensures
        strictly_sorted(insert_sorted(t, x)),
    decreases t.len(),
{
    broadcast use vstd::seq_lib::group_seq_properties;
    if t.len() == 0 {
    } else if seq_less(x, t[0]) {
        let r = seq![x] + t;
        assert forall|i: int, j: int| 0 <= i < j < r.len() implies seq_less(#[trigger] r[i], #[trigger] r[j]) by {
            if i == 0 {
                if j > 1 {
                    lemma_less_transitive(x, t[0], t[j - 1]);
                }
            } else {
                assert(r[i] == t[i - 1] && r[j] == t[j - 1]);
            }
        }
    } else {
        let rest = t.drop_first();
        assert(t[0] != x);
        lemma_less_total(x, t[0]);
        assert(!rest.contains(x)) by {
            if rest.contains(x) {
                let k = choose|k: int| 0 <= k < rest.len() && rest[k] == x;
                assert(t[k + 1] == x);
            }
        }
        assert(strictly_sorted(rest)) by {
            assert forall|i: int, j: int| 0 <= i < j < rest.len() implies seq_less(#[trigger] rest[i], #[trigger] rest[j]) by {
                assert(rest[i] == t[i + 1] && rest[j] == t[j + 1]);
            }
        }
        lemma_insert_sorted_sorted(rest, x);
        let inner = insert_sorted(rest, x);
        let r = seq![t[0]] + inner;
        assert forall|i: int, j: int| 0 <= i < j < r.len() implies seq_less(#[trigger] r[i], #[trigger] r[j]) by {
            if i == 0 {
                let e = inner[j - 1];
                lemma_insert_sorted_contains(rest, x, e);
                assert(inner.contains(e));
                if e != x {
                    let k = choose|k: int| 0 <= k < rest.len() && rest[k] == e;
                    assert(t[k + 1] == e);
                }
            } else {
                assert(r[i] == inner[i - 1] && r[j] == inner[j - 1]);
            }
        }
    }
}

/// Sorting distinct texts yields a strictly sorted sequence of the same texts.
pub proof fn lemma_sort_sorted(s: Seq<Seq<char>>)
    requires
        crate::contract::distinct(s),
    ensures
        strictly_sorted(sort_seq(s)),
        forall|e: Seq<char>| sort_seq(s).contains(e) <==> s.contains(e),
        sort_seq(s).len() == s.len(),
    decreases s.len(),
{
    broadcast use vstd::seq_lib::group_seq_properties;
    if s.len() > 0 {
        let init = s.drop_last();
        assert(crate::contract::distinct(init)) by {
            assert forall|i: int, j: int| 0 <= i < j < init.len() implies init[i] != init[j] by {
                assert(init[i] == s[i] && init[j] == s[j]);
            }
        }
        lemma_sort_sorted(init);
        assert(!init.contains(s.last())) by {
            if init.contains(s.last()) {
                let k = choose|k: int| 0 <= k < init.len() && init[k] == s.last();
                assert(s[k] == s[s.len() - 1]);
            }
        }
        lemma_insert_sorted_sorted(sort_seq(init), s.last());
        assert forall|e: Seq<char>| sort_seq(s).contains(e) <==> s.contains(e) by {
            lemma_insert_sorted_contains(sort_seq(init), s.last(), e);
            assert(s =~= init.push(s.last()));
        }
        lemma_insert_sorted_contains(sort_seq(init), s.last(), s.last());
    }
}

/// Sorting an already sorted sequence leaves it as it is.
pub proof fn lemma_sort_sorted_identity(t: Seq<Seq<char>>)
    requires
        strictly_sorted(t),
    ensures
        sort_seq(t) == t,
    decreases t.len(),
{
    if t.len() > 0 {
        let init = t.drop_last();
        assert(strictly_sorted(init)) by {
            assert forall|i: int, j: int| 0 <= i < j < init.len() implies seq_less(#[trigger] init[i], #[trigger] init[j]) by {
                assert(init[i] == t[i] && init[j] == t[j]);
            }
        }
        lemma_sort_sorted_identity(init);
        lemma_insert_last(init, t.last(), t);
        assert(init.push(t.last()) =~= t);
    }
}

proof fn lemma_insert_last(u: Seq<Seq<char>>, x: Seq<char>, t: Seq<Seq<char>>)
    requires
        t.len() == u.len() + 1,
        forall|k: int| 0 <= k < u.len() ==> u[k] == t[k],
        t[u.len() as int] == x,
        strictly_sorted(t),
    ensures
        insert_sorted(u, x) == u.push(x),
    decreases u.len(),
{
    if u.len() == 0 {
        assert(seq![x] =~= u.push(x));
    } else {
        assert(seq_less(u[0], x)) by {
            assert(t[0] == u[0]);
        }
        lemma_less_asymmetric(u[0], x);
        let rest = u.drop_first();
        let t2 = t.drop_first();
        assert(strictly_sorted(t2)) by {
            assert forall|i: int, j: int| 0 <= i < j < t2.len() implies seq_less(#[trigger] t2[i], #[trigger] t2[j]) by {
                assert(t2[i] == t[i + 1] && t2[j] == t[j + 1]);
            }
        }
        lemma_insert_last(rest, x, t2);
        assert(seq![u[0]] + rest.push(x) =~= u.push(x));
    }
}

} // verus!
