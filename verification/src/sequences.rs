use vstd::prelude::*;

verus! {

/// Keeping the elements of a prefix one longer adds its last element when
/// it passes.
pub proof fn lemma_filter_prefix_step<A>(s: Seq<A>, pred: spec_fn(A) -> bool, i: int)
    requires
        0 <= i < s.len(),
    ensures
        s.subrange(0, i + 1).filter(pred) == (if pred(s[i]) {
            s.subrange(0, i).filter(pred).push(s[i])
        } else {
            s.subrange(0, i).filter(pred)
        }),
{
    let t = s.subrange(0, i + 1);
    assert(t.drop_last() =~= s.subrange(0, i));
    assert(t.last() == s[i]);
    reveal_with_fuel(Seq::filter, 1);
}

/// What a prefix keeps is a prefix of what the whole sequence keeps.
pub proof fn lemma_filter_prefix<A>(s: Seq<A>, pred: spec_fn(A) -> bool, i: int)
    requires
        0 <= i <= s.len(),
    ensures
        s.subrange(0, i).filter(pred).len() <= s.filter(pred).len(),
        s.filter(pred).subrange(0, s.subrange(0, i).filter(pred).len() as int) == s.subrange(0, i).filter(pred),
    decreases s.len() - i,
{
    if i == s.len() {
        assert(s.subrange(0, i) =~= s);
        assert(s.filter(pred).subrange(0, s.filter(pred).len() as int) =~= s.filter(pred));
    } else {
        lemma_filter_prefix(s, pred, i + 1);
        lemma_filter_prefix_step(s, pred, i);
        let short = s.subrange(0, i).filter(pred);
        let long = s.subrange(0, i + 1).filter(pred);
        let all = s.filter(pred);
        assert(all.subrange(0, short.len() as int) =~= long.subrange(0, short.len() as int));
        assert(long.subrange(0, short.len() as int) =~= short);
    }
}

/// Every element that a filter keeps passes, and comes from the sequence.
pub proof fn lemma_filter_members<A>(s: Seq<A>, pred: spec_fn(A) -> bool)
    ensures
        forall|k: int| 0 <= k < s.filter(pred).len() ==> pred(#[trigger] s.filter(pred)[k]) && s.contains(s.filter(pred)[k]),
        s.filter(pred).len() <= s.len(),
    decreases s.len(),
{
    reveal_with_fuel(Seq::filter, 1);
    if s.len() > 0 {
        lemma_filter_members(s.drop_last(), pred);
        let rest = s.drop_last().filter(pred);
        assert forall|k: int| 0 <= k < s.filter(pred).len() implies pred(#[trigger] s.filter(pred)[k]) && s.contains(s.filter(pred)[k]) by {
            if k < rest.len() {
                let x = rest[k];
                assert(s.drop_last().contains(x));
                let j = choose|j: int| 0 <= j < s.drop_last().len() && s.drop_last()[j] == x;
                assert(s[j] == x);
            } else {
                assert(s[s.len() - 1] == s.last());
            }
        }
    }
}


/// An element that passes is kept by the filter.
pub proof fn lemma_filter_keeps<A>(s: Seq<A>, pred: spec_fn(A) -> bool, i: int)
    requires
        0 <= i < s.len(),
        pred(s[i]),
    ensures
        s.filter(pred).contains(s[i]),
    decreases s.len(),
{
    reveal_with_fuel(Seq::filter, 1);
    let rest = s.drop_last().filter(pred);
    if i == s.len() - 1 {
        assert(s.filter(pred) == rest.push(s.last()));
        assert(s.filter(pred)[rest.len() as int] == s[i]);
    } else {
        lemma_filter_keeps(s.drop_last(), pred, i);
        assert(s.drop_last()[i] == s[i]);
        let j = choose|j: int| 0 <= j < rest.len() && rest[j] == s[i];
        assert(s.filter(pred)[j] == s[i]);
    }
}


/// Three filters that split every element between them keep, together,
/// as many elements as the sequence holds.
pub proof fn lemma_filter_partition<A>(s: Seq<A>, p: spec_fn(A) -> bool, q: spec_fn(A) -> bool, r: spec_fn(A) -> bool)
    requires
        forall|x: A| #[trigger] p(x) || q(x) || r(x),
        forall|x: A| !(#[trigger] p(x) && q(x)) && !(p(x) && r(x)) && !(q(x) && r(x)),
    ensures
        s.filter(p).len() + s.filter(q).len() + s.filter(r).len() == s.len(),
    decreases s.len(),
{
    reveal_with_fuel(Seq::filter, 1);
    if s.len() > 0 {
        lemma_filter_partition(s.drop_last(), p, q, r);
        let x = s.last();
        assert(p(x) || q(x) || r(x));
    }
}


/// Filtering a sorted sequence without duplicates keeps it sorted and
/// without duplicates.
pub proof fn lemma_filter_sorted_unique<A>(s: Seq<A>, pred: spec_fn(A) -> bool, leq: spec_fn(A, A) -> bool)
    requires
        vstd::relations::sorted_by(s, leq),
        s.no_duplicates(),
    ensures
        vstd::relations::sorted_by(s.filter(pred), leq),
        s.filter(pred).no_duplicates(),
    decreases s.len(),
{
    reveal_with_fuel(Seq::filter, 1);
    if s.len() > 0 {
        let init = s.drop_last();
        assert(vstd::relations::sorted_by(init, leq)) by {
            assert forall|i: int, j: int| 0 <= i < j < init.len() implies #[trigger] leq(init[i], init[j]) by {
                assert(init[i] == s[i] && init[j] == s[j]);
            }
        }
        lemma_filter_sorted_unique(init, pred, leq);
        lemma_filter_members(init, pred);
        let rest = init.filter(pred);
        if pred(s.last()) {
            let out = rest.push(s.last());
            assert forall|k: int| 0 <= k < rest.len() implies leq(#[trigger] rest[k], s.last()) && rest[k] != s.last() by {
                assert(init.contains(rest[k]));
                let j = choose|j: int| 0 <= j < init.len() && init[j] == rest[k];
                assert(s[j] == rest[k]);
                assert(leq(s[j], s[s.len() - 1]));
            }
            assert forall|i: int, j: int| 0 <= i < j < out.len() implies #[trigger] leq(out[i], out[j]) by {
                if j < rest.len() {
                    assert(out[i] == rest[i] && out[j] == rest[j]);
                } else {
                    assert(out[i] == rest[i]);
                }
            }
            assert forall|i: int, j: int| 0 <= i < out.len() && 0 <= j < out.len() && i != j implies out[i] != out[j] by {
                if i < rest.len() && j < rest.len() {
                    assert(out[i] == rest[i] && out[j] == rest[j]);
                } else if i < rest.len() {
                    assert(out[i] == rest[i]);
                } else {
                    assert(out[j] == rest[j]);
                }
            }
        }
    }
}

/// Two sorted sequences without duplicates that hold the same elements are
/// equal.
pub proof fn lemma_sorted_unique_equal<A>(a: Seq<A>, b: Seq<A>, leq: spec_fn(A, A) -> bool)
    requires
        vstd::relations::total_ordering(leq),
        vstd::relations::sorted_by(a, leq),
        vstd::relations::sorted_by(b, leq),
        a.no_duplicates(),
        b.no_duplicates(),
        forall|x: A| a.contains(x) <==> b.contains(x),
    ensures
        a == b,
    decreases a.len(),
{
    if a.len() == 0 {
        if b.len() > 0 {
            assert(b.contains(b[0]));
        }
        assert(a =~= b);
    } else {
        assert(a.contains(a[0]));
        assert(b.len() > 0);
        assert(b.contains(b[0]));
        let k = choose|k: int| 0 <= k < a.len() && a[k] == b[0];
        let m = choose|m: int| 0 <= m < b.len() && b[m] == a[0];
        assert(leq(a[0], a[k])) by {
            if k > 0 {
            } else {
                assert(leq(a[0], a[0]));
            }
        }
        assert(leq(b[0], b[m])) by {
            if m > 0 {
            } else {
                assert(leq(b[0], b[0]));
            }
        }
        assert(a[0] == b[0]);
        let a1 = a.drop_first();
        let b1 = b.drop_first();
        assert(vstd::relations::sorted_by(a1, leq)) by {
            assert forall|i: int, j: int| 0 <= i < j < a1.len() implies #[trigger] leq(a1[i], a1[j]) by {
                assert(a1[i] == a[i + 1] && a1[j] == a[j + 1]);
            }
        }
        assert(vstd::relations::sorted_by(b1, leq)) by {
            assert forall|i: int, j: int| 0 <= i < j < b1.len() implies #[trigger] leq(b1[i], b1[j]) by {
                assert(b1[i] == b[i + 1] && b1[j] == b[j + 1]);
            }
        }
        assert(a1.no_duplicates()) by {
            assert forall|i: int, j: int| 0 <= i < a1.len() && 0 <= j < a1.len() && i != j implies a1[i] != a1[j] by {
                assert(a1[i] == a[i + 1] && a1[j] == a[j + 1]);
            }
        }
        assert(b1.no_duplicates()) by {
            assert forall|i: int, j: int| 0 <= i < b1.len() && 0 <= j < b1.len() && i != j implies b1[i] != b1[j] by {
                assert(b1[i] == b[i + 1] && b1[j] == b[j + 1]);
            }
        }
        assert forall|x: A| a1.contains(x) <==> b1.contains(x) by {
            if a1.contains(x) {
                let i = choose|i: int| 0 <= i < a1.len() && a1[i] == x;
                assert(a[i + 1] == x);
                assert(x != a[0]);
                assert(b.contains(x));
                let j = choose|j: int| 0 <= j < b.len() && b[j] == x;
                assert(j != 0);
                assert(b1[j - 1] == x);
            }
            if b1.contains(x) {
                let i = choose|i: int| 0 <= i < b1.len() && b1[i] == x;
                assert(b[i + 1] == x);
                assert(x != b[0]);
                assert(a.contains(x));
                let j = choose|j: int| 0 <= j < a.len() && a[j] == x;
                assert(j != 0);
                assert(a1[j - 1] == x);
            }
        }
        lemma_sorted_unique_equal(a1, b1, leq);
        assert(a =~= seq![a[0]] + a1);
        assert(b =~= seq![b[0]] + b1);
    }
}

} // verus!
