//! Sets of identifiers kept as strictly ascending lists of strings, ordered by code
//! point as `String`'s own ordering orders them (UTF-8 keeps code point order), so that
//! a set is listed in one way only.

use vstd::prelude::*;

use crate::text::{chars_of, texts};

verus! {

broadcast use vstd::seq_lib::group_seq_properties;

/// `a` comes before `b` in code point order.
pub open spec fn text_less(a: Seq<char>, b: Seq<char>) -> bool
    decreases a.len(),
{
    if b.len() == 0 {
        false
    } else if a.len() == 0 {
        true
    } else if a[0] != b[0] {
        a[0] < b[0]
    } else {
        text_less(a.subrange(1, a.len() as int), b.subrange(1, b.len() as int))
    }
}

/// Every text comes before the texts after it, so that none occurs twice.
pub open spec fn strictly_ascending(s: Seq<Seq<char>>) -> bool {
    forall|i: int, j: int| 0 <= i < j < s.len() ==> text_less(#[trigger] s[i], #[trigger] s[j])
}

/// No text comes before itself.
pub proof fn lemma_text_less_irreflexive(a: Seq<char>)
    ensures
        !text_less(a, a),
    decreases a.len(),
{
    if a.len() > 0 {
        lemma_text_less_irreflexive(a.subrange(1, a.len() as int));
    }
}

/// Code point order is transitive.
pub proof fn lemma_text_less_transitive(a: Seq<char>, b: Seq<char>, c: Seq<char>)
    requires
        text_less(a, b),
        text_less(b, c),
    ensures
        text_less(a, c),
    decreases a.len(),
{
    if a.len() > 0 && b.len() > 0 && c.len() > 0 && a[0] == b[0] && b[0] == c[0] {
        lemma_text_less_transitive(
            a.subrange(1, a.len() as int),
            b.subrange(1, b.len() as int),
            c.subrange(1, c.len() as int),
        );
    }
}

/// Of two different texts one comes before the other, and not both ways.
pub proof fn lemma_text_less_total(a: Seq<char>, b: Seq<char>)
    ensures
        a != b ==> (text_less(a, b) || text_less(b, a)),
        !(text_less(a, b) && text_less(b, a)),
    decreases a.len(),
{
    if a.len() > 0 && b.len() > 0 && a[0] == b[0] {
        let a1 = a.subrange(1, a.len() as int);
        let b1 = b.subrange(1, b.len() as int);
        lemma_text_less_total(a1, b1);
        if a1 == b1 {
            assert(a =~= seq![a[0]] + a1);
            assert(b =~= seq![b[0]] + b1);
        }
    }
    if a.len() == 0 && b.len() == 0 {
        assert(a =~= b);
    }
}

/// The texts after the first of a strictly ascending list are the other texts of its set.
proof fn lemma_rest_of_ascending_set(a: Seq<Seq<char>>)
    requires
        strictly_ascending(a),
        a.len() > 0,
    ensures
        strictly_ascending(a.drop_first()),
        a.drop_first().to_set() == a.to_set().remove(a[0]),
{
    let rest = a.drop_first();
    assert forall|i: int, j: int| 0 <= i < j < rest.len() implies text_less(#[trigger] rest[i], #[trigger] rest[j]) by {
        assert(rest[i] == a[i + 1] && rest[j] == a[j + 1]);
    }
    assert forall|t: Seq<char>| rest.to_set().contains(t) <==> a.to_set().remove(a[0]).contains(t) by {
        if rest.to_set().contains(t) {
            let k = choose|k: int| 0 <= k < rest.len() && rest[k] == t;
            assert(a[k + 1] == t);
            assert(text_less(a[0], a[k + 1]));
            lemma_text_less_irreflexive(a[0]);
        }
        if a.to_set().remove(a[0]).contains(t) {
            let k = choose|k: int| 0 <= k < a.len() && a[k] == t;
            assert(k > 0);
            assert(rest[k - 1] == t);
        }
    }
    assert(rest.to_set() =~= a.to_set().remove(a[0]));
}

/// A set of texts is listed in ascending order in one way only.
pub proof fn lemma_ascending_lists_of_one_set_are_equal(a: Seq<Seq<char>>, b: Seq<Seq<char>>)
    requires
        strictly_ascending(a),
        strictly_ascending(b),
        a.to_set() == b.to_set(),
    ensures
        a == b,
    decreases a.len(),
{
    if a.len() == 0 || b.len() == 0 {
        if b.len() > 0 {
            assert(b.to_set().contains(b[0]));
        }
        if a.len() > 0 {
            assert(a.to_set().contains(a[0]));
        }
        assert(a =~= b);
        return;
    }
    assert(a.to_set().contains(a[0]));
    assert(b.to_set().contains(b[0]));
    let k = choose|k: int| 0 <= k < b.len() && b[k] == a[0];
    let m = choose|m: int| 0 <= m < a.len() && a[m] == b[0];
    if k > 0 {
        assert(text_less(b[0], b[k]));
        if m == 0 {
            lemma_text_less_irreflexive(b[0]);
        } else {
            assert(text_less(a[0], a[m]));
            lemma_text_less_total(a[0], b[0]);
        }
    }
    assert(a[0] == b[0]);
    lemma_rest_of_ascending_set(a);
    lemma_rest_of_ascending_set(b);
    lemma_ascending_lists_of_one_set_are_equal(a.drop_first(), b.drop_first());
    assert(a =~= seq![a[0]] + a.drop_first());
    assert(b =~= seq![b[0]] + b.drop_first());
}

/// Whether `a` comes before `b` in code point order.
pub fn is_text_less(a: &str, b: &str) -> (r: bool)
    ensures
        r == text_less(a@, b@),
{
    let x = chars_of(a);
    let y = chars_of(b);
    let mut k: usize = 0;
    while k < x.len() && k < y.len() && x[k] == y[k]
        invariant
            x@ == a@,
            y@ == b@,
            k <= x.len(),
            k <= y.len(),
            text_less(a@, b@) == text_less(x@.skip(k as int), y@.skip(k as int)),
        decreases x.len() - k,
    {
        let ghost xs = x@.skip(k as int);
        let ghost ys = y@.skip(k as int);
        assert(xs.subrange(1, xs.len() as int) =~= x@.skip(k + 1));
        assert(ys.subrange(1, ys.len() as int) =~= y@.skip(k + 1));
        k = k + 1;
    }
    if k == y.len() {
        false
    } else if k == x.len() {
        true
    } else {
        x[k] < y[k]
    }
}

/// Position of the first entry of the ascending `set` that does not come before `item`.
fn insertion_point(set: &Vec<String>, item: &String) -> (p: usize)
    requires
        strictly_ascending(texts(set@)),
    ensures
        p <= set.len(),
        forall|i: int| 0 <= i < p ==> text_less(#[trigger] texts(set@)[i], item@),
        p < set.len() ==> !text_less(texts(set@)[p as int], item@),
{
    let mut p: usize = 0;
    while p < set.len() && is_text_less(set[p].as_str(), item.as_str())
        invariant
            p <= set.len(),
            forall|i: int| 0 <= i < p ==> text_less(#[trigger] texts(set@)[i], item@),
        decreases set.len() - p,
    {
        p = p + 1;
    }
    p
}

/// Adds `item` to the ascending set, where it is not already.
pub fn insert_text(set: &mut Vec<String>, item: String)
    requires
        strictly_ascending(texts(old(set)@)),
    ensures
        strictly_ascending(texts(final(set)@)),
        texts(final(set)@).to_set() == texts(old(set)@).to_set().insert(item@),
{
    let ghost before = texts(set@);
    let p = insertion_point(set, &item);
    if p < set.len() && set[p] == item {
        assert(texts(set@).to_set() =~= before.to_set().insert(item@)) by {
            assert(before[p as int] == item@);
        }
        return ;
    }
    proof {
        if p < set.len() {
            lemma_text_less_total(before[p as int], item@);
            assert(text_less(item@, before[p as int]));
        }
    }
    set.insert(p, item);
    let ghost after = texts(set@);
    assert(after =~= before.insert(p as int, item@));
    assert forall|i: int, j: int| 0 <= i < j < after.len() implies text_less(
        #[trigger] after[i],
        #[trigger] after[j],
    ) by {
        if j == p {
            assert(text_less(before[i], item@));
        } else if i == p {
            assert(j - 1 >= p);
            if j - 1 > p {
                assert(text_less(before[p as int], before[j - 1]));
                lemma_text_less_transitive(item@, before[p as int], before[j - 1]);
            }
        } else if i < p && j > p {
            assert(text_less(before[i], before[j - 1]));
        }
    }
    assert(after.to_set() =~= before.to_set().insert(item@)) by {
        assert forall|t: Seq<char>| after.to_set().contains(t) implies before.to_set().insert(
            item@,
        ).contains(t) by {
            let k = choose|k: int| 0 <= k < after.len() && after[k] == t;
            if k < p {
                assert(before[k] == t);
            } else if k > p {
                assert(before[k - 1] == t);
            }
        }
        assert forall|t: Seq<char>| before.to_set().insert(item@).contains(t) implies after.to_set().contains(
            t,
        ) by {
            if t == item@ {
                assert(after[p as int] == t);
            } else {
                let k = choose|k: int| 0 <= k < before.len() && before[k] == t;
                if k < p {
                    assert(after[k] == t);
                } else {
                    assert(after[k + 1] == t);
                }
            }
        }
    }
}

} // verus!
