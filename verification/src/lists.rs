//! Searching and sifting sequences.

use vstd::prelude::*;

verus! {

/// The first value that `pick` gives for an item of `s`.
pub open spec fn first_of<A, T>(s: Seq<A>, pick: spec_fn(A) -> Option<T>) -> Option<T>
    decreases s.len(),
{
    if s.len() == 0 {
        None
    } else if pick(s[0]) is Some {
        pick(s[0])
    } else {
        first_of(s.drop_first(), pick)
    }
}

/// All values that `pick` gives for items of `s`, in order.
pub open spec fn all_of<A, T>(s: Seq<A>, pick: spec_fn(A) -> Option<T>) -> Seq<T>
    decreases s.len(),
{
    if s.len() == 0 {
        Seq::empty()
    } else {
        match pick(s.last()) {
            Some(v) => all_of(s.drop_last(), pick).push(v),
            None => all_of(s.drop_last(), pick),
        }
    }
}

pub proof fn lemma_first_of_step<A, T>(s: Seq<A>, i: int, pick: spec_fn(A) -> Option<T>)
    requires
        0 <= i < s.len(),
    ensures
        pick(s[i]) is Some ==> first_of(s.skip(i), pick) == pick(s[i]),
        pick(s[i]) is None ==> first_of(s.skip(i), pick) == first_of(s.skip(i + 1), pick),
{
    assert(s.skip(i).drop_first() == s.skip(i + 1));
}

pub proof fn lemma_all_of_step<A, T>(s: Seq<A>, i: int, pick: spec_fn(A) -> Option<T>)
    requires
        0 <= i < s.len(),
    ensures
        pick(s[i]) is Some ==> all_of(s.take(i + 1), pick) == all_of(s.take(i), pick).push(
            pick(s[i])->0,
        ),
        pick(s[i]) is None ==> all_of(s.take(i + 1), pick) == all_of(s.take(i), pick),
{
    assert(s.take(i + 1).drop_last() == s.take(i));
}

pub proof fn lemma_filter_step<A>(s: Seq<A>, i: int, keep: spec_fn(A) -> bool)
    requires
        0 <= i < s.len(),
    ensures
        keep(s[i]) ==> s.take(i + 1).filter(keep) == s.take(i).filter(keep).push(s[i]),
        !keep(s[i]) ==> s.take(i + 1).filter(keep) == s.take(i).filter(keep),
{
    reveal(Seq::filter);
    assert(s.take(i + 1).drop_last() == s.take(i));
}

/// What `first_of` finds stands in the sequence, and nothing before it does.
pub proof fn lemma_first_of_found<A, T>(s: Seq<A>, pick: spec_fn(A) -> Option<T>) -> (i: int)
    ensures
        first_of(s, pick) is Some ==> 0 <= i < s.len() && pick(s[i]) == first_of(s, pick),
        first_of(s, pick) is None ==> forall|j: int|
            0 <= j < s.len() ==> pick(#[trigger] s[j]) is None,
    decreases s.len(),
{
    if s.len() == 0 {
        0
    } else if pick(s[0]) is Some {
        0
    } else {
        let i = lemma_first_of_found(s.drop_first(), pick);
        assert forall|j: int| first_of(s, pick) is None && 0 <= j < s.len() implies pick(
            #[trigger] s[j],
        ) is None by {
            if j > 0 {
                assert(s[j] == s.drop_first()[j - 1]);
            }
        }
        i + 1
    }
}

pub proof fn lemma_first_of_one<A, T>(a: A, pick: spec_fn(A) -> Option<T>)
    ensures
        first_of(seq![a], pick) == pick(a),
{
    reveal_with_fuel(first_of, 2);
    assert(seq![a].drop_first() == Seq::<A>::empty());
}

/// What is found in two sequences, one behind the other.
pub proof fn lemma_first_of_concat<A, T>(a: Seq<A>, b: Seq<A>, pick: spec_fn(A) -> Option<T>)
    ensures
        first_of(a, pick) is Some ==> first_of(a + b, pick) == first_of(a, pick),
        first_of(a, pick) is None ==> first_of(a + b, pick) == first_of(b, pick),
    decreases a.len(),
{
    if a.len() == 0 {
        assert(a + b == b);
    } else {
        assert((a + b).drop_first() == a.drop_first() + b);
        lemma_first_of_concat(a.drop_first(), b, pick);
    }
}

/// Two sequences in which the same is found at each place.
pub proof fn lemma_first_of_same<A, B, T>(
    a: Seq<A>,
    b: Seq<B>,
    pick: spec_fn(A) -> Option<T>,
    other: spec_fn(B) -> Option<T>,
)
    requires
        a.len() == b.len(),
        forall|i: int| 0 <= i < a.len() ==> pick(#[trigger] a[i]) == other(b[i]),
    ensures
        first_of(a, pick) == first_of(b, other),
    decreases a.len(),
{
    if a.len() > 0 {
        assert(pick(a[0]) == other(b[0]));
        assert forall|i: int| 0 <= i < a.len() - 1 implies pick(#[trigger] a.drop_first()[i])
            == other(b.drop_first()[i]) by {
            assert(a.drop_first()[i] == a[i + 1]);
        }
        lemma_first_of_same(a.drop_first(), b.drop_first(), pick, other);
    }
}

/// Sifting out items in which nothing is found changes nothing.
pub proof fn lemma_first_of_filter<A, T>(
    s: Seq<A>,
    keep: spec_fn(A) -> bool,
    pick: spec_fn(A) -> Option<T>,
)
    requires
        forall|i: int| 0 <= i < s.len() && pick(#[trigger] s[i]) is Some ==> keep(s[i]),
    ensures
        first_of(s.filter(keep), pick) == first_of(s, pick),
    decreases s.len(),
{
    reveal(Seq::filter);
    if s.len() > 0 {
        let start = s.drop_last();
        lemma_first_of_filter(start, keep, pick);
        assert(s == start + seq![s.last()]);
        lemma_first_of_concat(start, seq![s.last()], pick);
        lemma_first_of_one(s.last(), pick);
        if keep(s.last()) {
            assert(s.filter(keep) == start.filter(keep) + seq![s.last()]);
            lemma_first_of_concat(start.filter(keep), seq![s.last()], pick);
        }
    }
}

/// What is found in the values that `f` gives is found through `f`.
pub proof fn lemma_first_of_all_of<A, B, T>(
    s: Seq<A>,
    f: spec_fn(A) -> Option<B>,
    pick: spec_fn(B) -> Option<T>,
    through: spec_fn(A) -> Option<T>,
)
    requires
        forall|a: A|
            #[trigger] through(a) == (match f(a) {
                Some(b) => pick(b),
                None => None,
            }),
    ensures
        first_of(all_of(s, f), pick) == first_of(s, through),
    decreases s.len(),
{
    if s.len() > 0 {
        let start = s.drop_last();
        let last = seq![s.last()];
        lemma_first_of_all_of(start, f, pick, through);
        assert(s == start + last);
        lemma_first_of_concat(start, last, through);
        lemma_first_of_one(s.last(), through);
        if let Some(b) = f(s.last()) {
            let one = seq![b];
            assert(all_of(s, f) == all_of(start, f) + one);
            lemma_first_of_concat(all_of(start, f), one, pick);
            lemma_first_of_one(b, pick);
        }
    }
}

/// An item in which nothing is found can stand behind the others.
pub proof fn lemma_first_of_push<A, T>(s: Seq<A>, a: A, pick: spec_fn(A) -> Option<T>)
    requires
        pick(a) is None,
    ensures
        first_of(s.push(a), pick) == first_of(s, pick),
{
    let one = seq![a];
    assert(s.push(a) == s + one);
    lemma_first_of_one(a, pick);
    lemma_first_of_concat(s, one, pick);
}

/// What is found stands at the first place at which there is anything to find.
pub proof fn law_first_of_is_the_first<A, T>(s: Seq<A>, i: int, pick: spec_fn(A) -> Option<T>)
    requires
        0 <= i < s.len(),
        pick(s[i]) is Some,
        forall|j: int| 0 <= j < i ==> pick(#[trigger] s[j]) is None,
    ensures
        first_of(s, pick) == pick(s[i]),
    decreases i,
{
    if i > 0 {
        assert(pick(s[0]) is None);
        let rest = s.drop_first();
        assert forall|j: int| 0 <= j < i - 1 implies pick(#[trigger] rest[j]) is None by {
            assert(rest[j] == s[j + 1]);
        }
        law_first_of_is_the_first(rest, i - 1, pick);
    }
}

/// Nothing is found where there is nothing to find.
pub proof fn law_first_of_nothing<A, T>(s: Seq<A>, pick: spec_fn(A) -> Option<T>)
    requires
        forall|j: int| 0 <= j < s.len() ==> pick(#[trigger] s[j]) is None,
    ensures
        first_of(s, pick) is None,
    decreases s.len(),
{
    if s.len() > 0 {
        assert(pick(s[0]) is None);
        let rest = s.drop_first();
        assert forall|j: int| 0 <= j < rest.len() implies pick(#[trigger] rest[j]) is None by {
            assert(rest[j] == s[j + 1]);
        }
        law_first_of_nothing(rest, pick);
    }
}

/// A filter that all elements pass changes nothing.
pub proof fn lemma_filter_all<A>(s: Seq<A>, keep: spec_fn(A) -> bool)
    requires
        forall|i: int| 0 <= i < s.len() ==> keep(#[trigger] s[i]),
    ensures
        s.filter(keep) == s,
    decreases s.len(),
{
    reveal(Seq::filter);
    if s.len() > 0 {
        lemma_filter_all(s.drop_last(), keep);
        assert(s.drop_last().push(s.last()) == s);
    }
}

/// All that is found stands in the order of the items, and nothing is left out:
/// each item adds what is found in it, behind all that is found before it.
pub proof fn law_all_of_keeps_the_order<A, T>(a: Seq<A>, b: Seq<A>, pick: spec_fn(A) -> Option<T>)
    ensures
        all_of(a + b, pick) == all_of(a, pick) + all_of(b, pick),
        b.len() == 1 ==> all_of(b, pick) == match pick(b[0]) {
            Some(v) => seq![v],
            None => Seq::empty(),
        },
    decreases b.len(),
{
    if b.len() == 0 {
        assert(a + b == a);
    } else {
        assert((a + b).drop_last() == a + b.drop_last());
        assert((a + b).last() == b.last());
        law_all_of_keeps_the_order(a, b.drop_last(), pick);
        if b.len() == 1 {
            assert(b.drop_last() == Seq::<A>::empty());
        }
    }
}

/// What stands before the same end is the same.
pub proof fn lemma_same_tail<A>(a: Seq<A>, b: Seq<A>, x: Seq<A>)
    requires
        a + x == b + x,
    ensures
        a == b,
{
    assert(a.len() + x.len() == (a + x).len());
    assert(b.len() + x.len() == (b + x).len());
    assert forall|i: int| 0 <= i < a.len() implies a[i] == b[i] by {
        assert((a + x)[i] == a[i]);
        assert((b + x)[i] == b[i]);
    }
    assert(a =~= b);
}

/// What stands behind the same start is the same.
pub proof fn lemma_same_head<A>(a: Seq<A>, x: Seq<A>, y: Seq<A>)
    requires
        a + x == a + y,
    ensures
        x == y,
{
    assert(a.len() + x.len() == (a + x).len());
    assert(a.len() + y.len() == (a + y).len());
    assert forall|i: int| 0 <= i < x.len() implies x[i] == y[i] by {
        assert((a + x)[a.len() + i] == x[i]);
        assert((a + y)[a.len() + i] == y[i]);
    }
    assert(x =~= y);
}

/// An item that passes a filter is kept.
pub proof fn lemma_kept<A>(s: Seq<A>, keep: spec_fn(A) -> bool, i: int)
    requires
        0 <= i < s.len(),
        keep(s[i]),
    ensures
        s.filter(keep).contains(s[i]),
    decreases s.len(),
{
    reveal(Seq::filter);
    let rest = s.drop_last();
    let kept = s.filter(keep);
    if i == s.len() - 1 {
        assert(kept[kept.len() - 1] == s[i]);
    } else {
        lemma_kept(rest, keep, i);
        let k = choose|k: int| 0 <= k < rest.filter(keep).len() && rest.filter(keep)[k] == rest[i];
        assert(kept[k] == s[i]);
    }
}

/// What is kept was there before.
pub proof fn lemma_comes_from<A>(s: Seq<A>, keep: spec_fn(A) -> bool, i: int)
    requires
        0 <= i < s.filter(keep).len(),
    ensures
        s.contains(s.filter(keep)[i]),
    decreases s.len(),
{
    reveal(Seq::filter);
    let rest = s.drop_last();
    let kept = s.filter(keep);
    if keep(s.last()) && i == kept.len() - 1 {
        assert(s[s.len() - 1] == kept[i]);
    } else {
        lemma_comes_from(rest, keep, i);
        let k = choose|k: int| 0 <= k < rest.len() && rest[k] == rest.filter(keep)[i];
        assert(s[k] == kept[i]);
    }
}

}
