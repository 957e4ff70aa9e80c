//! Sequences of sequences, and sequences with gaps.

use vstd::prelude::*;

verus! {

/// The first `n` of `parts`, one after the other.
pub open spec fn concat_upto<T>(parts: Seq<Seq<T>>, n: int) -> Seq<T>
    decreases n,
{
    if n <= 0 {
        Seq::empty()
    } else {
        concat_upto(parts, n - 1) + parts[n - 1]
    }
}

/// All of `parts`, one after the other.
pub open spec fn concat<T>(parts: Seq<Seq<T>>) -> Seq<T> {
    concat_upto(parts, parts.len() as int)
}

/// What an optional item contributes to a sequence: itself, or nothing.
pub open spec fn item_or_nothing<T>(x: Option<T>) -> Seq<T> {
    match x {
        Some(x) => seq![x],
        None => Seq::empty(),
    }
}

/// The items that are present among the first `n` of `xs`, in order.
pub open spec fn present_upto<T>(xs: Seq<Option<T>>, n: int) -> Seq<T>
    decreases n,
{
    if n <= 0 {
        Seq::empty()
    } else {
        present_upto(xs, n - 1) + item_or_nothing(xs[n - 1])
    }
}

/// The items that are present in `xs`, in order.
pub open spec fn present<T>(xs: Seq<Option<T>>) -> Seq<T> {
    present_upto(xs, xs.len() as int)
}

/// Among `n` items at most `n` are present, and all `n` only where none is
/// missing.
pub proof fn lemma_present_upto_len<T>(xs: Seq<Option<T>>, n: int)
    requires
        0 <= n <= xs.len(),
    ensures
        present_upto(xs, n).len() <= n,
        present_upto(xs, n).len() == n <==> (forall|i: int| 0 <= i < n ==> xs[i] is Some),
    decreases n,
{
    if n > 0 {
        lemma_present_upto_len(xs, n - 1);
        if present_upto(xs, n).len() == n {
            assert forall|i: int| 0 <= i < n implies xs[i] is Some by {
                if i < n - 1 {
                    assert(xs[i] is Some);
                }
            }
        }
    }
}

/// Where nothing is missing, the items that are present are all the items.
pub proof fn lemma_present_upto_all<T>(xs: Seq<Option<T>>, n: int)
    requires
        0 <= n <= xs.len(),
        forall|i: int| 0 <= i < n ==> xs[i] is Some,
    ensures
        present_upto(xs, n).len() == n,
        forall|i: int| 0 <= i < n ==> present_upto(xs, n)[i] == xs[i]->0,
    decreases n,
{
    if n > 0 {
        lemma_present_upto_all(xs, n - 1);
    }
}

/// `f` applied to an item that is present.
pub open spec fn map_present<A, B>(x: Option<A>, f: spec_fn(A) -> B) -> Option<B> {
    match x {
        Some(x) => Some(f(x)),
        None => None,
    }
}

/// Where `ys` holds the image under `f` of each item that `xs` holds, what is
/// present in `ys` is the image of what is present in `xs`, item by item.
pub proof fn lemma_present_upto_map<A, B>(
    xs: Seq<Option<A>>,
    ys: Seq<Option<B>>,
    f: spec_fn(A) -> B,
    n: int,
)
    requires
        0 <= n <= xs.len(),
        n <= ys.len(),
        forall|i: int| 0 <= i < n ==> ys[i] == map_present(xs[i], f),
    ensures
        present_upto(ys, n).len() == present_upto(xs, n).len(),
        forall|k: int|
            0 <= k < present_upto(xs, n).len() ==> present_upto(ys, n)[k] == f(
                present_upto(xs, n)[k],
            ),
    decreases n,
{
    if n > 0 {
        lemma_present_upto_map(xs, ys, f, n - 1);
    }
}

/// Parts that hold an item each, at the least, make up at least as many
/// items as there are parts.
pub proof fn lemma_concat_upto_at_least<T>(parts: Seq<Seq<T>>, n: int)
    requires
        0 <= n <= parts.len(),
        forall|i: int| 0 <= i < n ==> parts[i].len() >= 1,
    ensures
        concat_upto(parts, n).len() >= n,
    decreases n,
{
    if n > 0 {
        lemma_concat_upto_at_least(parts, n - 1);
    }
}

/// Parts that hold an item each, at the most, make up at most as many items
/// as there are parts.
pub proof fn lemma_concat_upto_at_most<T>(parts: Seq<Seq<T>>, n: int)
    requires
        0 <= n <= parts.len(),
        forall|i: int| 0 <= i < n ==> parts[i].len() <= 1,
    ensures
        concat_upto(parts, n).len() <= n,
    decreases n,
{
    if n > 0 {
        lemma_concat_upto_at_most(parts, n - 1);
    }
}

/// Where parts that hold an item each, at the least or at the most, make up
/// exactly as many items as there are parts, each part holds one item, and
/// the items stand in the order of the parts.
pub proof fn lemma_concat_upto_one_each<T>(parts: Seq<Seq<T>>, n: int)
    requires
        0 <= n <= parts.len(),
        (forall|i: int| 0 <= i < n ==> parts[i].len() >= 1) || (forall|i: int|
            0 <= i < n ==> parts[i].len() <= 1),
        concat_upto(parts, n).len() == n,
    ensures
        forall|i: int|
            0 <= i < n ==> (#[trigger] parts[i]).len() == 1 && concat_upto(parts, n)[i]
                == parts[i][0],
    decreases n,
{
    if n > 0 {
        if forall|i: int| 0 <= i < n ==> parts[i].len() >= 1 {
            lemma_concat_upto_at_least(parts, n - 1);
        } else {
            lemma_concat_upto_at_most(parts, n - 1);
        }
        lemma_concat_upto_one_each(parts, n - 1);
    }
}

/// What holds of every item of every part holds of every item that the
/// parts make up.
pub proof fn lemma_concat_upto_holds<T>(parts: Seq<Seq<T>>, n: int, p: spec_fn(T) -> bool)
    requires
        0 <= n <= parts.len(),
        forall|i: int, j: int| 0 <= i < n && 0 <= j < parts[i].len() ==> p(#[trigger] parts[i][j]),
    ensures
        forall|k: int|
            0 <= k < concat_upto(parts, n).len() ==> p(#[trigger] concat_upto(parts, n)[k]),
    decreases n,
{
    if n > 0 {
        lemma_concat_upto_holds(parts, n - 1, p);
        let before = concat_upto(parts, n - 1);
        assert forall|k: int| 0 <= k < concat_upto(parts, n).len() implies p(
            #[trigger] concat_upto(parts, n)[k],
        ) by {
            if k >= before.len() {
                assert(concat_upto(parts, n)[k] == parts[n - 1][k - before.len()]);
            } else {
                assert(concat_upto(parts, n)[k] == before[k]);
            }
        }
    }
}

} // verus!
