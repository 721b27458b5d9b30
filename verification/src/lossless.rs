//! Decoding undoes encoding: what it takes of a value, and the lemmas on
//! sequences and on entities assembled child by child that the proofs for
//! the single entities share.

use vstd::prelude::*;
use crate::codec::{
    decode_each, decode_rest, encode_each, FieldBag, filled, fold_upto, FromSexp, IntoSexp,
    lemma_decode_each_inverse,
};
use crate::error::Failure;
use crate::tree::Tree;

verus! {

/// An entity that is written without loss: whatever a tree decodes to,
/// written and decoded again, is the same value.
pub trait Lossless: FromSexp + IntoSexp {
    /// What holds of every value that a tree decodes to: its numbers read
    /// as numbers, and what it keeps as written could not be read as
    /// something else.
    spec fn valid(v: Self::V) -> bool;

    /// What a tree decodes to is valid.
    proof fn lemma_decoded_is_valid(t: Tree)
        requires
            Self::decoded(t) is Ok,
        ensures
            Self::valid(Self::decoded(t)->Ok_0),
    ;

    /// A valid value that is written and decoded is itself again.
    proof fn lemma_round_trip(v: Self::V)
        requires
            Self::valid(v),
        ensures
            Self::decoded(Self::encoded(v)) == Ok::<Self::V, Failure>(v),
    ;
}

/// Whatever a tree decodes to, written and decoded again, is the same
/// value.
pub proof fn lemma_reencoded<T: Lossless>(t: Tree)
    requires
        T::decoded(t) is Ok,
    ensures
        T::decoded(T::encoded(T::decoded(t)->Ok_0)) == T::decoded(t),
{
    T::lemma_decoded_is_valid(t);
    T::lemma_round_trip(T::decoded(t)->Ok_0);
}

/// Whether every value of a sequence is valid.
pub open spec fn all_valid<T: Lossless>(vs: Seq<T::V>) -> bool {
    forall|i: int| 0 <= i < vs.len() ==> T::valid(#[trigger] vs[i])
}

/// What a sequence of trees decodes to is valid, value by value.
pub proof fn lemma_each_decoded_is_valid<T: Lossless>(l: Seq<Tree>)
    requires
        decode_each(l, |t: Tree| T::decoded(t)) is Ok,
    ensures
        all_valid::<T>(decode_each(l, |t: Tree| T::decoded(t))->Ok_0),
        decode_each(l, |t: Tree| T::decoded(t))->Ok_0.len() == l.len(),
    decreases l.len(),
{
    if l.len() > 0 {
        lemma_each_decoded_is_valid::<T>(l.drop_last());
        T::lemma_decoded_is_valid(l.last());
    }
}

/// A sequence of valid values that is written and decoded is itself again.
pub proof fn lemma_each_round_trip<T: Lossless>(vs: Seq<T::V>)
    requires
        all_valid::<T>(vs),
    ensures
        decode_each(encode_each::<T>(vs), |t: Tree| T::decoded(t)) == Ok::<Seq<T::V>, Failure>(vs),
{
    let enc = |v: T::V| T::encoded(v);
    let dec = |t: Tree| T::decoded(t);
    assert forall|i: int| 0 <= i < vs.len() implies dec(enc(#[trigger] vs[i])) == Ok::<T::V, Failure>(vs[i]) by {
        T::lemma_round_trip(vs[i]);
    }
    lemma_decode_each_inverse(vs, enc, dec);
}

/// The same for the children of a list after its first `from`.
pub proof fn lemma_rest_round_trip<T: Lossless>(head: Seq<Tree>, vs: Seq<T::V>)
    requires
        all_valid::<T>(vs),
    ensures
        decode_rest::<T>(head + encode_each::<T>(vs), head.len() as int) == Ok::<Seq<T::V>, Failure>(vs),
{
    lemma_each_round_trip::<T>(vs);
    assert((head + encode_each::<T>(vs)).skip(head.len() as int) =~= encode_each::<T>(vs));
}

/// What holds of the start and is kept by every child that is taken in
/// holds of the result.
pub proof fn lemma_fold_keeps<A>(
    l: Seq<Tree>,
    from: int,
    upto: int,
    init: A,
    step: spec_fn(A, Tree) -> Result<A, Failure>,
    inv: spec_fn(A) -> bool,
)
    requires
        inv(init),
        forall|a: A, t: Tree| inv(a) && #[trigger] step(a, t) is Ok ==> inv(step(a, t)->Ok_0),
        fold_upto(l, from, upto, init, step) is Ok,
    ensures
        inv(fold_upto(l, from, upto, init, step)->Ok_0),
    decreases upto - from,
{
    if upto > from {
        lemma_fold_keeps(l, from, upto - 1, init, step, inv);
    }
}

/// Folding on from a position where the value so far is known.
pub proof fn lemma_fold_from<A>(
    l: Seq<Tree>,
    from: int,
    mid: int,
    upto: int,
    init: A,
    step: spec_fn(A, Tree) -> Result<A, Failure>,
)
    requires
        from <= mid <= upto,
        fold_upto(l, from, mid, init, step) is Ok,
    ensures
        fold_upto(l, from, upto, init, step) == fold_upto(l, mid, upto, fold_upto(l, from, mid, init, step)->Ok_0, step),
    decreases upto - mid,
{
    if upto > mid {
        lemma_fold_from(l, from, mid, upto - 1, init, step);
    }
}

/// Where each child in turn takes one given state to the next, the fold
/// over the children takes the first state to the last.
pub proof fn lemma_fold_tracks<A>(
    l: Seq<Tree>,
    from: int,
    k: nat,
    step: spec_fn(A, Tree) -> Result<A, Failure>,
    states: spec_fn(int) -> A,
)
    requires
        forall|j: int| 0 <= j < k ==> step(#[trigger] states(j), l[from + j]) == Ok::<A, Failure>(states(j + 1)),
    ensures
        fold_upto(l, from, from + k, states(0), step) == Ok::<A, Failure>(states(k as int)),
    decreases k,
{
    if k > 0 {
        lemma_fold_tracks(l, from, (k - 1) as nat, step, states);
        assert(step(states(k - 1), l[from + (k - 1)]) == Ok::<A, Failure>(states(k - 1 + 1)));
    }
}

/// What holds of the start and is kept by every child of the list that is
/// taken in holds of the result.
pub proof fn lemma_fold_keeps_along<A>(
    l: Seq<Tree>,
    from: int,
    upto: int,
    init: A,
    step: spec_fn(A, Tree) -> Result<A, Failure>,
    inv: spec_fn(A) -> bool,
)
    requires
        inv(init),
        forall|a: A, j: int|
            from <= j < upto && inv(a) && #[trigger] step(a, l[j]) is Ok ==> inv(step(a, l[j])->Ok_0),
        fold_upto(l, from, upto, init, step) is Ok,
    ensures
        inv(fold_upto(l, from, upto, init, step)->Ok_0),
    decreases upto - from,
{
    if upto > from {
        lemma_fold_keeps_along(l, from, upto - 1, init, step, inv);
    }
}

/// The fold over a list with one more child at position `p`, as far as
/// `upto`: the fold over the list itself, one child less far once the new
/// child is passed.
proof fn lemma_fold_insert_upto<A>(
    l: Seq<Tree>,
    from: int,
    p: int,
    x: Tree,
    init: A,
    step: spec_fn(A, Tree) -> Result<A, Failure>,
    upto: int,
)
    requires
        0 <= from <= p <= l.len(),
        upto <= l.len() + 1,
        forall|a: A| #[trigger] step(a, x) == Ok::<A, Failure>(a),
    ensures
        fold_upto(l.insert(p, x), from, upto, init, step) == if upto <= p {
            fold_upto(l, from, upto, init, step)
        } else {
            fold_upto(l, from, upto - 1, init, step)
        },
    decreases upto - from,
{
    let m = l.insert(p, x);
    if upto > from {
        lemma_fold_insert_upto(l, from, p, x, init, step, upto - 1);
        if upto <= p {
            assert(m[upto - 1] == l[upto - 1]);
        } else if upto == p + 1 {
            assert(m[upto - 1] == x);
        } else {
            assert(m[upto - 1] == l[upto - 2]);
        }
    }
}

/// A child that changes nothing and never fails may stand anywhere among
/// the children that are taken in: the result is the same with it as
/// without it.
pub proof fn lemma_idle_child<T: FieldBag>(l: Seq<Tree>, from: int, p: int, x: Tree, init: T::V)
    requires
        0 <= from <= p <= l.len(),
        forall|a: T::V| #[trigger] T::with_child(a, x) == Ok::<T::V, Failure>(a),
    ensures
        filled::<T>(l.insert(p, x), from, init) == filled::<T>(l, from, init),
{
    let step = |a: T::V, c: Tree| T::with_child(a, c);
    assert forall|a: T::V| #[trigger] step(a, x) == Ok::<T::V, Failure>(a) by {
        assert(T::with_child(a, x) == Ok::<T::V, Failure>(a));
    }
    lemma_fold_insert_upto(l, from, p, x, init, step, l.len() as int + 1);
}

} // verus!
