//! What it is to decode an entity from a tree and to encode it into one.

use vstd::prelude::*;
use crate::error::{agrees, DecodeError, Failure, KicadError};
use crate::symbolic::{error_text, node_of, parse_text, parsed};
use crate::tree::{forest, Node, Tree};

verus! {

/// The values of a sequence of entities, in order.
pub open spec fn views<T: View>(s: Seq<T>) -> Seq<T::V> {
    Seq::new(s.len(), |i: int| s[i]@)
}

/// The value of an optional entity.
pub open spec fn option_view<T: View>(o: Option<T>) -> Option<T::V> {
    match o {
        Some(x) => Some(x@),
        None => None,
    }
}

/// An entity that can be read from a tree.
pub trait FromSexp: Sized + View {
    /// What the tree `t` decodes to: the entity's value, or the first
    /// failure met.
    spec fn decoded(t: Tree) -> Result<Self::V, Failure>;

    /// Decodes `s`.
    fn from_sexp(s: &Node) -> (r: Result<Self, DecodeError>)
        ensures
            agrees(r, Self::decoded(s@)),
    ;
}

/// An entity that can be written as a tree.
pub trait IntoSexp: Sized + View {
    /// The tree of a value.
    spec fn encoded(v: Self::V) -> Tree;

    /// Encodes `self`.
    fn into_sexp(&self) -> (n: Node)
        ensures
            n@ == Self::encoded(self@),
    ;
}

/// Every tree of `l` decoded by `f`, in order: all the values, or the first
/// failure.
pub open spec fn decode_each<V>(l: Seq<Tree>, f: spec_fn(Tree) -> Result<V, Failure>) -> Result<Seq<V>, Failure>
    decreases l.len(),
{
    if l.len() == 0 {
        Ok(Seq::empty())
    } else {
        match decode_each(l.drop_last(), f) {
            Err(e) => Err(e),
            Ok(vs) => match f(l.last()) {
                Ok(v) => Ok(vs.push(v)),
                Err(e) => Err(e),
            },
        }
    }
}

/// The children of `l` from position `from` on, each decoded as a `T`.
pub open spec fn decode_rest<T: FromSexp>(l: Seq<Tree>, from: int) -> Result<Seq<T::V>, Failure> {
    decode_each(l.skip(from), |t: Tree| T::decoded(t))
}

/// Decodes the nodes of `v` from position `from` on, each as a `T`.
pub fn decode_vec<T: FromSexp>(v: &Vec<Node>, from: usize) -> (r: Result<Vec<T>, DecodeError>)
    requires
        from <= v.len(),
    ensures
        match r {
            Ok(out) => decode_rest::<T>(forest(v@), from as int) == Ok::<Seq<T::V>, Failure>(views(out@)),
            Err(e) => decode_rest::<T>(forest(v@), from as int) == Err::<Seq<T::V>, Failure>(e@),
        },
{
    let ghost f = |t: Tree| T::decoded(t);
    let ghost l = forest(v@).skip(from as int);
    let mut out: Vec<T> = Vec::new();
    let mut i: usize = from;
    assert(l.take(0) =~= Seq::empty());
    assert(views(out@) =~= Seq::<T::V>::empty());
    while i < v.len()
        invariant
            from <= i <= v.len(),
            l == forest(v@).skip(from as int),
            f == (|t: Tree| T::decoded(t)),
            decode_each(l.take(i - from), f) == Ok::<Seq<T::V>, Failure>(views(out@)),
        decreases v.len() - i,
    {
        let ghost before = views(out@);
        assert(l.take(i - from + 1).drop_last() =~= l.take(i - from));
        assert(l.take(i - from + 1).last() == v[i as int]@);
        match T::from_sexp(&v[i]) {
            Ok(x) => {
                out.push(x);
                assert(views(out@) =~= before.push(x@));
            },
            Err(e) => {
                proof {
                    lemma_decode_each_fails(l, f, i - from + 1);
                }
                return Err(e);
            },
        }
        i += 1;
    }
    assert(l.take(i - from) =~= l);
    Ok(out)
}

/// A failure among the first `n` trees is the failure of the whole.
pub proof fn lemma_decode_each_fails<V>(l: Seq<Tree>, f: spec_fn(Tree) -> Result<V, Failure>, n: int)
    requires
        0 <= n <= l.len(),
        decode_each(l.take(n), f) is Err,
    ensures
        decode_each(l, f) == decode_each(l.take(n), f),
    decreases l.len() - n,
{
    if n < l.len() {
        assert(l.take(n + 1).drop_last() =~= l.take(n));
        lemma_decode_each_fails(l, f, n + 1);
    } else {
        assert(l.take(n) =~= l);
    }
}

/// The pair `(name value)`.
pub open spec fn pair(name: Seq<char>, value: Seq<char>) -> Tree {
    Tree::List(seq![Tree::Atom(name), Tree::Atom(value)])
}

/// The pair `(name value)`.
pub fn pair_node(name: &str, value: &str) -> (n: Node)
    ensures
        n@ == pair(name@, value@),
{
    let mut v: Vec<Node> = Vec::new();
    v.push(Node::Atom(name.to_owned()));
    v.push(Node::Atom(value.to_owned()));
    proof {
        crate::tree::lemma_list_view(v);
        assert(forest(v@) =~= seq![Tree::Atom(name@), Tree::Atom(value@)]);
    }
    Node::List(v)
}

/// Decoding undoes encoding on a whole sequence where it does on each of its
/// values.
pub proof fn lemma_decode_each_inverse<V>(
    vs: Seq<V>,
    enc: spec_fn(V) -> Tree,
    dec: spec_fn(Tree) -> Result<V, Failure>,
)
    requires
        forall|i: int| 0 <= i < vs.len() ==> dec(enc(#[trigger] vs[i])) == Ok::<V, Failure>(vs[i]),
    ensures
        decode_each(vs.map_values(enc), dec) == Ok::<Seq<V>, Failure>(vs),
    decreases vs.len(),
{
    let l = vs.map_values(enc);
    if vs.len() > 0 {
        assert(l.drop_last() =~= vs.drop_last().map_values(enc));
        lemma_decode_each_inverse(vs.drop_last(), enc, dec);
        assert(l.last() == enc(vs.last()));
        assert(vs.drop_last().push(vs.last()) =~= vs);
    } else {
        assert(vs =~= Seq::empty());
    }
}

/// The children of `l` at positions `from` up to `upto`, applied in order to
/// a value that starts as `init`: the value after the last, or the first
/// failure.
pub open spec fn fold_upto<A>(
    l: Seq<Tree>,
    from: int,
    upto: int,
    init: A,
    step: spec_fn(A, Tree) -> Result<A, Failure>,
) -> Result<A, Failure>
    decreases upto - from,
{
    if upto <= from {
        Ok(init)
    } else {
        match fold_upto(l, from, upto - 1, init, step) {
            Err(e) => Err(e),
            Ok(a) => step(a, l[upto - 1]),
        }
    }
}

/// Once a child has failed, the children after it change nothing.
pub proof fn lemma_fold_fails<A>(
    l: Seq<Tree>,
    from: int,
    n: int,
    m: int,
    init: A,
    step: spec_fn(A, Tree) -> Result<A, Failure>,
)
    requires
        from < n <= m,
        fold_upto(l, from, n, init, step) is Err,
    ensures
        fold_upto(l, from, m, init, step) == fold_upto(l, from, n, init, step),
    decreases m - n,
{
    if n < m {
        lemma_fold_fails(l, from, n, m - 1, init, step);
    }
}

/// Copies of the nodes of `v` from position `from` on.
pub fn duplicate_from(v: &Vec<Node>, from: usize) -> (out: Vec<Node>)
    requires
        from <= v.len(),
    ensures
        forest(out@) == forest(v@).skip(from as int),
{
    let mut out: Vec<Node> = Vec::new();
    let mut i: usize = from;
    while i < v.len()
        invariant
            from <= i <= v.len(),
            out.len() == i - from,
            forall|j: int| 0 <= j < i - from ==> out[j]@ == v[j + from]@,
        decreases v.len() - i,
    {
        out.push(v[i].duplicate());
        i += 1;
    }
    assert(forest(out@) =~= forest(v@).skip(from as int));
    out
}

/// A result with `f` applied to its value.
pub open spec fn lift<A, B>(r: Result<A, Failure>, f: spec_fn(A) -> B) -> Result<B, Failure> {
    match r {
        Ok(a) => Ok(f(a)),
        Err(e) => Err(e),
    }
}

/// The child at position `p`, decoded as a `T`.
pub open spec fn decode_at<T: FromSexp>(l: Seq<Tree>, p: int, field: Seq<char>) -> Result<T::V, Failure> {
    if 0 <= p < l.len() {
        T::decoded(l[p])
    } else {
        Err(Failure::missing(field, Tree::List(l)))
    }
}

/// Decodes the child at position `p` as a `T`.
pub fn decode_field<T: FromSexp>(v: &Vec<Node>, p: usize, field: &str) -> (r: Result<T, DecodeError>)
    ensures
        agrees(r, decode_at::<T>(forest(v@), p as int, field@)),
{
    if p < v.len() {
        T::from_sexp(&v[p])
    } else {
        Err(DecodeError::in_list(crate::error::ErrorKind::MissingField, field, v))
    }
}

/// An entity that is assembled from children in any order: it starts from
/// defaults, and each child in turn changes it or fails.
pub trait FieldBag: Sized + View {
    /// The value `acc` once the child `t` is taken in.
    spec fn with_child(acc: Self::V, t: Tree) -> Result<Self::V, Failure>;

    /// Takes the child in.
    fn put(&mut self, child: &Node) -> (r: Result<(), DecodeError>)
        ensures
            match r {
                Ok(_) => Self::with_child(old(self)@, child@) == Ok::<Self::V, Failure>(final(self)@),
                Err(e) => Self::with_child(old(self)@, child@) == Err::<Self::V, Failure>(e@),
            },
    ;
}

/// The named list `l` from position `from` on, taken in by `init` child
/// after child.
pub open spec fn filled<T: FieldBag>(l: Seq<Tree>, from: int, init: T::V) -> Result<T::V, Failure> {
    fold_upto(l, from, l.len() as int, init, |a: T::V, c: Tree| T::with_child(a, c))
}

/// Takes the children of `v` from position `from` on into `init`, in order.
pub fn fill_from<T: FieldBag>(init: T, v: &Vec<Node>, from: usize) -> (r: Result<T, DecodeError>)
    requires
        from <= v.len(),
    ensures
        agrees(r, filled::<T>(forest(v@), from as int, init@)),
{
    let ghost step = |a: T::V, c: Tree| T::with_child(a, c);
    let ghost l = forest(v@);
    let ghost start = init@;
    let mut acc = init;
    let mut i: usize = from;
    while i < v.len()
        invariant
            from <= i <= v.len(),
            l == forest(v@),
            start == init@,
            step == (|a: T::V, c: Tree| T::with_child(a, c)),
            fold_upto(l, from as int, i as int, start, step) == Ok::<T::V, Failure>(acc@),
        decreases v.len() - i,
    {
        match acc.put(&v[i]) {
            Ok(_) => {},
            Err(e) => {
                proof {
                    assert(fold_upto(l, from as int, i + 1, start, step) == Err::<T::V, Failure>(e@));
                    lemma_fold_fails(l, from as int, i + 1, l.len() as int, start, step);
                }
                return Err(e);
            },
        }
        i += 1;
    }
    Ok(acc)
}

/// Whether `r` is what reading a `T` gives where the text was read into the
/// tree `tree`, or into none: the entity that the tree decodes to; the
/// failure of decoding it; or, where there is no tree, the error of parsing.
pub open spec fn reads_as<T: FromSexp>(r: Result<T, KicadError>, tree: Option<Tree>) -> bool {
    match r {
        Ok(v) => tree is Some && T::decoded(tree->Some_0) == Ok::<T::V, Failure>(v@),
        Err(KicadError::Parse(_)) => tree is None,
        Err(KicadError::Decode(e)) => tree is Some && T::decoded(tree->Some_0) == Err::<T::V, Failure>(e@),
        Err(_) => false,
    }
}

/// Decodes a tree that was read from a text, or reports that the text was
/// not read; `message` is then what the parser said.
pub fn decode_parsed<T: FromSexp>(tree: Result<Node, String>) -> (r: Result<T, KicadError>)
    ensures
        reads_as::<T>(
            r,
            match tree {
                Ok(n) => Some(n@),
                Err(_) => None,
            },
        ),
{
    match tree {
        Err(message) => Err(KicadError::Parse(message)),
        Ok(node) => match T::from_sexp(&node) {
            Ok(v) => Ok(v),
            Err(e) => Err(KicadError::Decode(e)),
        },
    }
}

/// Reads a text into a tree.
pub fn parse_node(text: &str) -> (r: Result<Node, String>)
    ensures
        match r {
            Ok(n) => parsed(text@) == Some(n@),
            Err(_) => parsed(text@) is None,
        },
{
    match parse_text(text) {
        Ok(s) => Ok(node_of(&s)),
        Err(e) => Err(error_text(&e)),
    }
}

/// Reads a `T` from a text.
pub fn decode_text<T: FromSexp>(text: &str) -> (r: Result<T, KicadError>)
    ensures
        reads_as::<T>(r, parsed(text@)),
{
    decode_parsed::<T>(parse_node(text))
}

/// The list `(name child ..)`.
pub open spec fn node(name: Seq<char>, children: Seq<Tree>) -> Tree {
    Tree::List(seq![Tree::Atom(name)] + children)
}

/// The trees of a sequence of atoms.
pub open spec fn atoms(texts: Seq<Seq<char>>) -> Seq<Tree> {
    texts.map_values(|s: Seq<char>| Tree::Atom(s))
}

/// One tree where there is a value, none where there is not.
pub open spec fn optional<A>(o: Option<A>, f: spec_fn(A) -> Tree) -> Seq<Tree> {
    match o {
        Some(x) => seq![f(x)],
        None => Seq::empty(),
    }
}

/// The trees of a sequence of entities.
pub open spec fn encode_each<T: IntoSexp>(vs: Seq<T::V>) -> Seq<Tree> {
    vs.map_values(|v: T::V| T::encoded(v))
}

/// An atom.
pub fn atom(text: &str) -> (n: Node)
    ensures
        n@ == Tree::Atom(text@),
{
    Node::Atom(text.to_owned())
}

/// The list of the given children.
pub fn list(children: Vec<Node>) -> (n: Node)
    ensures
        n@ == Tree::List(forest(children@)),
{
    proof {
        crate::tree::lemma_list_view(children);
    }
    Node::List(children)
}

/// A list that so far holds only its name.
pub fn start(name: &str) -> (v: Vec<Node>)
    ensures
        forest(v@) == seq![Tree::Atom(name@)],
{
    let mut v: Vec<Node> = Vec::new();
    v.push(atom(name));
    assert(forest(v@) =~= seq![Tree::Atom(name@)]);
    v
}

/// Adds a child at the end.
pub fn append(v: &mut Vec<Node>, child: Node)
    ensures
        forest(final(v)@) == forest(old(v)@).push(child@),
{
    v.push(child);
    assert(forest(v@) =~= forest(old(v)@).push(child@));
}

/// Adds the trees of the given entities at the end.
pub fn append_each<T: IntoSexp>(v: &mut Vec<Node>, items: &Vec<T>)
    ensures
        forest(final(v)@) == forest(old(v)@) + encode_each::<T>(views(items@)),
{
    let ghost before = forest(v@);
    let mut i: usize = 0;
    assert(encode_each::<T>(views(items@)).take(0) =~= Seq::empty());
    assert(forest(v@) =~= before + Seq::<Tree>::empty());
    while i < items.len()
        invariant
            i <= items.len(),
            forest(v@) == before + encode_each::<T>(views(items@)).take(i as int),
        decreases items.len() - i,
    {
        let ghost so_far = forest(v@);
        let child = items[i].into_sexp();
        append(v, child);
        assert(encode_each::<T>(views(items@)).take(i + 1) =~= encode_each::<T>(views(items@)).take(i as int).push(
            child@,
        ));
        assert(forest(v@) =~= before + encode_each::<T>(views(items@)).take(i + 1));
        i += 1;
    }
    assert(encode_each::<T>(views(items@)).take(i as int) =~= encode_each::<T>(views(items@)));
}

/// Adds copies of the given nodes at the end.
pub fn append_nodes(v: &mut Vec<Node>, items: &Vec<Node>)
    ensures
        forest(final(v)@) == forest(old(v)@) + forest(items@),
{
    let ghost before = forest(v@);
    let mut i: usize = 0;
    assert(forest(v@) =~= before + forest(items@).take(0));
    while i < items.len()
        invariant
            i <= items.len(),
            forest(v@) == before + forest(items@).take(i as int),
        decreases items.len() - i,
    {
        append(v, items[i].duplicate());
        assert(forest(v@) =~= before + forest(items@).take(i + 1));
        i += 1;
    }
    assert(forest(items@).take(i as int) =~= forest(items@));
}

} // verus!
