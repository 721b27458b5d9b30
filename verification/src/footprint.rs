//! The geometry that boards share with footprints: points, point lists,
//! positions, layers.

use vstd::prelude::*;
use crate::codec::{
    append, append_each, append_nodes, atom, atoms, decode_each, decode_rest, decode_vec, duplicate_from,
    encode_each, FromSexp, IntoSexp, list, node, optional, start, views,
};
use crate::cursor::{
    as_text, decimal_at, decimal_field, head_of, lemma_head_names, list_head, list_of, named_list,
    text_at, text_field, text_of,
};
use crate::decimal::{Decimal, zero};
use crate::error::{agrees, DecodeError, ErrorKind, Failure};
use crate::lossless::{all_valid, lemma_each_decoded_is_valid, lemma_rest_round_trip, Lossless};
use crate::symbolic::atom_is_decimal;
use crate::text::str_eq;
use crate::tree::{forest, Node, Tree};

verus! {

/// What a pair of coordinates stands for.
#[derive(Clone, Copy, Debug, PartialEq, Eq, Structural)]
pub enum XyType {
    Xy,
    Start,
    End,
    Size,
    Center,
    RectDelta,
}

/// A pair of coordinates.
#[derive(Debug, PartialEq)]
pub struct Xy {
    pub x: Decimal,
    pub y: Decimal,
    pub t: XyType,
}

/// The value of an [`Xy`].
pub ghost struct XyView {
    pub x: Seq<char>,
    pub y: Seq<char>,
    pub t: XyType,
}

impl View for Xy {
    type V = XyView;

    open spec fn view(&self) -> XyView {
        XyView { x: self.x@, y: self.y@, t: self.t }
    }
}

/// The kind of coordinates that an element name announces.
pub open spec fn xy_kind(name: Seq<char>) -> Option<XyType> {
    if name == "xy"@ {
        Some(XyType::Xy)
    } else if name == "start"@ {
        Some(XyType::Start)
    } else if name == "end"@ {
        Some(XyType::End)
    } else if name == "size"@ {
        Some(XyType::Size)
    } else if name == "center"@ {
        Some(XyType::Center)
    } else if name == "rect_delta"@ {
        Some(XyType::RectDelta)
    } else {
        None
    }
}

/// The coordinates `0 0` of the given kind.
pub open spec fn empty_xy(t: XyType, field: Seq<char>) -> Result<XyView, Failure> {
    match zero(field) {
        Err(e) => Err(e),
        Ok(z) => Ok(XyView { x: z, y: z, t }),
    }
}

impl Xy {
    /// The coordinates `0 0` of the given kind.
    pub fn new_empty(t: XyType, field: &str) -> (r: Result<Xy, DecodeError>)
        ensures
            agrees(r, empty_xy(t, field@)),
    {
        let x = Decimal::zero(field)?;
        let y = Decimal::zero(field)?;
        Ok(Xy { x, y, t })
    }
}

impl FromSexp for Xy {
    /// `(kind x y)`, where the name tells the kind.
    open spec fn decoded(t: Tree) -> Result<XyView, Failure> {
        match list_head(t, "xy"@) {
            Err(e) => Err(e),
            Ok(name) => match xy_kind(name) {
                None => Err(Failure::unknown(name, t)),
                Some(kind) => {
                    let l = t->List_0;
                    let x = decimal_at(l, 1, "x"@);
                    let y = decimal_at(l, 2, "y"@);
                    if x is Err {
                        Err(x->Err_0)
                    } else if y is Err {
                        Err(y->Err_0)
                    } else {
                        Ok(XyView { x: x->Ok_0, y: y->Ok_0, t: kind })
                    }
                },
            },
        }
    }

    fn from_sexp(s: &Node) -> (r: Result<Xy, DecodeError>) {
        let name = head_of(s, "xy")?;
        let n = name.as_str();
        let t = if str_eq(n, "xy") {
            XyType::Xy
        } else if str_eq(n, "start") {
            XyType::Start
        } else if str_eq(n, "end") {
            XyType::End
        } else if str_eq(n, "size") {
            XyType::Size
        } else if str_eq(n, "center") {
            XyType::Center
        } else if str_eq(n, "rect_delta") {
            XyType::RectDelta
        } else {
            return Err(DecodeError::new(ErrorKind::UnknownField, n, s));
        };
        proof {
            lemma_head_names(s@, "xy"@);
        }
        let l = list_of(s, n)?;
        let x = decimal_field(l, 1, "x")?;
        let y = decimal_field(l, 2, "y")?;
        Ok(Xy { x, y, t })
    }
}

/// A list of points.
#[derive(Debug, PartialEq)]
pub struct Pts {
    pub elements: Vec<Xy>,
}

/// The value of a [`Pts`].
pub ghost struct PtsView {
    pub elements: Seq<XyView>,
}

impl View for Pts {
    type V = PtsView;

    open spec fn view(&self) -> PtsView {
        PtsView { elements: views(self.elements@) }
    }
}

impl FromSexp for Pts {
    /// `(pts point ..)`: every child after the name is a point.
    open spec fn decoded(t: Tree) -> Result<PtsView, Failure> {
        match named_list(t, "pts"@) {
            Err(e) => Err(e),
            Ok(l) => match decode_rest::<Xy>(l, 1) {
                Err(e) => Err(e),
                Ok(elements) => Ok(PtsView { elements }),
            },
        }
    }

    fn from_sexp(s: &Node) -> (r: Result<Pts, DecodeError>) {
        let l = list_of(s, "pts")?;
        let elements = decode_vec::<Xy>(l, 1)?;
        Ok(Pts { elements })
    }
}

/// A position, with a rotation where one is written.
#[derive(Debug, PartialEq)]
pub struct At {
    pub x: Decimal,
    pub y: Decimal,
    pub rot: Option<Decimal>,
}

/// The value of an [`At`].
pub ghost struct AtView {
    pub x: Seq<char>,
    pub y: Seq<char>,
    pub rot: Option<Seq<char>>,
}

impl View for At {
    type V = AtView;

    open spec fn view(&self) -> AtView {
        AtView {
            x: self.x@,
            y: self.y@,
            rot: match self.rot {
                Some(r) => Some(r@),
                None => None,
            },
        }
    }
}

/// The position `0 0` without a rotation.
pub open spec fn origin(field: Seq<char>) -> Result<AtView, Failure> {
    match zero(field) {
        Err(e) => Err(e),
        Ok(z) => Ok(AtView { x: z, y: z, rot: None }),
    }
}

impl At {
    /// The position `0 0` without a rotation.
    pub fn origin(field: &str) -> (r: Result<At, DecodeError>)
        ensures
            agrees(r, origin(field@)),
    {
        let x = Decimal::zero(field)?;
        let y = Decimal::zero(field)?;
        Ok(At { x, y, rot: None })
    }
}

impl FromSexp for At {
    /// `(at x y)` or `(at x y rotation)`.
    open spec fn decoded(t: Tree) -> Result<AtView, Failure> {
        match named_list(t, "at"@) {
            Err(e) => Err(e),
            Ok(l) => {
                let x = decimal_at(l, 1, "x"@);
                let y = decimal_at(l, 2, "y"@);
                let rot = decimal_at(l, 3, "rot"@);
                if x is Err {
                    Err(x->Err_0)
                } else if y is Err {
                    Err(y->Err_0)
                } else if l.len() == 3 {
                    Ok(AtView { x: x->Ok_0, y: y->Ok_0, rot: None })
                } else if rot is Err {
                    Err(rot->Err_0)
                } else if l.len() > 4 {
                    Err(Failure::structure("at"@, t))
                } else {
                    Ok(AtView { x: x->Ok_0, y: y->Ok_0, rot: Some(rot->Ok_0) })
                }
            },
        }
    }

    fn from_sexp(s: &Node) -> (r: Result<At, DecodeError>) {
        let l = list_of(s, "at")?;
        let x = decimal_field(l, 1, "x")?;
        let y = decimal_field(l, 2, "y")?;
        if l.len() == 3 {
            return Ok(At { x, y, rot: None });
        }
        let rot = decimal_field(l, 3, "rot")?;
        if l.len() > 4 {
            return Err(DecodeError::new(ErrorKind::Structure, "at", s));
        }
        Ok(At { x, y, rot: Some(rot) })
    }
}

/// A layer, by its name.
#[derive(Debug, PartialEq)]
pub struct Layer {
    pub name: String,
}

impl View for Layer {
    type V = Seq<char>;

    open spec fn view(&self) -> Seq<char> {
        self.name@
    }
}

/// The name that stands for a layer that was not given.
pub open spec fn default_layer() -> Seq<char> {
    "default"@
}

impl Layer {
    /// The layer that stands where none was given.
    pub fn default_layer() -> (l: Layer)
        ensures
            l@ == default_layer(),
    {
        Layer { name: "default".to_owned() }
    }

    /// The layer of the given name.
    pub fn from_string(name: &str) -> (l: Layer)
        ensures
            l@ == name@,
    {
        Layer { name: name.to_owned() }
    }
}

impl FromSexp for Layer {
    /// `(layer name)`.
    open spec fn decoded(t: Tree) -> Result<Seq<char>, Failure> {
        match named_list(t, "layer"@) {
            Err(e) => Err(e),
            Ok(l) => match text_at(l, 1, "layer"@) {
                Err(e) => Err(e),
                Ok(name) => if l.len() > 2 {
                    Err(Failure::structure("layer"@, t))
                } else {
                    Ok(name)
                },
            },
        }
    }

    fn from_sexp(s: &Node) -> (r: Result<Layer, DecodeError>) {
        let l = list_of(s, "layer")?;
        let name = text_field(l, 1, "layer")?;
        if l.len() > 2 {
            return Err(DecodeError::new(ErrorKind::Structure, "layer", s));
        }
        Ok(Layer::from_string(name.as_str()))
    }
}

/// A set of layers, in the order written.
#[derive(Debug, PartialEq)]
pub struct Layers {
    pub layers: Vec<Layer>,
}

impl View for Layers {
    type V = Seq<Seq<char>>;

    open spec fn view(&self) -> Seq<Seq<char>> {
        views(self.layers@)
    }
}

impl Layers {
    /// No layers.
    pub fn none() -> (l: Layers)
        ensures
            l@ == Seq::<Seq<char>>::empty(),
    {
        let l = Layers { layers: Vec::new() };
        assert(l@ =~= Seq::<Seq<char>>::empty());
        l
    }
}

impl FromSexp for Layers {
    /// `(layers name ..)`: every child after the name is a layer's name.
    open spec fn decoded(t: Tree) -> Result<Seq<Seq<char>>, Failure> {
        match named_list(t, "layers"@) {
            Err(e) => Err(e),
            Ok(l) => decode_each(l.skip(1), |c: Tree| as_text(c, "layers"@)),
        }
    }

    fn from_sexp(s: &Node) -> (r: Result<Layers, DecodeError>) {
        let v = list_of(s, "layers")?;
        let ghost f = |c: Tree| as_text(c, "layers"@);
        let ghost l = forest(v@).skip(1);
        let mut out: Vec<Layer> = Vec::new();
        let mut i: usize = 1;
        assert(l.take(0) =~= Seq::empty());
        assert(views(out@) =~= Seq::<Seq<char>>::empty());
        while i < v.len()
            invariant
                1 <= i <= v.len(),
                named_list(s@, "layers"@) == Ok::<Seq<Tree>, Failure>(forest(v@)),
                l == forest(v@).skip(1),
                f == (|c: Tree| as_text(c, "layers"@)),
                decode_each(l.take(i - 1), f) == Ok::<Seq<Seq<char>>, Failure>(views(out@)),
            decreases v.len() - i,
        {
            let ghost before = views(out@);
            assert(l.take(i as int).drop_last() =~= l.take(i - 1));
            assert(l.take(i as int).last() == v[i as int]@);
            match text_of(&v[i], "layers") {
                Ok(name) => {
                    out.push(Layer::from_string(name.as_str()));
                    assert(views(out@) =~= before.push(name@));
                },
                Err(e) => {
                    proof {
                        crate::codec::lemma_decode_each_fails(l, f, i as int);
                    }
                    return Err(e);
                },
            }
            i += 1;
        }
        assert(l.take(i - 1) =~= l);
        Ok(Layers { layers: out })
    }
}

/// The effects of a text, kept as they were written.
#[derive(Debug, PartialEq)]
pub struct Effects {
    /// The children of the `effects` list.
    pub fields: Vec<Node>,
}

impl View for Effects {
    type V = Seq<Tree>;

    open spec fn view(&self) -> Seq<Tree> {
        forest(self.fields@)
    }
}

impl Effects {
    /// No effects.
    pub fn none() -> (e: Effects)
        ensures
            e@ == Seq::<Tree>::empty(),
    {
        let e = Effects { fields: Vec::new() };
        assert(e@ =~= Seq::<Tree>::empty());
        e
    }
}

impl FromSexp for Effects {
    /// `(effects ..)`, with any children.
    open spec fn decoded(t: Tree) -> Result<Seq<Tree>, Failure> {
        match named_list(t, "effects"@) {
            Err(e) => Err(e),
            Ok(l) => Ok(l.skip(1)),
        }
    }

    fn from_sexp(s: &Node) -> (r: Result<Effects, DecodeError>) {
        let l = list_of(s, "effects")?;
        Ok(Effects { fields: duplicate_from(l, 1) })
    }
}

/// A footprint placed on the board, kept as it was written.
#[derive(Debug, PartialEq)]
pub struct Module {
    /// The children of the `module` list.
    pub fields: Vec<Node>,
}

impl View for Module {
    type V = Seq<Tree>;

    open spec fn view(&self) -> Seq<Tree> {
        forest(self.fields@)
    }
}

impl FromSexp for Module {
    /// `(module ..)`, with any children.
    open spec fn decoded(t: Tree) -> Result<Seq<Tree>, Failure> {
        match named_list(t, "module"@) {
            Err(e) => Err(e),
            Ok(l) => Ok(l.skip(1)),
        }
    }

    fn from_sexp(s: &Node) -> (r: Result<Module, DecodeError>) {
        let l = list_of(s, "module")?;
        Ok(Module { fields: duplicate_from(l, 1) })
    }
}

/// The element name that announces a kind of coordinates.
pub open spec fn xy_name(t: XyType) -> Seq<char> {
    match t {
        XyType::Xy => "xy"@,
        XyType::Start => "start"@,
        XyType::End => "end"@,
        XyType::Size => "size"@,
        XyType::Center => "center"@,
        XyType::RectDelta => "rect_delta"@,
    }
}

impl IntoSexp for Xy {
    open spec fn encoded(v: XyView) -> Tree {
        node(xy_name(v.t), seq![Tree::Atom(v.x), Tree::Atom(v.y)])
    }

    fn into_sexp(&self) -> (n: Node) {
        let name = match self.t {
            XyType::Xy => "xy",
            XyType::Start => "start",
            XyType::End => "end",
            XyType::Size => "size",
            XyType::Center => "center",
            XyType::RectDelta => "rect_delta",
        };
        let mut v = start(name);
        append(&mut v, atom(self.x.as_str()));
        append(&mut v, atom(self.y.as_str()));
        assert(forest(v@) =~= Self::encoded(self@)->List_0);
        list(v)
    }
}

impl IntoSexp for Pts {
    open spec fn encoded(v: PtsView) -> Tree {
        node("pts"@, encode_each::<Xy>(v.elements))
    }

    fn into_sexp(&self) -> (n: Node) {
        let mut v = start("pts");
        append_each::<Xy>(&mut v, &self.elements);
        list(v)
    }
}

impl IntoSexp for At {
    open spec fn encoded(v: AtView) -> Tree {
        node("at"@, seq![Tree::Atom(v.x), Tree::Atom(v.y)] + optional(v.rot, |r: Seq<char>| Tree::Atom(r)))
    }

    fn into_sexp(&self) -> (n: Node) {
        let mut v = start("at");
        append(&mut v, atom(self.x.as_str()));
        append(&mut v, atom(self.y.as_str()));
        match &self.rot {
            Some(r) => append(&mut v, atom(r.as_str())),
            None => {},
        }
        assert(forest(v@) =~= Self::encoded(self@)->List_0);
        list(v)
    }
}

impl IntoSexp for Layer {
    open spec fn encoded(v: Seq<char>) -> Tree {
        node("layer"@, seq![Tree::Atom(v)])
    }

    fn into_sexp(&self) -> (n: Node) {
        let mut v = start("layer");
        append(&mut v, atom(self.name.as_str()));
        assert(forest(v@) =~= Self::encoded(self@)->List_0);
        list(v)
    }
}

impl IntoSexp for Layers {
    open spec fn encoded(v: Seq<Seq<char>>) -> Tree {
        node("layers"@, atoms(v))
    }

    fn into_sexp(&self) -> (n: Node) {
        let mut v = start("layers");
        let mut i: usize = 0;
        while i < self.layers.len()
            invariant
                i <= self.layers.len(),
                forest(v@) =~= seq![Tree::Atom("layers"@)] + atoms(self@).take(i as int),
            decreases self.layers.len() - i,
        {
            append(&mut v, atom(self.layers[i].name.as_str()));
            i += 1;
        }
        assert(atoms(self@).take(i as int) =~= atoms(self@));
        list(v)
    }
}

impl IntoSexp for Effects {
    open spec fn encoded(v: Seq<Tree>) -> Tree {
        node("effects"@, v)
    }

    fn into_sexp(&self) -> (n: Node) {
        let mut v = start("effects");
        append_nodes(&mut v, &self.fields);
        list(v)
    }
}

impl IntoSexp for Module {
    open spec fn encoded(v: Seq<Tree>) -> Tree {
        node("module"@, v)
    }

    fn into_sexp(&self) -> (n: Node) {
        let mut v = start("module");
        append_nodes(&mut v, &self.fields);
        list(v)
    }
}

impl Lossless for Xy {
    /// Both coordinates read as numbers.
    open spec fn valid(v: XyView) -> bool {
        atom_is_decimal(v.x) && atom_is_decimal(v.y)
    }

    proof fn lemma_decoded_is_valid(t: Tree) {
    }

    proof fn lemma_round_trip(v: XyView) {
        reveal_strlit("xy");
        reveal_strlit("start");
        reveal_strlit("end");
        reveal_strlit("size");
        reveal_strlit("center");
        reveal_strlit("rect_delta");
        let t = Self::encoded(v);
        let l = t->List_0;
        assert("xy"@.len() == 2 && "start"@.len() == 5 && "end"@.len() == 3 && "size"@.len() == 4 && "center"@.len()
            == 6 && "rect_delta"@.len() == 10);
        assert(xy_kind(xy_name(v.t)) == Some(v.t));
        assert(l[0] == Tree::Atom(xy_name(v.t)));
        assert(l[1] == Tree::Atom(v.x));
        assert(l[2] == Tree::Atom(v.y));
    }
}

impl Lossless for Pts {
    /// Every point is valid.
    open spec fn valid(v: PtsView) -> bool {
        all_valid::<Xy>(v.elements)
    }

    proof fn lemma_decoded_is_valid(t: Tree) {
        lemma_each_decoded_is_valid::<Xy>(t->List_0.skip(1));
    }

    proof fn lemma_round_trip(v: PtsView) {
        lemma_rest_round_trip::<Xy>(seq![Tree::Atom("pts"@)], v.elements);
    }
}

impl Lossless for At {
    /// The coordinates and the rotation read as numbers.
    open spec fn valid(v: AtView) -> bool {
        &&& atom_is_decimal(v.x)
        &&& atom_is_decimal(v.y)
        &&& v.rot matches Some(r) ==> atom_is_decimal(r)
    }

    proof fn lemma_decoded_is_valid(t: Tree) {
    }

    proof fn lemma_round_trip(v: AtView) {
    }
}

impl Lossless for Layer {
    open spec fn valid(v: Seq<char>) -> bool {
        true
    }

    proof fn lemma_decoded_is_valid(t: Tree) {
    }

    proof fn lemma_round_trip(v: Seq<char>) {
    }
}

impl Lossless for Layers {
    open spec fn valid(v: Seq<Seq<char>>) -> bool {
        true
    }

    proof fn lemma_decoded_is_valid(t: Tree) {
    }

    proof fn lemma_round_trip(v: Seq<Seq<char>>) {
        let enc = |s: Seq<char>| Tree::Atom(s);
        let dec = |c: Tree| as_text(c, "layers"@);
        crate::codec::lemma_decode_each_inverse(v, enc, dec);
        assert(Self::encoded(v)->List_0.skip(1) =~= atoms(v));
    }
}

impl Lossless for Effects {
    open spec fn valid(v: Seq<Tree>) -> bool {
        true
    }

    proof fn lemma_decoded_is_valid(t: Tree) {
    }

    proof fn lemma_round_trip(v: Seq<Tree>) {
        assert(Self::encoded(v)->List_0.skip(1) =~= v);
    }
}

impl Lossless for Module {
    open spec fn valid(v: Seq<Tree>) -> bool {
        true
    }

    proof fn lemma_decoded_is_valid(t: Tree) {
    }

    proof fn lemma_round_trip(v: Seq<Tree>) {
        assert(Self::encoded(v)->List_0.skip(1) =~= v);
    }
}

} // verus!
