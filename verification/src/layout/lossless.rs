//! Boards are written without loss: whatever a tree decodes to, written and
//! decoded again, is the same value.

use vstd::prelude::*;
use crate::footprint;
use crate::codec::{encode_each, FieldBag, filled, fold_upto, FromSexp, IntoSexp, node, pair};
use crate::cursor::{list_head, named_text_at};
use crate::decimal::zero;
use crate::error::Failure;
use crate::footprint::{At, AtView, Effects, Layers, Module, Pts, PtsView, Xy, XyView};
use crate::integer::{lemma_zero_reads, zero_int};
use crate::layout::data::{
    Area, AreaView, ConnectPads, ConnectPadsView, Dimension, DimensionView, Element, ElementView, Fill,
    FillView, General, GeneralView, GrArc, GrArcView, GrCircle, GrCircleView, GrElement, GrElementView,
    GrLine, GrLineView, GrText, GrTextView, Hatch, HatchView, Host, HostView, Keepout, Layer, LayerType,
    LayerView, Layout, LayoutView, Net, NetClass, NetClassView, NetView, Segment, SegmentView, Setup,
    SetupElement, SetupElementView, SetupView, Via, ViaView, Zone, ZoneView,
};
use crate::layout::de::{allowed, bare_layout, bare_net_class, bare_setup, decoded_outline, known_field};
use crate::layout::ser::{encoded_outline, permission};
use crate::lossless::{
    all_valid, lemma_each_decoded_is_valid, lemma_fold_from, lemma_fold_keeps, lemma_fold_tracks,
    lemma_idle_child, lemma_rest_round_trip, Lossless,
};
use crate::names::lemma_marks;
use crate::symbolic::{atom_int, atom_is_decimal};
use crate::tree::Tree;

verus! {

impl Lossless for Net {
    /// The number reads as an integer.
    open spec fn valid(v: NetView) -> bool {
        atom_int(v.num) is Some
    }

    proof fn lemma_decoded_is_valid(t: Tree) {
    }

    proof fn lemma_round_trip(v: NetView) {
    }
}

impl Lossless for Host {
    open spec fn valid(v: HostView) -> bool {
        true
    }

    proof fn lemma_decoded_is_valid(t: Tree) {
    }

    proof fn lemma_round_trip(v: HostView) {
    }
}

impl Lossless for Area {
    /// The four coordinates read as numbers.
    open spec fn valid(v: AreaView) -> bool {
        atom_is_decimal(v.x1) && atom_is_decimal(v.y1) && atom_is_decimal(v.x2) && atom_is_decimal(v.y2)
    }

    proof fn lemma_decoded_is_valid(t: Tree) {
    }

    proof fn lemma_round_trip(v: AreaView) {
    }
}

impl Lossless for General {
    /// The counts read as integers, the thickness as a number, and the
    /// area is valid.
    open spec fn valid(v: GeneralView) -> bool {
        &&& atom_int(v.links) is Some
        &&& atom_int(v.no_connects) is Some
        &&& Area::valid(v.area)
        &&& atom_is_decimal(v.thickness)
        &&& atom_int(v.drawings) is Some
        &&& atom_int(v.tracks) is Some
        &&& atom_int(v.zones) is Some
        &&& atom_int(v.modules) is Some
        &&& atom_int(v.nets) is Some
    }

    proof fn lemma_decoded_is_valid(t: Tree) {
        Area::lemma_decoded_is_valid(t->List_0[3]);
    }

    proof fn lemma_round_trip(v: GeneralView) {
        Area::lemma_round_trip(v.area);
    }
}

impl Lossless for LayerType {
    open spec fn valid(v: LayerType) -> bool {
        true
    }

    proof fn lemma_decoded_is_valid(t: Tree) {
    }

    proof fn lemma_round_trip(v: LayerType) {
        lemma_marks();
    }
}

impl Lossless for Layer {
    /// The number reads as an integer.
    open spec fn valid(v: LayerView) -> bool {
        atom_int(v.num) is Some
    }

    proof fn lemma_decoded_is_valid(t: Tree) {
    }

    proof fn lemma_round_trip(v: LayerView) {
        LayerType::lemma_round_trip(v.layer_type);
    }
}

impl Lossless for SetupElement {
    open spec fn valid(v: SetupElementView) -> bool {
        true
    }

    proof fn lemma_decoded_is_valid(t: Tree) {
    }

    proof fn lemma_round_trip(v: SetupElementView) {
    }
}

impl Lossless for Hatch {
    /// The pitch reads as a number.
    open spec fn valid(v: HatchView) -> bool {
        atom_is_decimal(v.pitch)
    }

    proof fn lemma_decoded_is_valid(t: Tree) {
    }

    proof fn lemma_round_trip(v: HatchView) {
    }
}

impl Lossless for ConnectPads {
    /// The clearance reads as a number.
    open spec fn valid(v: ConnectPadsView) -> bool {
        atom_is_decimal(v.clearance)
    }

    proof fn lemma_decoded_is_valid(t: Tree) {
    }

    proof fn lemma_round_trip(v: ConnectPadsView) {
    }
}

/// A flag that is written reads as itself: `not_allowed` forbids and
/// `allowed` allows.
pub proof fn lemma_permission(flag: bool)
    ensures
        allowed(permission(flag)) == flag,
{
    reveal_strlit("not");
    reveal_strlit("allowed");
    reveal_strlit("not_allowed");
    if flag {
        assert("allowed"@.subrange(0, 3)[0] != "not"@[0]);
    } else {
        assert("not_allowed"@.subrange(0, 3) =~= "not"@);
    }
}

impl Lossless for Keepout {
    open spec fn valid(v: Keepout) -> bool {
        true
    }

    proof fn lemma_decoded_is_valid(t: Tree) {
    }

    proof fn lemma_round_trip(v: Keepout) {
        lemma_permission(v.tracks);
        lemma_permission(v.vias);
        lemma_permission(v.copperpour);
    }
}

impl Lossless for Fill {
    /// The number of segments reads as an integer; the gap, the width of
    /// the bridges and the corner radius read as numbers.
    open spec fn valid(v: FillView) -> bool {
        &&& atom_int(v.arc_segments) is Some
        &&& atom_is_decimal(v.thermal_gap)
        &&& atom_is_decimal(v.thermal_bridge_width)
        &&& atom_is_decimal(v.corner_radius)
    }

    proof fn lemma_decoded_is_valid(t: Tree) {
    }

    #[verifier::rlimit(50)]
    proof fn lemma_round_trip(v: FillView) {
        lemma_marks();
        let l = Self::encoded(v)->List_0;
        let p: int = if v.filled {
            2
        } else {
            1
        };
        let q: int = if v.segment {
            p + 1
        } else {
            p
        };
        if v.filled {
            assert(l[1] == Tree::Atom("yes"@));
        }
        if v.segment {
            assert(l[p] == pair("mode"@, "segment"@));
        }
        assert(l[q] == pair("arc_segments"@, v.arc_segments));
        assert(l[q + 1] == pair("thermal_gap"@, v.thermal_gap));
        assert(l[q + 2] == pair("thermal_bridge_width"@, v.thermal_bridge_width));
        if v.smoothing is Some {
            assert(l[q + 3] == pair("smoothing"@, v.smoothing->Some_0));
            assert(l[q + 4] == pair("radius"@, v.corner_radius));
        } else {
            assert(l[q + 3] == pair("radius"@, v.corner_radius));
        }
    }
}

/// What holds of every field that a tree decodes to: its numbers read as
/// numbers, and a point is of the kind that the field's name announces.
pub open spec fn valid_field(e: GrElementView) -> bool {
    match e {
        GrElementView::Start(x) => Xy::valid(x) && x.t is Start,
        GrElementView::End(x) => Xy::valid(x) && x.t is End,
        GrElementView::Center(x) => Xy::valid(x) && x.t is Center,
        GrElementView::Angle(x) => atom_is_decimal(x),
        GrElementView::Layer(_) => true,
        GrElementView::Width(x) => atom_is_decimal(x),
        GrElementView::Size(x) => atom_is_decimal(x),
        GrElementView::Drill(x) => atom_is_decimal(x),
        GrElementView::TStamp(_) => true,
        GrElementView::Status(_) => true,
        GrElementView::Net(x) => atom_int(x) is Some,
        GrElementView::At(x) => At::valid(x),
        GrElementView::Layers(_) => true,
        GrElementView::Effects(_) => true,
    }
}

/// A field that a tree decodes to is valid.
pub proof fn lemma_field_is_valid(t: Tree)
    requires
        GrElement::decoded(t) is Ok,
    ensures
        valid_field(GrElement::decoded(t)->Ok_0),
{
    lemma_marks();
    let name = list_head(t, "element"@)->Ok_0;
    if name == "start"@ || name == "end"@ || name == "center"@ {
        Xy::lemma_decoded_is_valid(t);
    } else if name == "at"@ {
        At::lemma_decoded_is_valid(t);
    }
}

/// A point as it is written, read as a field.
pub proof fn lemma_point_read(x: XyView)
    requires
        Xy::valid(x),
    ensures
        x.t is Start ==> GrElement::decoded(Xy::encoded(x)) == Ok::<GrElementView, Failure>(GrElementView::Start(x)),
        x.t is End ==> GrElement::decoded(Xy::encoded(x)) == Ok::<GrElementView, Failure>(GrElementView::End(x)),
        x.t is Center ==> GrElement::decoded(Xy::encoded(x)) == Ok::<GrElementView, Failure>(
            GrElementView::Center(x),
        ),
{
    lemma_marks();
    Xy::lemma_round_trip(x);
    assert(Xy::encoded(x)->List_0[0] == Tree::Atom(footprint::xy_name(x.t)));
}

/// A layer as it is written, read as a field.
pub proof fn lemma_layer_read(layer: Seq<char>)
    ensures
        GrElement::decoded(footprint::Layer::encoded(layer)) == Ok::<GrElementView, Failure>(
            GrElementView::Layer(layer),
        ),
{
    lemma_marks();
    footprint::Layer::lemma_round_trip(layer);
}

/// A number as it is written under each of the names of numbers, read as a
/// field.
pub proof fn lemma_number_read(number: Seq<char>)
    requires
        atom_is_decimal(number),
    ensures
        GrElement::decoded(pair("angle"@, number)) == Ok::<GrElementView, Failure>(GrElementView::Angle(number)),
        GrElement::decoded(pair("width"@, number)) == Ok::<GrElementView, Failure>(GrElementView::Width(number)),
        GrElement::decoded(pair("size"@, number)) == Ok::<GrElementView, Failure>(GrElementView::Size(number)),
        GrElement::decoded(pair("drill"@, number)) == Ok::<GrElementView, Failure>(GrElementView::Drill(number)),
{
    lemma_marks();
}

/// A text as it is written under each of the names of texts, read as a
/// field.
pub proof fn lemma_text_read(text: Seq<char>)
    ensures
        GrElement::decoded(pair("tstamp"@, text)) == Ok::<GrElementView, Failure>(GrElementView::TStamp(text)),
        GrElement::decoded(pair("status"@, text)) == Ok::<GrElementView, Failure>(GrElementView::Status(text)),
{
    lemma_marks();
}

/// The number of a net as it is written, read as a field.
pub proof fn lemma_net_read(net: Seq<char>)
    requires
        atom_int(net) is Some,
    ensures
        GrElement::decoded(pair("net"@, net)) == Ok::<GrElementView, Failure>(GrElementView::Net(net)),
{
    lemma_marks();
}

/// A position as it is written, read as a field.
pub proof fn lemma_at_read(at: AtView)
    requires
        At::valid(at),
    ensures
        GrElement::decoded(At::encoded(at)) == Ok::<GrElementView, Failure>(GrElementView::At(at)),
{
    lemma_marks();
    At::lemma_round_trip(at);
    assert(At::encoded(at)->List_0[0] == Tree::Atom("at"@));
}

/// A set of layers as it is written, read as a field.
pub proof fn lemma_layers_read(layers: Seq<Seq<char>>)
    ensures
        GrElement::decoded(Layers::encoded(layers)) == Ok::<GrElementView, Failure>(GrElementView::Layers(layers)),
{
    lemma_marks();
    Layers::lemma_round_trip(layers);
    assert(Layers::encoded(layers)->List_0[0] == Tree::Atom("layers"@));
}

/// Effects as they are written, read as a field.
pub proof fn lemma_effects_read(effects: Seq<Tree>)
    ensures
        GrElement::decoded(Effects::encoded(effects)) == Ok::<GrElementView, Failure>(
            GrElementView::Effects(effects),
        ),
{
    lemma_marks();
    Effects::lemma_round_trip(effects);
    assert(Effects::encoded(effects)->List_0[0] == Tree::Atom("effects"@));
}

/// What holds of the fields of a line.
pub open spec fn valid_line(v: GrLineView) -> bool {
    &&& Xy::valid(v.start) && v.start.t is Start
    &&& Xy::valid(v.end) && v.end.t is End
    &&& atom_is_decimal(v.angle)
    &&& atom_is_decimal(v.width)
}

impl Lossless for GrLine {
    /// The points are valid and of their kinds, the numbers read as
    /// numbers, and so does zero.
    open spec fn valid(v: GrLineView) -> bool {
        valid_line(v) && zero("angle"@) is Ok
    }

    proof fn lemma_decoded_is_valid(t: Tree) {
        let l = t->List_0;
        let init = crate::layout::de::bare_line()->Ok_0;
        let step = |a: GrLineView, c: Tree| GrLine::with_child(a, c);
        let inv = |a: GrLineView| valid_line(a);
        assert forall|a: GrLineView, c: Tree| inv(a) && #[trigger] step(a, c) is Ok implies inv(step(a, c)->Ok_0) by {
            if GrElement::decoded(c) is Ok {
                lemma_field_is_valid(c);
            }
        }
        lemma_fold_keeps(l, 1, l.len() as int, init, step, inv);
    }

    #[verifier::rlimit(50)]
    proof fn lemma_round_trip(v: GrLineView) {
        let l = Self::encoded(v)->List_0;
        let step = |a: GrLineView, c: Tree| GrLine::with_child(a, c);
        let a0 = crate::layout::de::bare_line()->Ok_0;
        let a1 = GrLineView { start: v.start, ..a0 };
        let a2 = GrLineView { end: v.end, ..a1 };
        let a3 = GrLineView { angle: v.angle, ..a2 };
        let a4 = GrLineView { layer: v.layer, ..a3 };
        let a5 = GrLineView { width: v.width, ..a4 };
        lemma_point_read(v.start);
        lemma_point_read(v.end);
        lemma_layer_read(v.layer);
        lemma_number_read(v.angle);
        lemma_number_read(v.width);
        assert(l[1] == Xy::encoded(v.start));
        assert(l[2] == Xy::encoded(v.end));
        assert(l[3] == pair("angle"@, v.angle));
        assert(l[4] == footprint::Layer::encoded(v.layer));
        assert(l[5] == pair("width"@, v.width));
        assert(fold_upto(l, 1, 1, a0, step) == Ok::<GrLineView, Failure>(a0));
        assert(fold_upto(l, 1, 2, a0, step) == Ok::<GrLineView, Failure>(a1));
        assert(fold_upto(l, 1, 3, a0, step) == Ok::<GrLineView, Failure>(a2));
        assert(fold_upto(l, 1, 4, a0, step) == Ok::<GrLineView, Failure>(a3));
        assert(fold_upto(l, 1, 5, a0, step) == Ok::<GrLineView, Failure>(a4));
        assert(fold_upto(l, 1, 6, a0, step) == Ok::<GrLineView, Failure>(a5));
        if v.tstamp is Some {
            assert(l[6] == pair("tstamp"@, v.tstamp->Some_0));
            lemma_text_read(v.tstamp->Some_0);
        }
    }
}

/// What holds of the fields of an arc.
pub open spec fn valid_arc(v: GrArcView) -> bool {
    &&& Xy::valid(v.start) && v.start.t is Start
    &&& Xy::valid(v.end) && v.end.t is End
    &&& atom_is_decimal(v.angle)
    &&& atom_is_decimal(v.width)
}

impl Lossless for GrArc {
    /// The points are valid and of their kinds, the numbers read as
    /// numbers, and so does zero.
    open spec fn valid(v: GrArcView) -> bool {
        valid_arc(v) && zero("angle"@) is Ok
    }

    proof fn lemma_decoded_is_valid(t: Tree) {
        let l = t->List_0;
        let init = crate::layout::de::bare_arc()->Ok_0;
        let step = |a: GrArcView, c: Tree| GrArc::with_child(a, c);
        let inv = |a: GrArcView| valid_arc(a);
        assert forall|a: GrArcView, c: Tree| inv(a) && #[trigger] step(a, c) is Ok implies inv(step(a, c)->Ok_0) by {
            if GrElement::decoded(c) is Ok {
                lemma_field_is_valid(c);
            }
        }
        lemma_fold_keeps(l, 1, l.len() as int, init, step, inv);
    }

    #[verifier::rlimit(50)]
    proof fn lemma_round_trip(v: GrArcView) {
        let l = Self::encoded(v)->List_0;
        let step = |a: GrArcView, c: Tree| GrArc::with_child(a, c);
        let a0 = crate::layout::de::bare_arc()->Ok_0;
        let a1 = GrArcView { start: v.start, ..a0 };
        let a2 = GrArcView { end: v.end, ..a1 };
        let a3 = GrArcView { angle: v.angle, ..a2 };
        let a4 = GrArcView { layer: v.layer, ..a3 };
        let a5 = GrArcView { width: v.width, ..a4 };
        lemma_point_read(v.start);
        lemma_point_read(v.end);
        lemma_layer_read(v.layer);
        lemma_number_read(v.angle);
        lemma_number_read(v.width);
        assert(l[1] == Xy::encoded(v.start));
        assert(l[2] == Xy::encoded(v.end));
        assert(l[3] == pair("angle"@, v.angle));
        assert(l[4] == footprint::Layer::encoded(v.layer));
        assert(l[5] == pair("width"@, v.width));
        assert(fold_upto(l, 1, 1, a0, step) == Ok::<GrArcView, Failure>(a0));
        assert(fold_upto(l, 1, 2, a0, step) == Ok::<GrArcView, Failure>(a1));
        assert(fold_upto(l, 1, 3, a0, step) == Ok::<GrArcView, Failure>(a2));
        assert(fold_upto(l, 1, 4, a0, step) == Ok::<GrArcView, Failure>(a3));
        assert(fold_upto(l, 1, 5, a0, step) == Ok::<GrArcView, Failure>(a4));
        assert(fold_upto(l, 1, 6, a0, step) == Ok::<GrArcView, Failure>(a5));
        if v.tstamp is Some {
            assert(l[6] == pair("tstamp"@, v.tstamp->Some_0));
            lemma_text_read(v.tstamp->Some_0);
        }
    }
}

/// What holds of the fields of a circle.
pub open spec fn valid_circle(v: GrCircleView) -> bool {
    &&& Xy::valid(v.center) && v.center.t is Center
    &&& Xy::valid(v.end) && v.end.t is End
    &&& atom_is_decimal(v.width)
}

impl Lossless for GrCircle {
    /// The points are valid and of their kinds, the width reads as a
    /// number, and so does zero.
    open spec fn valid(v: GrCircleView) -> bool {
        valid_circle(v) && zero("width"@) is Ok
    }

    proof fn lemma_decoded_is_valid(t: Tree) {
        let l = t->List_0;
        let init = crate::layout::de::bare_circle()->Ok_0;
        let step = |a: GrCircleView, c: Tree| GrCircle::with_child(a, c);
        let inv = |a: GrCircleView| valid_circle(a);
        assert forall|a: GrCircleView, c: Tree| inv(a) && #[trigger] step(a, c) is Ok implies inv(
            step(a, c)->Ok_0,
        ) by {
            if GrElement::decoded(c) is Ok {
                lemma_field_is_valid(c);
            }
        }
        lemma_fold_keeps(l, 1, l.len() as int, init, step, inv);
    }

    #[verifier::rlimit(50)]
    proof fn lemma_round_trip(v: GrCircleView) {
        let l = Self::encoded(v)->List_0;
        let step = |a: GrCircleView, c: Tree| GrCircle::with_child(a, c);
        let a0 = crate::layout::de::bare_circle()->Ok_0;
        let a1 = GrCircleView { center: v.center, ..a0 };
        let a2 = GrCircleView { end: v.end, ..a1 };
        let a3 = GrCircleView { layer: v.layer, ..a2 };
        let a4 = GrCircleView { width: v.width, ..a3 };
        lemma_point_read(v.center);
        lemma_point_read(v.end);
        lemma_layer_read(v.layer);
        lemma_number_read(v.width);
        assert(l[1] == Xy::encoded(v.center));
        assert(l[2] == Xy::encoded(v.end));
        assert(l[3] == footprint::Layer::encoded(v.layer));
        assert(l[4] == pair("width"@, v.width));
        assert(fold_upto(l, 1, 1, a0, step) == Ok::<GrCircleView, Failure>(a0));
        assert(fold_upto(l, 1, 2, a0, step) == Ok::<GrCircleView, Failure>(a1));
        assert(fold_upto(l, 1, 3, a0, step) == Ok::<GrCircleView, Failure>(a2));
        assert(fold_upto(l, 1, 4, a0, step) == Ok::<GrCircleView, Failure>(a3));
        assert(fold_upto(l, 1, 5, a0, step) == Ok::<GrCircleView, Failure>(a4));
        if v.tstamp is Some {
            assert(l[5] == pair("tstamp"@, v.tstamp->Some_0));
            lemma_text_read(v.tstamp->Some_0);
        }
    }
}

/// What holds of the fields of a track segment.
pub open spec fn valid_segment(v: SegmentView) -> bool {
    &&& Xy::valid(v.start) && v.start.t is Start
    &&& Xy::valid(v.end) && v.end.t is End
    &&& atom_is_decimal(v.width)
    &&& atom_int(v.net) is Some
}

impl Lossless for Segment {
    /// The points are valid and of their kinds, the width reads as a
    /// number and the net as an integer, and zero reads as a number.
    open spec fn valid(v: SegmentView) -> bool {
        valid_segment(v) && zero("width"@) is Ok
    }

    proof fn lemma_decoded_is_valid(t: Tree) {
        let l = t->List_0;
        let init = crate::layout::de::bare_segment()->Ok_0;
        lemma_zero_reads();
        let step = |a: SegmentView, c: Tree| Segment::with_child(a, c);
        let inv = |a: SegmentView| valid_segment(a);
        assert forall|a: SegmentView, c: Tree| inv(a) && #[trigger] step(a, c) is Ok implies inv(
            step(a, c)->Ok_0,
        ) by {
            if GrElement::decoded(c) is Ok {
                lemma_field_is_valid(c);
            }
        }
        lemma_fold_keeps(l, 1, l.len() as int, init, step, inv);
    }

    #[verifier::rlimit(50)]
    proof fn lemma_round_trip(v: SegmentView) {
        let l = Self::encoded(v)->List_0;
        let step = |a: SegmentView, c: Tree| Segment::with_child(a, c);
        let a0 = crate::layout::de::bare_segment()->Ok_0;
        let a1 = SegmentView { start: v.start, ..a0 };
        let a2 = SegmentView { end: v.end, ..a1 };
        let a3 = SegmentView { width: v.width, ..a2 };
        let a4 = SegmentView { layer: v.layer, ..a3 };
        let a5 = SegmentView { net: v.net, ..a4 };
        let a6 = SegmentView { tstamp: v.tstamp, ..a5 };
        let stamped: int = if v.tstamp is Some {
            1
        } else {
            0
        };
        lemma_point_read(v.start);
        lemma_point_read(v.end);
        lemma_layer_read(v.layer);
        lemma_number_read(v.width);
        lemma_net_read(v.net);
        assert(l[1] == Xy::encoded(v.start));
        assert(l[2] == Xy::encoded(v.end));
        assert(l[3] == pair("width"@, v.width));
        assert(l[4] == footprint::Layer::encoded(v.layer));
        assert(l[5] == pair("net"@, v.net));
        assert(fold_upto(l, 1, 1, a0, step) == Ok::<SegmentView, Failure>(a0));
        assert(fold_upto(l, 1, 2, a0, step) == Ok::<SegmentView, Failure>(a1));
        assert(fold_upto(l, 1, 3, a0, step) == Ok::<SegmentView, Failure>(a2));
        assert(fold_upto(l, 1, 4, a0, step) == Ok::<SegmentView, Failure>(a3));
        assert(fold_upto(l, 1, 5, a0, step) == Ok::<SegmentView, Failure>(a4));
        assert(fold_upto(l, 1, 6, a0, step) == Ok::<SegmentView, Failure>(a5));
        if v.tstamp is Some {
            assert(l[6] == pair("tstamp"@, v.tstamp->Some_0));
            lemma_text_read(v.tstamp->Some_0);
        }
        assert(fold_upto(l, 1, 6 + stamped, a0, step) == Ok::<SegmentView, Failure>(a6));
        if v.status is Some {
            assert(l[6 + stamped] == pair("status"@, v.status->Some_0));
            lemma_text_read(v.status->Some_0);
        }
    }
}

/// What holds of the fields of a via.
pub open spec fn valid_via(v: ViaView) -> bool {
    &&& At::valid(v.at)
    &&& atom_is_decimal(v.size)
    &&& atom_is_decimal(v.drill)
    &&& atom_int(v.net) is Some
}

impl Lossless for Via {
    /// The position is valid, the size and the drill read as numbers and
    /// the net as an integer, and zero reads as a number.
    open spec fn valid(v: ViaView) -> bool {
        valid_via(v) && zero("size"@) is Ok
    }

    proof fn lemma_decoded_is_valid(t: Tree) {
        let l = t->List_0;
        let init = crate::layout::de::bare_via()->Ok_0;
        lemma_zero_reads();
        let step = |a: ViaView, c: Tree| Via::with_child(a, c);
        let inv = |a: ViaView| valid_via(a);
        assert forall|a: ViaView, c: Tree| inv(a) && #[trigger] step(a, c) is Ok implies inv(step(a, c)->Ok_0) by {
            if GrElement::decoded(c) is Ok {
                lemma_field_is_valid(c);
            }
        }
        lemma_fold_keeps(l, 1, l.len() as int, init, step, inv);
    }

    #[verifier::rlimit(50)]
    proof fn lemma_round_trip(v: ViaView) {
        let l = Self::encoded(v)->List_0;
        let step = |a: ViaView, c: Tree| Via::with_child(a, c);
        let a0 = crate::layout::de::bare_via()->Ok_0;
        let a1 = ViaView { at: v.at, ..a0 };
        let a2 = ViaView { size: v.size, ..a1 };
        let a3 = ViaView { drill: v.drill, ..a2 };
        let a4 = ViaView { layers: v.layers, ..a3 };
        lemma_number_read(v.size);
        lemma_number_read(v.drill);
        lemma_at_read(v.at);
        lemma_layers_read(v.layers);
        lemma_net_read(v.net);
        assert(l[1] == At::encoded(v.at));
        assert(l[2] == pair("size"@, v.size));
        assert(l[3] == pair("drill"@, v.drill));
        assert(l[4] == Layers::encoded(v.layers));
        assert(l[5] == pair("net"@, v.net));
        assert(fold_upto(l, 1, 1, a0, step) == Ok::<ViaView, Failure>(a0));
        assert(fold_upto(l, 1, 2, a0, step) == Ok::<ViaView, Failure>(a1));
        assert(fold_upto(l, 1, 3, a0, step) == Ok::<ViaView, Failure>(a2));
        assert(fold_upto(l, 1, 4, a0, step) == Ok::<ViaView, Failure>(a3));
        assert(fold_upto(l, 1, 5, a0, step) == Ok::<ViaView, Failure>(a4));
    }
}

/// What holds of the fields of a text.
pub open spec fn valid_text(v: GrTextView) -> bool {
    At::valid(v.at)
}

impl Lossless for GrText {
    /// The position is valid, and zero reads as a number.
    open spec fn valid(v: GrTextView) -> bool {
        valid_text(v) && zero("at"@) is Ok
    }

    proof fn lemma_decoded_is_valid(t: Tree) {
        let l = t->List_0;
        let init = crate::layout::de::bare_text(l[1]->Atom_0)->Ok_0;
        let step = |a: GrTextView, c: Tree| GrText::with_child(a, c);
        let inv = |a: GrTextView| valid_text(a);
        assert forall|a: GrTextView, c: Tree| inv(a) && #[trigger] step(a, c) is Ok implies inv(step(a, c)->Ok_0) by {
            if GrElement::decoded(c) is Ok {
                lemma_field_is_valid(c);
            }
        }
        lemma_fold_keeps(l, 2, l.len() as int, init, step, inv);
    }

    #[verifier::rlimit(50)]
    proof fn lemma_round_trip(v: GrTextView) {
        let l = Self::encoded(v)->List_0;
        let step = |a: GrTextView, c: Tree| GrText::with_child(a, c);
        let a0 = crate::layout::de::bare_text(v.value)->Ok_0;
        let a1 = GrTextView { at: v.at, ..a0 };
        let a2 = GrTextView { layer: v.layer, ..a1 };
        let a3 = GrTextView { tstamp: v.tstamp, ..a2 };
        let stamped: int = if v.tstamp is Some {
            1
        } else {
            0
        };
        lemma_layer_read(v.layer);
        lemma_at_read(v.at);
        lemma_effects_read(v.effects);
        assert(l[1] == Tree::Atom(v.value));
        assert(l[2] == At::encoded(v.at));
        assert(l[3] == footprint::Layer::encoded(v.layer));
        assert(fold_upto(l, 2, 2, a0, step) == Ok::<GrTextView, Failure>(a0));
        assert(fold_upto(l, 2, 3, a0, step) == Ok::<GrTextView, Failure>(a1));
        assert(fold_upto(l, 2, 4, a0, step) == Ok::<GrTextView, Failure>(a2));
        if v.tstamp is Some {
            assert(l[4] == pair("tstamp"@, v.tstamp->Some_0));
            lemma_text_read(v.tstamp->Some_0);
        }
        assert(fold_upto(l, 2, 4 + stamped, a0, step) == Ok::<GrTextView, Failure>(a3));
        assert(l[4 + stamped] == Effects::encoded(v.effects));
    }
}

/// What holds of the rules of a net class.
pub open spec fn valid_rules(v: NetClassView) -> bool {
    &&& atom_is_decimal(v.clearance)
    &&& atom_is_decimal(v.trace_width)
    &&& atom_is_decimal(v.via_dia)
    &&& atom_is_decimal(v.via_drill)
    &&& atom_is_decimal(v.uvia_dia)
    &&& atom_is_decimal(v.uvia_drill)
    &&& v.diff_pair_gap matches Some(x) ==> atom_is_decimal(x)
    &&& v.diff_pair_width matches Some(x) ==> atom_is_decimal(x)
}

impl Lossless for NetClass {
    /// The rules read as numbers, and so do the conventional values.
    open spec fn valid(v: NetClassView) -> bool {
        valid_rules(v) && bare_net_class(v.name, v.desc) is Ok
    }

    proof fn lemma_decoded_is_valid(t: Tree) {
        let l = t->List_0;
        let init = bare_net_class(l[1]->Atom_0, l[2]->Atom_0)->Ok_0;
        let step = |a: NetClassView, c: Tree| NetClass::with_child(a, c);
        let inv = |a: NetClassView| valid_rules(a) && a.name == init.name && a.desc == init.desc;
        lemma_fold_keeps(l, 3, l.len() as int, init, step, inv);
    }

    proof fn lemma_round_trip(v: NetClassView) {
        let l = Self::encoded(v)->List_0;
        let step = |a: NetClassView, c: Tree| NetClass::with_child(a, c);
        let a0 = bare_net_class(v.name, v.desc)->Ok_0;
        let first = first_member(v);
        assert(l[1] == Tree::Atom(v.name));
        assert(l[2] == Tree::Atom(v.desc));
        lemma_rules_round_trip(v);
        lemma_members_round_trip(v);
        lemma_fold_from(l, 3, first, l.len() as int, a0, step);
    }
}

/// The position of the first member in the list of a net class.
pub open spec fn first_member(v: NetClassView) -> int {
    9 + if v.diff_pair_gap is Some {
        1int
    } else {
        0int
    } + if v.diff_pair_width is Some {
        1int
    } else {
        0int
    }
}

/// The rules of a net class as they are written, taken in one after the
/// other.
#[verifier::rlimit(50)]
pub proof fn lemma_rules_round_trip(v: NetClassView)
    requires
        NetClass::valid(v),
    ensures
        fold_upto(
            NetClass::encoded(v)->List_0,
            3,
            first_member(v),
            bare_net_class(v.name, v.desc)->Ok_0,
            |a: NetClassView, c: Tree| NetClass::with_child(a, c),
        ) == Ok::<NetClassView, Failure>(NetClassView { nets: Seq::empty(), ..v }),
{
    let l = NetClass::encoded(v)->List_0;
    let step = |a: NetClassView, c: Tree| NetClass::with_child(a, c);
    let a0 = bare_net_class(v.name, v.desc)->Ok_0;
    let a1 = NetClassView { clearance: v.clearance, ..a0 };
    let a2 = NetClassView { trace_width: v.trace_width, ..a1 };
    let a3 = NetClassView { via_dia: v.via_dia, ..a2 };
    let a4 = NetClassView { via_drill: v.via_drill, ..a3 };
    let a5 = NetClassView { uvia_dia: v.uvia_dia, ..a4 };
    let a6 = NetClassView { uvia_drill: v.uvia_drill, ..a5 };
    let a7 = NetClassView { diff_pair_gap: v.diff_pair_gap, ..a6 };
    let a8 = NetClassView { diff_pair_width: v.diff_pair_width, ..a7 };
    let gap: int = if v.diff_pair_gap is Some {
        1
    } else {
        0
    };
    assert(a8 == NetClassView { nets: Seq::empty(), ..v });
    assert(l[3] == pair("clearance"@, v.clearance));
    assert(l[4] == pair("trace_width"@, v.trace_width));
    assert(l[5] == pair("via_dia"@, v.via_dia));
    assert(l[6] == pair("via_drill"@, v.via_drill));
    assert(l[7] == pair("uvia_dia"@, v.uvia_dia));
    assert(l[8] == pair("uvia_drill"@, v.uvia_drill));
    lemma_rule_read(a0, v.clearance, 0);
    lemma_rule_read(a1, v.trace_width, 1);
    lemma_rule_read(a2, v.via_dia, 2);
    lemma_rule_read(a3, v.via_drill, 3);
    lemma_rule_read(a4, v.uvia_dia, 4);
    lemma_rule_read(a5, v.uvia_drill, 5);
    let r3 = fold_upto(l, 3, 3, a0, step);
    let r4 = fold_upto(l, 3, 4, a0, step);
    let r5 = fold_upto(l, 3, 5, a0, step);
    let r6 = fold_upto(l, 3, 6, a0, step);
    let r7 = fold_upto(l, 3, 7, a0, step);
    let r8 = fold_upto(l, 3, 8, a0, step);
    let r9 = fold_upto(l, 3, 9, a0, step);
    assert(r3 == Ok::<NetClassView, Failure>(a0));
    assert(r4 == Ok::<NetClassView, Failure>(a1));
    assert(r5 == Ok::<NetClassView, Failure>(a2));
    assert(r6 == Ok::<NetClassView, Failure>(a3));
    assert(r7 == Ok::<NetClassView, Failure>(a4));
    assert(r8 == Ok::<NetClassView, Failure>(a5));
    assert(r9 == Ok::<NetClassView, Failure>(a6));
    if v.diff_pair_gap is Some {
        assert(l[9] == pair("diff_pair_gap"@, v.diff_pair_gap->Some_0));
        lemma_rule_read(a6, v.diff_pair_gap->Some_0, 6);
    }
    assert(fold_upto(l, 3, 9 + gap, a0, step) == Ok::<NetClassView, Failure>(a7));
    if v.diff_pair_width is Some {
        assert(l[9 + gap] == pair("diff_pair_width"@, v.diff_pair_width->Some_0));
        lemma_rule_read(a7, v.diff_pair_width->Some_0, 7);
    }
}

/// The members of a net class as they are written, taken in one after the
/// other.
pub proof fn lemma_members_round_trip(v: NetClassView)
    ensures
        fold_upto(
            NetClass::encoded(v)->List_0,
            first_member(v),
            NetClass::encoded(v)->List_0.len() as int,
            NetClassView { nets: Seq::empty(), ..v },
            |a: NetClassView, c: Tree| NetClass::with_child(a, c),
        ) == Ok::<NetClassView, Failure>(v),
{
    let l = NetClass::encoded(v)->List_0;
    let step = |a: NetClassView, c: Tree| NetClass::with_child(a, c);
    let first = first_member(v);
    let states = |j: int| NetClassView { nets: v.nets.take(j), ..v };
    assert(v.nets.take(0) =~= Seq::<Seq<char>>::empty());
    assert forall|j: int| 0 <= j < v.nets.len() implies step(#[trigger] states(j), l[first + j]) == Ok::<
        NetClassView,
        Failure,
    >(states(j + 1)) by {
        assert(l[first + j] == pair("add_net"@, v.nets[j]));
        lemma_member_read(states(j), v.nets[j]);
        assert(v.nets.take(j).push(v.nets[j]) =~= v.nets.take(j + 1));
    }
    lemma_fold_tracks(l, first, v.nets.len(), step, states);
    assert(v.nets.take(v.nets.len() as int) =~= v.nets);
    assert(l.len() == first + v.nets.len());
}

/// The name of the rule of the given number.
pub open spec fn rule_name(which: int) -> Seq<char> {
    if which == 0 {
        "clearance"@
    } else if which == 1 {
        "trace_width"@
    } else if which == 2 {
        "via_dia"@
    } else if which == 3 {
        "via_drill"@
    } else if which == 4 {
        "uvia_dia"@
    } else if which == 5 {
        "uvia_drill"@
    } else if which == 6 {
        "diff_pair_gap"@
    } else {
        "diff_pair_width"@
    }
}

/// The net class `acc` with the rule of the given number set to `x`.
pub open spec fn with_rule(acc: NetClassView, which: int, x: Seq<char>) -> NetClassView {
    if which == 0 {
        NetClassView { clearance: x, ..acc }
    } else if which == 1 {
        NetClassView { trace_width: x, ..acc }
    } else if which == 2 {
        NetClassView { via_dia: x, ..acc }
    } else if which == 3 {
        NetClassView { via_drill: x, ..acc }
    } else if which == 4 {
        NetClassView { uvia_dia: x, ..acc }
    } else if which == 5 {
        NetClassView { uvia_drill: x, ..acc }
    } else if which == 6 {
        NetClassView { diff_pair_gap: Some(x), ..acc }
    } else {
        NetClassView { diff_pair_width: Some(x), ..acc }
    }
}

/// A rule as it is written, taken in by a net class.
pub proof fn lemma_rule_read(acc: NetClassView, x: Seq<char>, which: int)
    requires
        atom_is_decimal(x),
        0 <= which < 8,
    ensures
        NetClass::with_child(acc, pair(rule_name(which), x)) == Ok::<NetClassView, Failure>(
            with_rule(acc, which, x),
        ),
{
    lemma_marks();
}

/// A member as it is written, taken in by a net class.
pub proof fn lemma_member_read(acc: NetClassView, x: Seq<char>)
    ensures
        NetClass::with_child(acc, pair("add_net"@, x)) == Ok::<NetClassView, Failure>(
            NetClassView { nets: acc.nets.push(x), ..acc },
        ),
{
}

/// What holds of the entries of a setup: none is named like the list of
/// plot parameters.
pub open spec fn valid_entries(v: SetupView) -> bool {
    forall|i: int| 0 <= i < v.elements.len() ==> (#[trigger] v.elements[i]).name != "pcbplotparams"@
}

impl Lossless for Setup {
    /// No entry is named like the list of plot parameters.
    open spec fn valid(v: SetupView) -> bool {
        valid_entries(v)
    }

    proof fn lemma_decoded_is_valid(t: Tree) {
        let l = t->List_0;
        let step = |a: SetupView, c: Tree| Setup::with_child(a, c);
        let inv = |a: SetupView| valid_entries(a);
        lemma_fold_keeps(l, 1, l.len() as int, bare_setup(), step, inv);
    }

    #[verifier::rlimit(50)]
    proof fn lemma_round_trip(v: SetupView) {
        let l = Self::encoded(v)->List_0;
        let step = |a: SetupView, c: Tree| Setup::with_child(a, c);
        let n = v.elements.len() as int;
        let states = |j: int| SetupView { elements: v.elements.take(j), pcbplotparams: Seq::empty() };
        assert(states(0) == bare_setup()) by {
            assert(v.elements.take(0) =~= Seq::<SetupElementView>::empty());
        }
        assert forall|j: int| 0 <= j < n implies step(#[trigger] states(j), l[1 + j]) == Ok::<SetupView, Failure>(
            states(j + 1),
        ) by {
            let e = v.elements[j];
            assert(l[1 + j] == SetupElement::encoded(e));
            SetupElement::lemma_round_trip(e);
            assert(SetupElement::encoded(e)->List_0[0] == Tree::Atom(e.name));
            assert(v.elements.take(j).push(e) =~= v.elements.take(j + 1));
        }
        lemma_fold_tracks(l, 1, n as nat, step, states);
        let params = node("pcbplotparams"@, encode_each::<SetupElement>(v.pcbplotparams));
        assert(l[1 + n] == params);
        assert(all_valid::<SetupElement>(v.pcbplotparams));
        lemma_rest_round_trip::<SetupElement>(seq![Tree::Atom("pcbplotparams"@)], v.pcbplotparams);
        assert(v.elements.take(n) =~= v.elements);
        assert(Seq::<SetupElementView>::empty() + v.pcbplotparams =~= v.pcbplotparams);
        assert(step(states(n), params) == Ok::<SetupView, Failure>(v));
        assert(l.len() == n + 2);
    }
}

/// Whether a tree is none of the geometry of a zone: no outline, no fill
/// result, no fill segments.
pub open spec fn unread(t: Tree) -> bool {
    &&& decoded_outline(t, "polygon"@) is Err
    &&& decoded_outline(t, "filled_polygon"@) is Err
    &&& decoded_outline(t, "fill_segments"@) is Err
}

/// What holds of the fields of a zone up to its fill.
pub open spec fn valid_zone_head(v: ZoneView) -> bool {
    &&& atom_int(v.net) is Some
    &&& Hatch::valid(v.hatch)
    &&& atom_int(v.priority) is Some
    &&& ConnectPads::valid(v.connect_pads)
    &&& atom_is_decimal(v.min_thickness)
    &&& Fill::valid(v.fill)
}

/// What holds of the geometry of a zone.
pub open spec fn valid_zone_tail(v: ZoneView) -> bool {
    &&& all_valid::<Pts>(v.polygons)
    &&& all_valid::<Pts>(v.filled_polygons)
    &&& v.fill_segments matches Some(p) ==> Pts::valid(p)
    &&& forall|i: int| 0 <= i < v.other.len() ==> unread(#[trigger] v.other[i])
}

/// A point list as it is written under a name, read under that name.
pub proof fn lemma_outline_round_trip(p: PtsView, name: Seq<char>)
    requires
        Pts::valid(p),
    ensures
        decoded_outline(encoded_outline(p, name), name) == Ok::<PtsView, Failure>(p),
{
    Pts::lemma_round_trip(p);
    assert(encoded_outline(p, name)->List_0[1] == Pts::encoded(p));
}

/// A zone takes in every child: what is no geometry is kept as it is.
pub proof fn lemma_geometry_never_fails(acc: ZoneView, t: Tree)
    ensures
        Zone::with_child(acc, t) is Ok,
        unread(t) ==> Zone::with_child(acc, t) == Ok::<ZoneView, Failure>(
            ZoneView { other: acc.other.push(t), ..acc },
        ),
{
}

/// An outline as it is written, taken in by a zone.
pub proof fn lemma_polygon_read(acc: ZoneView, p: PtsView)
    requires
        Pts::valid(p),
    ensures
        Zone::with_child(acc, encoded_outline(p, "polygon"@)) == Ok::<ZoneView, Failure>(
            ZoneView { polygons: acc.polygons.push(p), ..acc },
        ),
{
    lemma_outline_round_trip(p, "polygon"@);
}

/// A fill result as it is written, taken in by a zone.
pub proof fn lemma_filled_polygon_read(acc: ZoneView, p: PtsView)
    requires
        Pts::valid(p),
    ensures
        Zone::with_child(acc, encoded_outline(p, "filled_polygon"@)) == Ok::<ZoneView, Failure>(
            ZoneView { filled_polygons: acc.filled_polygons.push(p), ..acc },
        ),
{
    lemma_marks();
    lemma_outline_round_trip(p, "filled_polygon"@);
    assert(encoded_outline(p, "filled_polygon"@)->List_0[0] == Tree::Atom("filled_polygon"@));
}

/// Fill segments as they are written, taken in by a zone.
pub proof fn lemma_fill_segments_read(acc: ZoneView, p: PtsView)
    requires
        Pts::valid(p),
    ensures
        Zone::with_child(acc, encoded_outline(p, "fill_segments"@)) == Ok::<ZoneView, Failure>(
            ZoneView { fill_segments: Some(p), ..acc },
        ),
{
    lemma_marks();
    lemma_outline_round_trip(p, "fill_segments"@);
    assert(encoded_outline(p, "fill_segments"@)->List_0[0] == Tree::Atom("fill_segments"@));
}

/// The zone `v` with its geometry as far as it is read when `a` outlines,
/// `b` fill results, the fill segments where `c` is not zero, and `d` other
/// children are taken in.
pub open spec fn zone_upto(v: ZoneView, a: int, b: int, c: int, d: int) -> ZoneView {
    ZoneView {
        polygons: v.polygons.take(a),
        filled_polygons: v.filled_polygons.take(b),
        fill_segments: if c == 0 {
            None
        } else {
            v.fill_segments
        },
        other: v.other.take(d),
        ..v
    }
}

/// The position of the first child of a zone's geometry in the list of the
/// zone.
pub open spec fn first_geometry(v: ZoneView) -> int {
    if v.keepout is Some {
        11
    } else {
        10
    }
}

/// The geometry of a zone as it is written, taken in child after child.
#[verifier::rlimit(50)]
pub proof fn lemma_geometry_round_trip(v: ZoneView)
    requires
        valid_zone_tail(v),
    ensures
        filled::<Zone>(Zone::encoded(v)->List_0, first_geometry(v), zone_upto(v, 0, 0, 0, 0)) == Ok::<
            ZoneView,
            Failure,
        >(v),
{
    let l = Zone::encoded(v)->List_0;
    let step = |a: ZoneView, c: Tree| Zone::with_child(a, c);
    let n0 = first_geometry(v);
    let np = v.polygons.len() as int;
    let nf = v.filled_polygons.len() as int;
    let ns: int = if v.fill_segments is Some {
        1
    } else {
        0
    };
    let no = v.other.len() as int;
    let n1 = n0 + np;
    let n2 = n1 + nf;
    let n3 = n2 + ns;
    assert(l.len() == n3 + no);
    let s1 = |j: int| zone_upto(v, j, 0, 0, 0);
    assert forall|j: int| 0 <= j < np implies step(#[trigger] s1(j), l[n0 + j]) == Ok::<ZoneView, Failure>(
        s1(j + 1),
    ) by {
        assert(l[n0 + j] == encoded_outline(v.polygons[j], "polygon"@));
        lemma_polygon_read(s1(j), v.polygons[j]);
        assert(v.polygons.take(j).push(v.polygons[j]) =~= v.polygons.take(j + 1));
    }
    lemma_fold_tracks(l, n0, np as nat, step, s1);
    let s2 = |j: int| zone_upto(v, np, j, 0, 0);
    assert forall|j: int| 0 <= j < nf implies step(#[trigger] s2(j), l[n1 + j]) == Ok::<ZoneView, Failure>(
        s2(j + 1),
    ) by {
        assert(l[n1 + j] == encoded_outline(v.filled_polygons[j], "filled_polygon"@));
        lemma_filled_polygon_read(s2(j), v.filled_polygons[j]);
        assert(v.filled_polygons.take(j).push(v.filled_polygons[j]) =~= v.filled_polygons.take(j + 1));
    }
    lemma_fold_tracks(l, n1, nf as nat, step, s2);
    let s3 = |j: int| zone_upto(v, np, nf, j, 0);
    assert forall|j: int| 0 <= j < ns implies step(#[trigger] s3(j), l[n2 + j]) == Ok::<ZoneView, Failure>(
        s3(j + 1),
    ) by {
        assert(l[n2 + j] == encoded_outline(v.fill_segments->Some_0, "fill_segments"@));
        lemma_fill_segments_read(s3(j), v.fill_segments->Some_0);
    }
    lemma_fold_tracks(l, n2, ns as nat, step, s3);
    let s4 = |j: int| zone_upto(v, np, nf, ns, j);
    assert forall|j: int| 0 <= j < no implies step(#[trigger] s4(j), l[n3 + j]) == Ok::<ZoneView, Failure>(
        s4(j + 1),
    ) by {
        assert(l[n3 + j] == v.other[j]);
        assert(unread(v.other[j]));
        assert(v.other.take(j).push(v.other[j]) =~= v.other.take(j + 1));
    }
    lemma_fold_tracks(l, n3, no as nat, step, s4);
    assert(s1(np) == s2(0));
    assert(s2(nf) == s3(0));
    assert(s3(ns) == s4(0));
    assert(s4(no) == v) by {
        assert(v.polygons.take(np) =~= v.polygons);
        assert(v.filled_polygons.take(nf) =~= v.filled_polygons);
        assert(v.other.take(no) =~= v.other);
    }
    lemma_fold_from(l, n0, n1, n2, s1(0), step);
    lemma_fold_from(l, n0, n2, n3, s1(0), step);
    lemma_fold_from(l, n0, n3, l.len() as int, s1(0), step);
}

impl Lossless for Zone {
    /// The numbers read as numbers, the parts are valid, and no child that
    /// is kept as written reads as geometry.
    open spec fn valid(v: ZoneView) -> bool {
        valid_zone_head(v) && valid_zone_tail(v)
    }

    #[verifier::rlimit(50)]
    proof fn lemma_decoded_is_valid(t: Tree) {
        let l = t->List_0;
        let a: int = if crate::cursor::named_int_at(l, 6, "priority"@) is Ok {
            7
        } else {
            6
        };
        let b: int = if crate::codec::decode_at::<Keepout>(l, a + 2, "keepout"@) is Ok {
            a + 3
        } else {
            a + 2
        };
        lemma_zero_reads();
        Hatch::lemma_decoded_is_valid(l[5]);
        ConnectPads::lemma_decoded_is_valid(l[a]);
        Fill::lemma_decoded_is_valid(l[b]);
        let step = |x: ZoneView, c: Tree| Zone::with_child(x, c);
        let inv = |x: ZoneView| valid_zone_head(x) && valid_zone_tail(x);
        assert forall|x: ZoneView, c: Tree| inv(x) && #[trigger] step(x, c) is Ok implies inv(step(x, c)->Ok_0) by {
            if decoded_outline(c, "polygon"@) is Ok {
                Pts::lemma_decoded_is_valid(c->List_0[1]);
            } else if decoded_outline(c, "filled_polygon"@) is Ok {
                Pts::lemma_decoded_is_valid(c->List_0[1]);
            } else if decoded_outline(c, "fill_segments"@) is Ok {
                Pts::lemma_decoded_is_valid(c->List_0[1]);
            }
        }
        let v = Zone::decoded(t)->Ok_0;
        let init = ZoneView {
            polygons: Seq::empty(),
            filled_polygons: Seq::empty(),
            fill_segments: None,
            other: Seq::empty(),
            net: l[1]->List_0[1]->Atom_0,
            net_name: l[2]->List_0[1]->Atom_0,
            layer: footprint::Layer::decoded(l[3])->Ok_0,
            tstamp: l[4]->List_0[1]->Atom_0,
            hatch: Hatch::decoded(l[5])->Ok_0,
            priority: if a == 7 {
                l[6]->List_0[1]->Atom_0
            } else {
                zero_int()
            },
            connect_pads: ConnectPads::decoded(l[a])->Ok_0,
            min_thickness: l[a + 1]->List_0[1]->Atom_0,
            keepout: if b == a + 3 {
                Some(Keepout::decoded(l[a + 2])->Ok_0)
            } else {
                None
            },
            fill: Fill::decoded(l[b])->Ok_0,
        };
        assert(Zone::decoded(t) == filled::<Zone>(l, b + 1, init));
        lemma_fold_keeps(l, b + 1, l.len() as int, init, step, inv);
    }

    #[verifier::rlimit(50)]
    proof fn lemma_round_trip(v: ZoneView) {
        lemma_marks();
        let l = Self::encoded(v)->List_0;
        assert(l[1] == pair("net"@, v.net));
        assert(l[2] == pair("net_name"@, v.net_name));
        assert(l[3] == footprint::Layer::encoded(v.layer));
        assert(l[4] == pair("tstamp"@, v.tstamp));
        assert(l[5] == Hatch::encoded(v.hatch));
        assert(l[6] == pair("priority"@, v.priority));
        assert(l[7] == ConnectPads::encoded(v.connect_pads));
        assert(l[8] == pair("min_thickness"@, v.min_thickness));
        footprint::Layer::lemma_round_trip(v.layer);
        Hatch::lemma_round_trip(v.hatch);
        ConnectPads::lemma_round_trip(v.connect_pads);
        Fill::lemma_round_trip(v.fill);
        if v.keepout is Some {
            assert(l[9] == Keepout::encoded(v.keepout->Some_0));
            assert(l[10] == Fill::encoded(v.fill));
            Keepout::lemma_round_trip(v.keepout->Some_0);
        } else {
            assert(l[9] == Fill::encoded(v.fill));
            assert(Fill::encoded(v.fill)->List_0[0] == Tree::Atom("fill"@));
        }
        lemma_geometry_round_trip(v);
        assert(zone_upto(v, 0, 0, 0, 0) == ZoneView {
            polygons: Seq::empty(),
            filled_polygons: Seq::empty(),
            fill_segments: None,
            other: Seq::empty(),
            ..v
        }) by {
            assert(v.polygons.take(0) =~= Seq::<PtsView>::empty());
            assert(v.filled_polygons.take(0) =~= Seq::<PtsView>::empty());
            assert(v.other.take(0) =~= Seq::<Tree>::empty());
        }
    }
}

/// The pair `(name (pts ..))` as it is written, read under that name.
pub proof fn lemma_feature_round_trip(l: Seq<Tree>, p: int, v: PtsView, name: Seq<char>)
    requires
        Pts::valid(v),
        0 <= p < l.len(),
        l[p] == crate::layout::ser::encoded_feature(v, name),
    ensures
        crate::layout::de::feature_at(l, p, name) == Ok::<PtsView, Failure>(v),
{
    Pts::lemma_round_trip(v);
}

/// A point list that was read from the pair at position `p` is valid.
pub proof fn lemma_feature_is_valid(l: Seq<Tree>, p: int, name: Seq<char>)
    requires
        crate::layout::de::feature_at(l, p, name) is Ok,
    ensures
        Pts::valid(crate::layout::de::feature_at(l, p, name)->Ok_0),
{
    Pts::lemma_decoded_is_valid(l[p]->List_0[1]);
}

impl Lossless for Dimension {
    /// The width reads as a number; the text and the seven point lists are
    /// valid.
    open spec fn valid(v: DimensionView) -> bool {
        &&& atom_is_decimal(v.width)
        &&& GrText::valid(v.text)
        &&& Pts::valid(v.feature1)
        &&& Pts::valid(v.feature2)
        &&& Pts::valid(v.crossbar)
        &&& Pts::valid(v.arrow1a)
        &&& Pts::valid(v.arrow1b)
        &&& Pts::valid(v.arrow2a)
        &&& Pts::valid(v.arrow2b)
    }

    proof fn lemma_decoded_is_valid(t: Tree) {
        let l = t->List_0;
        let i: int = if named_text_at(l, 4, "tstamp"@) is Ok {
            5
        } else {
            4
        };
        GrText::lemma_decoded_is_valid(l[i]);
        lemma_feature_is_valid(l, i + 1, "feature1"@);
        lemma_feature_is_valid(l, i + 2, "feature2"@);
        lemma_feature_is_valid(l, i + 3, "crossbar"@);
        lemma_feature_is_valid(l, i + 4, "arrow1a"@);
        lemma_feature_is_valid(l, i + 5, "arrow1b"@);
        lemma_feature_is_valid(l, i + 6, "arrow2a"@);
        lemma_feature_is_valid(l, i + 7, "arrow2b"@);
    }

    #[verifier::rlimit(50)]
    proof fn lemma_round_trip(v: DimensionView) {
        lemma_marks();
        let l = Self::encoded(v)->List_0;
        let i: int = if v.tstamp is Some {
            5
        } else {
            4
        };
        assert(l[1] == Tree::Atom(v.name));
        assert(l[2] == pair("width"@, v.width));
        assert(l[3] == footprint::Layer::encoded(v.layer));
        if v.tstamp is Some {
            assert(l[4] == pair("tstamp"@, v.tstamp->Some_0));
        } else {
            assert(l[4] == GrText::encoded(v.text));
            assert(GrText::encoded(v.text)->List_0.len() >= 5);
        }
        assert(l[i] == GrText::encoded(v.text));
        assert(l.len() == i + 8);
        footprint::Layer::lemma_round_trip(v.layer);
        GrText::lemma_round_trip(v.text);
        lemma_feature_round_trip(l, i + 1, v.feature1, "feature1"@);
        lemma_feature_round_trip(l, i + 2, v.feature2, "feature2"@);
        lemma_feature_round_trip(l, i + 3, v.crossbar, "crossbar"@);
        lemma_feature_round_trip(l, i + 4, v.arrow1a, "arrow1a"@);
        lemma_feature_round_trip(l, i + 5, v.arrow1b, "arrow1b"@);
        lemma_feature_round_trip(l, i + 6, v.arrow2a, "arrow2a"@);
        lemma_feature_round_trip(l, i + 7, v.arrow2b, "arrow2b"@);
    }
}

/// Whether a name is one that the board gives to a part of its header or
/// to an element that it decodes.
pub open spec fn known(name: Seq<char>) -> bool {
    name == "version"@ || name == "host"@ || name == "general"@ || name == "page"@ || name == "layers"@ || name
        == "module"@ || name == "net"@ || name == "net_class"@ || name == "gr_text"@ || name == "gr_line"@ || name
        == "gr_arc"@ || name == "gr_circle"@ || name == "dimension"@ || name == "zone"@ || name == "segment"@
        || name == "via"@ || name == "setup"@
}

/// What holds of every element that a board decodes: the element is valid
/// as what it is, and an element that is kept as written is a list under a
/// name that the board does not know.
pub open spec fn valid_element(e: ElementView) -> bool {
    match e {
        ElementView::Module(x) => Module::valid(x),
        ElementView::Net(x) => Net::valid(x),
        ElementView::NetClass(x) => NetClass::valid(x),
        ElementView::GrText(x) => GrText::valid(x),
        ElementView::GrLine(x) => GrLine::valid(x),
        ElementView::GrArc(x) => GrArc::valid(x),
        ElementView::GrCircle(x) => GrCircle::valid(x),
        ElementView::Dimension(x) => Dimension::valid(x),
        ElementView::Zone(x) => Zone::valid(x),
        ElementView::Segment(x) => Segment::valid(x),
        ElementView::Via(x) => Via::valid(x),
        ElementView::Other(t) => list_head(t, "kicad_pcb"@) is Ok && !known(list_head(t, "kicad_pcb"@)->Ok_0),
    }
}

/// The name under which an element is written.
pub open spec fn element_name(e: ElementView) -> Seq<char> {
    match e {
        ElementView::Module(_) => "module"@,
        ElementView::Net(_) => "net"@,
        ElementView::NetClass(_) => "net_class"@,
        ElementView::GrText(_) => "gr_text"@,
        ElementView::GrLine(_) => "gr_line"@,
        ElementView::GrArc(_) => "gr_arc"@,
        ElementView::GrCircle(_) => "gr_circle"@,
        ElementView::Dimension(_) => "dimension"@,
        ElementView::Zone(_) => "zone"@,
        ElementView::Segment(_) => "segment"@,
        ElementView::Via(_) => "via"@,
        ElementView::Other(t) => list_head(t, "kicad_pcb"@)->Ok_0,
    }
}

/// An element is written as a list under its name.
pub proof fn lemma_element_is_named(e: ElementView)
    requires
        valid_element(e),
    ensures
        list_head(Element::encoded(e), "kicad_pcb"@) == Ok::<Seq<char>, Failure>(element_name(e)),
{
    let t = Element::encoded(e);
    match e {
        ElementView::Other(_) => {},
        _ => {
            assert(t->List_0[0] == Tree::Atom(element_name(e)));
        },
    }
}

/// An element as it is written, taken in by a board.
#[verifier::rlimit(50)]
pub proof fn lemma_element_read(acc: LayoutView, e: ElementView)
    requires
        valid_element(e),
    ensures
        Layout::with_child(acc, Element::encoded(e)) == Ok::<LayoutView, Failure>(
            crate::layout::de::with_element(acc, e),
        ),
{
    lemma_marks();
    lemma_element_is_named(e);
    match e {
        ElementView::Module(x) => Module::lemma_round_trip(x),
        ElementView::Net(x) => Net::lemma_round_trip(x),
        ElementView::NetClass(x) => NetClass::lemma_round_trip(x),
        ElementView::GrText(x) => GrText::lemma_round_trip(x),
        ElementView::GrLine(x) => GrLine::lemma_round_trip(x),
        ElementView::GrArc(x) => GrArc::lemma_round_trip(x),
        ElementView::GrCircle(x) => GrCircle::lemma_round_trip(x),
        ElementView::Dimension(x) => Dimension::lemma_round_trip(x),
        ElementView::Zone(x) => Zone::lemma_round_trip(x),
        ElementView::Segment(x) => Segment::lemma_round_trip(x),
        ElementView::Via(x) => Via::lemma_round_trip(x),
        ElementView::Other(_) => {},
    }
}

/// What holds of a board apart from its defaults.
pub open spec fn valid_board(v: LayoutView) -> bool {
    &&& atom_int(v.version) is Some
    &&& General::valid(v.general)
    &&& Setup::valid(v.setup)
    &&& all_valid::<Layer>(v.layers)
    &&& forall|i: int| 0 <= i < v.elements.len() ==> valid_element(#[trigger] v.elements[i])
}

/// A child that a board takes in keeps the board valid.
#[verifier::rlimit(50)]
pub proof fn lemma_child_keeps_valid(acc: LayoutView, c: Tree)
    requires
        valid_board(acc),
        Layout::with_child(acc, c) is Ok,
    ensures
        valid_board(Layout::with_child(acc, c)->Ok_0),
{
    lemma_marks();
    let name = list_head(c, "kicad_pcb"@)->Ok_0;
    let after = Layout::with_child(acc, c)->Ok_0;
    if name == "version"@ || name == "host"@ || name == "page"@ {
    } else if name == "general"@ {
        General::lemma_decoded_is_valid(c);
    } else if name == "layers"@ {
        lemma_each_decoded_is_valid::<Layer>(c->List_0.skip(1));
    } else if name == "setup"@ {
        Setup::lemma_decoded_is_valid(c);
    } else {
        if name == "module"@ {
            Module::lemma_decoded_is_valid(c);
        } else if name == "net"@ {
            Net::lemma_decoded_is_valid(c);
        } else if name == "net_class"@ {
            NetClass::lemma_decoded_is_valid(c);
        } else if name == "gr_text"@ {
            GrText::lemma_decoded_is_valid(c);
        } else if name == "gr_line"@ {
            GrLine::lemma_decoded_is_valid(c);
        } else if name == "gr_arc"@ {
            GrArc::lemma_decoded_is_valid(c);
        } else if name == "gr_circle"@ {
            GrCircle::lemma_decoded_is_valid(c);
        } else if name == "dimension"@ {
            Dimension::lemma_decoded_is_valid(c);
        } else if name == "zone"@ {
            Zone::lemma_decoded_is_valid(c);
        } else if name == "segment"@ {
            Segment::lemma_decoded_is_valid(c);
        } else if name == "via"@ {
            Via::lemma_decoded_is_valid(c);
        }
        let e = after.elements.last();
        assert(after.elements == acc.elements.push(e));
        assert(valid_element(e));
        assert forall|i: int| 0 <= i < after.elements.len() implies valid_element(#[trigger] after.elements[i]) by {
            if i < acc.elements.len() {
                assert(after.elements[i] == acc.elements[i]);
            }
        }
    }
}

/// The header of a board as it is written, taken in part after part.
#[verifier::rlimit(50)]
pub proof fn lemma_header_round_trip(v: LayoutView)
    requires
        Layout::valid(v),
    ensures
        fold_upto(
            Layout::encoded(v)->List_0,
            1,
            7,
            bare_layout()->Ok_0,
            |a: LayoutView, c: Tree| Layout::with_child(a, c),
        ) == Ok::<LayoutView, Failure>(LayoutView { elements: Seq::empty(), ..v }),
{
    lemma_marks();
    let l = Layout::encoded(v)->List_0;
    let step = |a: LayoutView, c: Tree| Layout::with_child(a, c);
    let a0 = bare_layout()->Ok_0;
    let a1 = LayoutView { version: v.version, ..a0 };
    let a2 = LayoutView { host: v.host, ..a1 };
    let a3 = LayoutView { general: v.general, ..a2 };
    let a4 = LayoutView { page: v.page, ..a3 };
    let a5 = LayoutView { layers: v.layers, ..a4 };
    let a6 = LayoutView { setup: v.setup, ..a5 };
    assert(l[1] == pair("version"@, v.version));
    assert(l[2] == Host::encoded(v.host));
    assert(l[3] == General::encoded(v.general));
    assert(l[4] == pair("page"@, v.page));
    assert(l[5] == crate::layout::ser::encoded_layer_table(v.layers));
    assert(l[6] == Setup::encoded(v.setup));
    Host::lemma_round_trip(v.host);
    General::lemma_round_trip(v.general);
    lemma_rest_round_trip::<Layer>(seq![Tree::Atom("layers"@)], v.layers);
    Setup::lemma_round_trip(v.setup);
    assert(Host::encoded(v.host)->List_0[0] == Tree::Atom("host"@));
    assert(General::encoded(v.general)->List_0[0] == Tree::Atom("general"@));
    assert(crate::layout::ser::encoded_layer_table(v.layers)->List_0[0] == Tree::Atom("layers"@));
    assert(Setup::encoded(v.setup)->List_0[0] == Tree::Atom("setup"@));
    assert(step(a0, l[1]) == Ok::<LayoutView, Failure>(a1));
    assert(step(a1, l[2]) == Ok::<LayoutView, Failure>(a2));
    assert(step(a2, l[3]) == Ok::<LayoutView, Failure>(a3));
    assert(step(a3, l[4]) == Ok::<LayoutView, Failure>(a4));
    assert(step(a4, l[5]) == Ok::<LayoutView, Failure>(a5));
    assert(step(a5, l[6]) == Ok::<LayoutView, Failure>(a6));
    assert(fold_upto(l, 1, 1, a0, step) == Ok::<LayoutView, Failure>(a0));
    assert(fold_upto(l, 1, 2, a0, step) == Ok::<LayoutView, Failure>(a1));
    assert(fold_upto(l, 1, 3, a0, step) == Ok::<LayoutView, Failure>(a2));
    assert(fold_upto(l, 1, 4, a0, step) == Ok::<LayoutView, Failure>(a3));
    assert(fold_upto(l, 1, 5, a0, step) == Ok::<LayoutView, Failure>(a4));
    assert(fold_upto(l, 1, 6, a0, step) == Ok::<LayoutView, Failure>(a5));
    assert(fold_upto(l, 1, 7, a0, step) == Ok::<LayoutView, Failure>(a6));
    assert(a6 == LayoutView { elements: Seq::empty(), ..v });
}

/// The elements of a board as they are written, taken in one after the
/// other.
#[verifier::rlimit(50)]
pub proof fn lemma_elements_round_trip(v: LayoutView)
    requires
        Layout::valid(v),
    ensures
        fold_upto(
            Layout::encoded(v)->List_0,
            7,
            Layout::encoded(v)->List_0.len() as int,
            LayoutView { elements: Seq::empty(), ..v },
            |a: LayoutView, c: Tree| Layout::with_child(a, c),
        ) == Ok::<LayoutView, Failure>(v),
{
    let l = Layout::encoded(v)->List_0;
    let step = |a: LayoutView, c: Tree| Layout::with_child(a, c);
    let n = v.elements.len();
    let states = |j: int| LayoutView { elements: v.elements.take(j), ..v };
    assert(v.elements.take(0) =~= Seq::<ElementView>::empty());
    assert forall|j: int| 0 <= j < n implies step(#[trigger] states(j), l[7 + j]) == Ok::<LayoutView, Failure>(
        states(j + 1),
    ) by {
        assert(l[7 + j] == Element::encoded(v.elements[j]));
        lemma_element_read(states(j), v.elements[j]);
        assert(v.elements.take(j).push(v.elements[j]) =~= v.elements.take(j + 1));
    }
    lemma_fold_tracks(l, 7, n, step, states);
    assert(v.elements.take(n as int) =~= v.elements);
    assert(l.len() == 7 + n);
}

impl Lossless for Layout {
    /// The version reads as an integer; the statistics, the setup, the
    /// layers and the elements are valid; zero reads as a number.
    open spec fn valid(v: LayoutView) -> bool {
        valid_board(v) && bare_layout() is Ok
    }

    proof fn lemma_decoded_is_valid(t: Tree) {
        let l = t->List_0;
        lemma_zero_reads();
        let init = bare_layout()->Ok_0;
        let step = |a: LayoutView, c: Tree| Layout::with_child(a, c);
        let inv = |a: LayoutView| valid_board(a);
        assert forall|a: LayoutView, c: Tree| inv(a) && #[trigger] step(a, c) is Ok implies inv(step(a, c)->Ok_0) by {
            lemma_child_keeps_valid(a, c);
        }
        lemma_fold_keeps(l, 1, l.len() as int, init, step, inv);
    }

    proof fn lemma_round_trip(v: LayoutView) {
        let l = Self::encoded(v)->List_0;
        let step = |a: LayoutView, c: Tree| Layout::with_child(a, c);
        lemma_header_round_trip(v);
        lemma_elements_round_trip(v);
        assert(l.len() >= 7);
        lemma_fold_from(l, 1, 7, l.len() as int, bare_layout()->Ok_0, step);
    }
}

/// A board that was read from a tree, written and read again, is the same
/// board.
pub proof fn lemma_board_reencoded(t: Tree)
    requires
        Layout::decoded(t) is Ok,
    ensures
        Layout::decoded(Layout::encoded(Layout::decoded(t)->Ok_0)) == Layout::decoded(t),
{
    crate::lossless::lemma_reencoded::<Layout>(t);
}

/// A child of a name that the board does not know is kept as it is, and
/// is written as it was.
pub proof fn lemma_unknown_is_kept(acc: LayoutView, t: Tree)
    requires
        list_head(t, "kicad_pcb"@) is Ok,
        !known(list_head(t, "kicad_pcb"@)->Ok_0),
    ensures
        Layout::with_child(acc, t) == Ok::<LayoutView, Failure>(
            crate::layout::de::with_element(acc, ElementView::Other(t)),
        ),
        Element::encoded(ElementView::Other(t)) == t,
{
}

/// Whether a rule of the given name is written among the children of the
/// list of a net class.
pub open spec fn rule_is_written(l: Seq<Tree>, name: Seq<char>) -> bool {
    exists|j: int| 3 <= j < l.len() && list_head(#[trigger] l[j], "net_class"@) == Ok::<Seq<char>, Failure>(name)
}

/// A net class that is written without a via diameter has the
/// conventional one, and writes it.
pub proof fn lemma_absent_via_diameter(t: Tree)
    requires
        NetClass::decoded(t) is Ok,
        !rule_is_written(t->List_0, "via_dia"@),
    ensures
        NetClass::decoded(t)->Ok_0.via_dia == "0.675"@,
        NetClass::encoded(NetClass::decoded(t)->Ok_0)->List_0[5] == pair("via_dia"@, "0.675"@),
{
    let l = t->List_0;
    let init = bare_net_class(l[1]->Atom_0, l[2]->Atom_0)->Ok_0;
    let step = |a: NetClassView, c: Tree| NetClass::with_child(a, c);
    let inv = |a: NetClassView| a.via_dia == "0.675"@;
    assert forall|a: NetClassView, j: int| 3 <= j < l.len() && inv(a) && #[trigger] step(a, l[j]) is Ok implies inv(
        step(a, l[j])->Ok_0,
    ) by {
        assert(list_head(l[j], "net_class"@) != Ok::<Seq<char>, Failure>("via_dia"@));
    }
    crate::lossless::lemma_fold_keeps_along(l, 3, l.len() as int, init, step, inv);
}

/// A dimension with a timestamp has its text and its point lists one place
/// later than the same dimension without: where the list `l` decodes to a
/// dimension without a timestamp, the list with a timestamp put in as the
/// fourth child decodes to the same dimension with that timestamp.
#[verifier::rlimit(50)]
pub proof fn lemma_timestamp_shifts(l: Seq<Tree>, stamp: Seq<char>)
    requires
        Dimension::decoded(Tree::List(l)) is Ok,
        Dimension::decoded(Tree::List(l))->Ok_0.tstamp is None,
    ensures
        Dimension::decoded(Tree::List(l.insert(4, pair("tstamp"@, stamp)))) == Ok::<DimensionView, Failure>(
            DimensionView { tstamp: Some(stamp), ..Dimension::decoded(Tree::List(l))->Ok_0 },
        ),
{
    let m = l.insert(4, pair("tstamp"@, stamp));
    assert(m.len() == l.len() + 1);
    assert(m[0] == l[0]);
    assert(m[1] == l[1]);
    assert(m[2] == l[2]);
    assert(m[3] == l[3]);
    assert(m[4] == pair("tstamp"@, stamp));
    assert(m[5] == l[4]);
    assert(m[6] == l[5]);
    assert(m[7] == l[6]);
    assert(m[8] == l[7]);
    assert(m[9] == l[8]);
    assert(m[10] == l[9]);
    assert(m[11] == l[10]);
    assert(m[12] == l[11]);
}

/// Whether a name is that of a field of a graphic or routing primitive.
pub open spec fn is_field_name(name: Seq<char>) -> bool {
    name == "start"@ || name == "end"@ || name == "center"@ || name == "angle"@ || name == "layer"@ || name
        == "width"@ || name == "size"@ || name == "drill"@ || name == "tstamp"@ || name == "status"@ || name
        == "net"@ || name == "at"@ || name == "layers"@ || name == "effects"@
}

/// Whether a tree is a child that the primitives pass over for its name: a
/// list under a name that is no field's.
pub open spec fn is_no_field(t: Tree) -> bool {
    known_field(t) == Ok::<Option<GrElementView>, Failure>(None)
}

/// A list under a name that is no field's is passed over, whatever it
/// holds.
pub proof fn lemma_unknown_name_is_no_field(t: Tree)
    requires
        list_head(t, "element"@) is Ok,
        !is_field_name(list_head(t, "element"@)->Ok_0),
    ensures
        is_no_field(t),
{
}

/// A line with one more child of a name that is no field's, wherever it
/// stands among the children, is the same line.
pub proof fn lemma_line_passes_over(l: Seq<Tree>, p: int, x: Tree)
    requires
        GrLine::decoded(Tree::List(l)) is Ok,
        is_no_field(x),
        1 <= p <= l.len(),
    ensures
        GrLine::decoded(Tree::List(l.insert(p, x))) == GrLine::decoded(Tree::List(l)),
{
    assert(l.insert(p, x)[0] == l[0]);
    lemma_idle_child::<GrLine>(l, 1, p, x, crate::layout::de::bare_line()->Ok_0);
}

/// An arc with one more child of a name that is no field's, wherever it
/// stands among the children, is the same arc.
pub proof fn lemma_arc_passes_over(l: Seq<Tree>, p: int, x: Tree)
    requires
        GrArc::decoded(Tree::List(l)) is Ok,
        is_no_field(x),
        1 <= p <= l.len(),
    ensures
        GrArc::decoded(Tree::List(l.insert(p, x))) == GrArc::decoded(Tree::List(l)),
{
    assert(l.insert(p, x)[0] == l[0]);
    lemma_idle_child::<GrArc>(l, 1, p, x, crate::layout::de::bare_arc()->Ok_0);
}

/// A circle with one more child of a name that is no field's, wherever it
/// stands among the children, is the same circle.
pub proof fn lemma_circle_passes_over(l: Seq<Tree>, p: int, x: Tree)
    requires
        GrCircle::decoded(Tree::List(l)) is Ok,
        is_no_field(x),
        1 <= p <= l.len(),
    ensures
        GrCircle::decoded(Tree::List(l.insert(p, x))) == GrCircle::decoded(Tree::List(l)),
{
    assert(l.insert(p, x)[0] == l[0]);
    lemma_idle_child::<GrCircle>(l, 1, p, x, crate::layout::de::bare_circle()->Ok_0);
}

/// A track segment with one more child of a name that is no field's,
/// wherever it stands among the children, is the same segment.
pub proof fn lemma_segment_passes_over(l: Seq<Tree>, p: int, x: Tree)
    requires
        Segment::decoded(Tree::List(l)) is Ok,
        is_no_field(x),
        1 <= p <= l.len(),
    ensures
        Segment::decoded(Tree::List(l.insert(p, x))) == Segment::decoded(Tree::List(l)),
{
    assert(l.insert(p, x)[0] == l[0]);
    lemma_idle_child::<Segment>(l, 1, p, x, crate::layout::de::bare_segment()->Ok_0);
}

/// A via with one more child of a name that is no field's, wherever it
/// stands among the children, is the same via.
pub proof fn lemma_via_passes_over(l: Seq<Tree>, p: int, x: Tree)
    requires
        Via::decoded(Tree::List(l)) is Ok,
        is_no_field(x),
        1 <= p <= l.len(),
    ensures
        Via::decoded(Tree::List(l.insert(p, x))) == Via::decoded(Tree::List(l)),
{
    assert(l.insert(p, x)[0] == l[0]);
    lemma_idle_child::<Via>(l, 1, p, x, crate::layout::de::bare_via()->Ok_0);
}

/// A text with one more child of a name that is no field's, wherever it
/// stands after the text itself, is the same text.
pub proof fn lemma_text_passes_over(l: Seq<Tree>, p: int, x: Tree)
    requires
        GrText::decoded(Tree::List(l)) is Ok,
        is_no_field(x),
        2 <= p <= l.len(),
    ensures
        GrText::decoded(Tree::List(l.insert(p, x))) == GrText::decoded(Tree::List(l)),
{
    assert(l.insert(p, x)[0] == l[0]);
    assert(l.insert(p, x)[1] == l[1]);
    lemma_idle_child::<GrText>(l, 2, p, x, crate::layout::de::bare_text(l[1]->Atom_0)->Ok_0);
}

} // verus!
