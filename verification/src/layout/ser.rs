//! Encoding a board into its tree.

use vstd::prelude::*;
use crate::footprint;
use crate::codec::{
    append, append_each, append_nodes, atom, encode_each, IntoSexp, list, node, optional, pair, pair_node,
    start, views,
};
use crate::footprint::{At, Effects, Layers, Module, Pts, PtsView, Xy};
use crate::layout::data::{
    Area, AreaView, ConnectPads, ConnectPadsView, Dimension, DimensionView, Element, ElementView, Fill,
    FillView, General, GeneralView, GrArc, GrArcView, GrCircle, GrCircleView, GrLine, GrLineView, GrText,
    GrTextView, Hatch, HatchView, Host, HostView, Keepout, Layer, LayerType, LayerView, Layout,
    LayoutView, Net, NetClass, NetClassView, NetView, Segment, SegmentView, Setup, SetupElement,
    SetupElementView, SetupView, Via, ViaView, Zone, ZoneView,
};
use crate::tree::{forest, Node, Tree};

verus! {

/// `(name (pts ..))`: a point list under the given name.
pub open spec fn encoded_outline(v: PtsView, name: Seq<char>) -> Tree {
    node(name, seq![Pts::encoded(v)])
}

/// Encodes a point list under the given name.
pub fn outline_into_sexp(pts: &Pts, name: &str) -> (n: Node)
    ensures
        n@ == encoded_outline(pts@, name@),
{
    let mut v = start(name);
    append(&mut v, pts.into_sexp());
    assert(forest(v@) =~= encoded_outline(pts@, name@)->List_0);
    list(v)
}

impl IntoSexp for Net {
    open spec fn encoded(v: NetView) -> Tree {
        node("net"@, seq![Tree::Atom(v.num), Tree::Atom(v.name)])
    }

    fn into_sexp(&self) -> (n: Node) {
        let mut v = start("net");
        append(&mut v, atom(self.num.as_str()));
        append(&mut v, atom(self.name.as_str()));
        assert(forest(v@) =~= Self::encoded(self@)->List_0);
        list(v)
    }
}

impl IntoSexp for Host {
    open spec fn encoded(v: HostView) -> Tree {
        node("host"@, seq![Tree::Atom(v.tool), Tree::Atom(v.build)])
    }

    fn into_sexp(&self) -> (n: Node) {
        let mut v = start("host");
        append(&mut v, atom(self.tool.as_str()));
        append(&mut v, atom(self.build.as_str()));
        assert(forest(v@) =~= Self::encoded(self@)->List_0);
        list(v)
    }
}

impl IntoSexp for Area {
    open spec fn encoded(v: AreaView) -> Tree {
        node("area"@, seq![Tree::Atom(v.x1), Tree::Atom(v.y1), Tree::Atom(v.x2), Tree::Atom(v.y2)])
    }

    fn into_sexp(&self) -> (n: Node) {
        let mut v = start("area");
        append(&mut v, atom(self.x1.as_str()));
        append(&mut v, atom(self.y1.as_str()));
        append(&mut v, atom(self.x2.as_str()));
        append(&mut v, atom(self.y2.as_str()));
        assert(forest(v@) =~= Self::encoded(self@)->List_0);
        list(v)
    }
}

impl IntoSexp for General {
    open spec fn encoded(v: GeneralView) -> Tree {
        node(
            "general"@,
            seq![
                pair("links"@, v.links),
                pair("no_connects"@, v.no_connects),
                Area::encoded(v.area),
                pair("thickness"@, v.thickness),
                pair("drawings"@, v.drawings),
                pair("tracks"@, v.tracks),
                pair("zones"@, v.zones),
                pair("modules"@, v.modules),
                pair("nets"@, v.nets),
            ],
        )
    }

    fn into_sexp(&self) -> (n: Node) {
        let mut v = start("general");
        append(&mut v, pair_node("links", self.links.as_str()));
        append(&mut v, pair_node("no_connects", self.no_connects.as_str()));
        append(&mut v, self.area.into_sexp());
        append(&mut v, pair_node("thickness", self.thickness.as_str()));
        append(&mut v, pair_node("drawings", self.drawings.as_str()));
        append(&mut v, pair_node("tracks", self.tracks.as_str()));
        append(&mut v, pair_node("zones", self.zones.as_str()));
        append(&mut v, pair_node("modules", self.modules.as_str()));
        append(&mut v, pair_node("nets", self.nets.as_str()));
        assert(forest(v@) =~= Self::encoded(self@)->List_0);
        list(v)
    }
}

/// The atom of a kind of layer.
pub open spec fn layer_type_name(t: LayerType) -> Seq<char> {
    match t {
        LayerType::Signal => "signal"@,
        LayerType::User => "user"@,
    }
}

impl IntoSexp for LayerType {
    open spec fn encoded(v: LayerType) -> Tree {
        Tree::Atom(layer_type_name(v))
    }

    fn into_sexp(&self) -> (n: Node) {
        match self {
            LayerType::Signal => atom("signal"),
            LayerType::User => atom("user"),
        }
    }
}

impl IntoSexp for Layer {
    open spec fn encoded(v: LayerView) -> Tree {
        Tree::List(
            seq![Tree::Atom(v.num), Tree::Atom(v.layer), LayerType::encoded(v.layer_type)] + if v.hide {
                seq![Tree::Atom("hide"@)]
            } else {
                Seq::empty()
            },
        )
    }

    fn into_sexp(&self) -> (n: Node) {
        let mut v: Vec<Node> = Vec::new();
        assert(forest(v@) =~= Seq::<Tree>::empty());
        append(&mut v, atom(self.num.as_str()));
        append(&mut v, atom(self.layer.name.as_str()));
        append(&mut v, self.layer_type.into_sexp());
        if self.hide {
            append(&mut v, atom("hide"));
        }
        assert(forest(v@) =~= Self::encoded(self@)->List_0);
        list(v)
    }
}

/// `(layers entry ..)`.
pub open spec fn encoded_layer_table(v: Seq<LayerView>) -> Tree {
    node("layers"@, encode_each::<Layer>(v))
}

/// Encodes the layer table.
pub fn layer_table_into_sexp(layers: &Vec<Layer>) -> (n: Node)
    ensures
        n@ == encoded_layer_table(views(layers@)),
{
    let mut v = start("layers");
    append_each::<Layer>(&mut v, layers);
    list(v)
}

impl IntoSexp for SetupElement {
    open spec fn encoded(v: SetupElementView) -> Tree {
        Tree::List(
            seq![Tree::Atom(v.name), Tree::Atom(v.value1)] + optional(v.value2, |s: Seq<char>| Tree::Atom(s)),
        )
    }

    fn into_sexp(&self) -> (n: Node) {
        let mut v: Vec<Node> = Vec::new();
        assert(forest(v@) =~= Seq::<Tree>::empty());
        append(&mut v, atom(self.name.as_str()));
        append(&mut v, atom(self.value1.as_str()));
        match &self.value2 {
            Some(s) => append(&mut v, atom(s.as_str())),
            None => {},
        }
        assert(forest(v@) =~= Self::encoded(self@)->List_0);
        list(v)
    }
}

impl IntoSexp for Setup {
    /// The entries, then the plot parameters in a list of their own.
    open spec fn encoded(v: SetupView) -> Tree {
        node(
            "setup"@,
            encode_each::<SetupElement>(v.elements) + seq![
                node("pcbplotparams"@, encode_each::<SetupElement>(v.pcbplotparams)),
            ],
        )
    }

    fn into_sexp(&self) -> (n: Node) {
        let mut v = start("setup");
        append_each::<SetupElement>(&mut v, &self.elements);
        let mut p = start("pcbplotparams");
        append_each::<SetupElement>(&mut p, &self.pcbplotparams);
        append(&mut v, list(p));
        assert(forest(v@) =~= Self::encoded(self@)->List_0);
        list(v)
    }
}

impl IntoSexp for NetClass {
    /// The name and the description, the six rules, the rules of
    /// differential pairs where they are configured, then the members.
    open spec fn encoded(v: NetClassView) -> Tree {
        node(
            "net_class"@,
            seq![
                Tree::Atom(v.name),
                Tree::Atom(v.desc),
                pair("clearance"@, v.clearance),
                pair("trace_width"@, v.trace_width),
                pair("via_dia"@, v.via_dia),
                pair("via_drill"@, v.via_drill),
                pair("uvia_dia"@, v.uvia_dia),
                pair("uvia_drill"@, v.uvia_drill),
            ] + optional(v.diff_pair_gap, |x: Seq<char>| pair("diff_pair_gap"@, x)) + optional(
                v.diff_pair_width,
                |x: Seq<char>| pair("diff_pair_width"@, x),
            ) + v.nets.map_values(|x: Seq<char>| pair("add_net"@, x)),
        )
    }

    fn into_sexp(&self) -> (n: Node) {
        let mut v = start("net_class");
        append(&mut v, atom(self.name.as_str()));
        append(&mut v, atom(self.desc.as_str()));
        append(&mut v, pair_node("clearance", self.clearance.as_str()));
        append(&mut v, pair_node("trace_width", self.trace_width.as_str()));
        append(&mut v, pair_node("via_dia", self.via_dia.as_str()));
        append(&mut v, pair_node("via_drill", self.via_drill.as_str()));
        append(&mut v, pair_node("uvia_dia", self.uvia_dia.as_str()));
        append(&mut v, pair_node("uvia_drill", self.uvia_drill.as_str()));
        match &self.diff_pair_gap {
            Some(x) => append(&mut v, pair_node("diff_pair_gap", x.as_str())),
            None => {},
        }
        match &self.diff_pair_width {
            Some(x) => append(&mut v, pair_node("diff_pair_width", x.as_str())),
            None => {},
        }
        let ghost head = forest(v@);
        let ghost members = self@.nets.map_values(|x: Seq<char>| pair("add_net"@, x));
        let mut i: usize = 0;
        assert(forest(v@) =~= head + members.take(0));
        while i < self.nets.len()
            invariant
                i <= self.nets.len(),
                members == self@.nets.map_values(|x: Seq<char>| pair("add_net"@, x)),
                forest(v@) == head + members.take(i as int),
            decreases self.nets.len() - i,
        {
            append(&mut v, pair_node("add_net", self.nets[i].as_str()));
            assert(forest(v@) =~= head + members.take(i + 1));
            i += 1;
        }
        assert(members.take(i as int) =~= members);
        assert(forest(v@) =~= Self::encoded(self@)->List_0);
        list(v)
    }
}

impl IntoSexp for GrText {
    /// The text, its position and layer, its timestamp where it has one,
    /// its effects.
    open spec fn encoded(v: GrTextView) -> Tree {
        node(
            "gr_text"@,
            seq![Tree::Atom(v.value), At::encoded(v.at), footprint::Layer::encoded(v.layer)] + optional(
                v.tstamp,
                |x: Seq<char>| pair("tstamp"@, x),
            ) + seq![Effects::encoded(v.effects)],
        )
    }

    fn into_sexp(&self) -> (n: Node) {
        let mut v = start("gr_text");
        append(&mut v, atom(self.value.as_str()));
        append(&mut v, self.at.into_sexp());
        append(&mut v, self.layer.into_sexp());
        match &self.tstamp {
            Some(x) => append(&mut v, pair_node("tstamp", x.as_str())),
            None => {},
        }
        append(&mut v, self.effects.into_sexp());
        assert(forest(v@) =~= Self::encoded(self@)->List_0);
        list(v)
    }
}

impl IntoSexp for GrLine {
    /// Start, end, angle, layer, width, and the timestamp where there is
    /// one.
    open spec fn encoded(v: GrLineView) -> Tree {
        node(
            "gr_line"@,
            seq![
                Xy::encoded(v.start),
                Xy::encoded(v.end),
                pair("angle"@, v.angle),
                footprint::Layer::encoded(v.layer),
                pair("width"@, v.width),
            ] + optional(v.tstamp, |x: Seq<char>| pair("tstamp"@, x)),
        )
    }

    fn into_sexp(&self) -> (n: Node) {
        let mut v = start("gr_line");
        append(&mut v, self.start.into_sexp());
        append(&mut v, self.end.into_sexp());
        append(&mut v, pair_node("angle", self.angle.as_str()));
        append(&mut v, self.layer.into_sexp());
        append(&mut v, pair_node("width", self.width.as_str()));
        match &self.tstamp {
            Some(x) => append(&mut v, pair_node("tstamp", x.as_str())),
            None => {},
        }
        assert(forest(v@) =~= Self::encoded(self@)->List_0);
        list(v)
    }
}

impl IntoSexp for GrArc {
    /// Start, end, angle, layer, width, and the timestamp where there is
    /// one.
    open spec fn encoded(v: GrArcView) -> Tree {
        node(
            "gr_arc"@,
            seq![
                Xy::encoded(v.start),
                Xy::encoded(v.end),
                pair("angle"@, v.angle),
                footprint::Layer::encoded(v.layer),
                pair("width"@, v.width),
            ] + optional(v.tstamp, |x: Seq<char>| pair("tstamp"@, x)),
        )
    }

    fn into_sexp(&self) -> (n: Node) {
        let mut v = start("gr_arc");
        append(&mut v, self.start.into_sexp());
        append(&mut v, self.end.into_sexp());
        append(&mut v, pair_node("angle", self.angle.as_str()));
        append(&mut v, self.layer.into_sexp());
        append(&mut v, pair_node("width", self.width.as_str()));
        match &self.tstamp {
            Some(x) => append(&mut v, pair_node("tstamp", x.as_str())),
            None => {},
        }
        assert(forest(v@) =~= Self::encoded(self@)->List_0);
        list(v)
    }
}

impl IntoSexp for GrCircle {
    /// Center, end, layer, width, and the timestamp where there is one.
    open spec fn encoded(v: GrCircleView) -> Tree {
        node(
            "gr_circle"@,
            seq![
                Xy::encoded(v.center),
                Xy::encoded(v.end),
                footprint::Layer::encoded(v.layer),
                pair("width"@, v.width),
            ] + optional(v.tstamp, |x: Seq<char>| pair("tstamp"@, x)),
        )
    }

    fn into_sexp(&self) -> (n: Node) {
        let mut v = start("gr_circle");
        append(&mut v, self.center.into_sexp());
        append(&mut v, self.end.into_sexp());
        append(&mut v, self.layer.into_sexp());
        append(&mut v, pair_node("width", self.width.as_str()));
        match &self.tstamp {
            Some(x) => append(&mut v, pair_node("tstamp", x.as_str())),
            None => {},
        }
        assert(forest(v@) =~= Self::encoded(self@)->List_0);
        list(v)
    }
}

impl IntoSexp for Segment {
    /// Start, end, width, layer, net, and the timestamp and the status
    /// where there are any.
    open spec fn encoded(v: SegmentView) -> Tree {
        node(
            "segment"@,
            seq![
                Xy::encoded(v.start),
                Xy::encoded(v.end),
                pair("width"@, v.width),
                footprint::Layer::encoded(v.layer),
                pair("net"@, v.net),
            ] + optional(v.tstamp, |x: Seq<char>| pair("tstamp"@, x)) + optional(
                v.status,
                |x: Seq<char>| pair("status"@, x),
            ),
        )
    }

    fn into_sexp(&self) -> (n: Node) {
        let mut v = start("segment");
        append(&mut v, self.start.into_sexp());
        append(&mut v, self.end.into_sexp());
        append(&mut v, pair_node("width", self.width.as_str()));
        append(&mut v, self.layer.into_sexp());
        append(&mut v, pair_node("net", self.net.as_str()));
        match &self.tstamp {
            Some(x) => append(&mut v, pair_node("tstamp", x.as_str())),
            None => {},
        }
        match &self.status {
            Some(x) => append(&mut v, pair_node("status", x.as_str())),
            None => {},
        }
        assert(forest(v@) =~= Self::encoded(self@)->List_0);
        list(v)
    }
}

impl IntoSexp for Via {
    /// Position, size, drill, layers, net.
    open spec fn encoded(v: ViaView) -> Tree {
        node(
            "via"@,
            seq![
                At::encoded(v.at),
                pair("size"@, v.size),
                pair("drill"@, v.drill),
                Layers::encoded(v.layers),
                pair("net"@, v.net),
            ],
        )
    }

    fn into_sexp(&self) -> (n: Node) {
        let mut v = start("via");
        append(&mut v, self.at.into_sexp());
        append(&mut v, pair_node("size", self.size.as_str()));
        append(&mut v, pair_node("drill", self.drill.as_str()));
        append(&mut v, self.layers.into_sexp());
        append(&mut v, pair_node("net", self.net.as_str()));
        assert(forest(v@) =~= Self::encoded(self@)->List_0);
        list(v)
    }
}

impl IntoSexp for Hatch {
    open spec fn encoded(v: HatchView) -> Tree {
        node("hatch"@, seq![Tree::Atom(v.style), Tree::Atom(v.pitch)])
    }

    fn into_sexp(&self) -> (n: Node) {
        let mut v = start("hatch");
        append(&mut v, atom(self.style.as_str()));
        append(&mut v, atom(self.pitch.as_str()));
        assert(forest(v@) =~= Self::encoded(self@)->List_0);
        list(v)
    }
}

impl IntoSexp for ConnectPads {
    /// The kind of connection where there is one, then the clearance.
    open spec fn encoded(v: ConnectPadsView) -> Tree {
        node(
            "connect_pads"@,
            optional(v.connection, |x: Seq<char>| Tree::Atom(x)) + seq![pair("clearance"@, v.clearance)],
        )
    }

    fn into_sexp(&self) -> (n: Node) {
        let mut v = start("connect_pads");
        match &self.connection {
            Some(x) => append(&mut v, atom(x.as_str())),
            None => {},
        }
        append(&mut v, pair_node("clearance", self.clearance.as_str()));
        assert(forest(v@) =~= Self::encoded(self@)->List_0);
        list(v)
    }
}

/// The value of a keep-out flag: `allowed`, or `not_allowed`.
pub open spec fn permission(allowed: bool) -> Seq<char> {
    if allowed {
        "allowed"@
    } else {
        "not_allowed"@
    }
}

/// The value of a keep-out flag.
pub fn permission_text(allowed: bool) -> (text: &'static str)
    ensures
        text@ == permission(allowed),
{
    if allowed {
        "allowed"
    } else {
        "not_allowed"
    }
}

impl IntoSexp for Keepout {
    open spec fn encoded(v: Keepout) -> Tree {
        node(
            "keepout"@,
            seq![
                pair("tracks"@, permission(v.tracks)),
                pair("vias"@, permission(v.vias)),
                pair("copperpour"@, permission(v.copperpour)),
            ],
        )
    }

    fn into_sexp(&self) -> (n: Node) {
        let mut v = start("keepout");
        append(&mut v, pair_node("tracks", permission_text(self.tracks)));
        append(&mut v, pair_node("vias", permission_text(self.vias)));
        append(&mut v, pair_node("copperpour", permission_text(self.copperpour)));
        assert(forest(v@) =~= Self::encoded(self@)->List_0);
        list(v)
    }
}

impl IntoSexp for Fill {
    /// `yes` where the zone is filled, the mode where it is filled with
    /// segments, the three thermal settings, the smoothing where there is
    /// one, the corner radius.
    open spec fn encoded(v: FillView) -> Tree {
        node(
            "fill"@,
            (if v.filled {
                seq![Tree::Atom("yes"@)]
            } else {
                Seq::empty()
            }) + (if v.segment {
                seq![pair("mode"@, "segment"@)]
            } else {
                Seq::empty()
            }) + seq![
                pair("arc_segments"@, v.arc_segments),
                pair("thermal_gap"@, v.thermal_gap),
                pair("thermal_bridge_width"@, v.thermal_bridge_width),
            ] + optional(v.smoothing, |x: Seq<char>| pair("smoothing"@, x)) + seq![pair("radius"@, v.corner_radius)],
        )
    }

    fn into_sexp(&self) -> (n: Node) {
        let mut v = start("fill");
        if self.filled {
            append(&mut v, atom("yes"));
        }
        if self.segment {
            append(&mut v, pair_node("mode", "segment"));
        }
        append(&mut v, pair_node("arc_segments", self.arc_segments.as_str()));
        append(&mut v, pair_node("thermal_gap", self.thermal_gap.as_str()));
        append(&mut v, pair_node("thermal_bridge_width", self.thermal_bridge_width.as_str()));
        match &self.smoothing {
            Some(x) => append(&mut v, pair_node("smoothing", x.as_str())),
            None => {},
        }
        append(&mut v, pair_node("radius", self.corner_radius.as_str()));
        assert(forest(v@) =~= Self::encoded(self@)->List_0);
        list(v)
    }
}

/// The trees of point lists under the given name.
pub open spec fn encoded_outlines(vs: Seq<PtsView>, name: Seq<char>) -> Seq<Tree> {
    vs.map_values(|v: PtsView| encoded_outline(v, name))
}

/// Adds the trees of point lists under the given name.
pub fn append_outlines(v: &mut Vec<Node>, items: &Vec<Pts>, name: &str)
    ensures
        forest(final(v)@) == forest(old(v)@) + encoded_outlines(views(items@), name@),
{
    let ghost before = forest(v@);
    let ghost all = encoded_outlines(views(items@), name@);
    let mut i: usize = 0;
    assert(forest(v@) =~= before + all.take(0));
    while i < items.len()
        invariant
            i <= items.len(),
            all == encoded_outlines(views(items@), name@),
            forest(v@) == before + all.take(i as int),
        decreases items.len() - i,
    {
        append(v, outline_into_sexp(&items[i], name));
        assert(forest(v@) =~= before + all.take(i + 1));
        i += 1;
    }
    assert(all.take(i as int) =~= all);
}

impl IntoSexp for Zone {
    /// The fields up to the fill in their order, the keep-out where there
    /// is one; then the outlines, the fill results, the fill segments where
    /// there are any, and the children that were kept as written.
    open spec fn encoded(v: ZoneView) -> Tree {
        node(
            "zone"@,
            seq![
                pair("net"@, v.net),
                pair("net_name"@, v.net_name),
                footprint::Layer::encoded(v.layer),
                pair("tstamp"@, v.tstamp),
                Hatch::encoded(v.hatch),
                pair("priority"@, v.priority),
                ConnectPads::encoded(v.connect_pads),
                pair("min_thickness"@, v.min_thickness),
            ] + optional(v.keepout, |k: Keepout| Keepout::encoded(k)) + seq![Fill::encoded(v.fill)]
                + encoded_outlines(v.polygons, "polygon"@) + encoded_outlines(v.filled_polygons, "filled_polygon"@)
                + optional(v.fill_segments, |p: PtsView| encoded_outline(p, "fill_segments"@)) + v.other,
        )
    }

    fn into_sexp(&self) -> (n: Node) {
        let mut v = start("zone");
        append(&mut v, pair_node("net", self.net.as_str()));
        append(&mut v, pair_node("net_name", self.net_name.as_str()));
        append(&mut v, self.layer.into_sexp());
        append(&mut v, pair_node("tstamp", self.tstamp.as_str()));
        append(&mut v, self.hatch.into_sexp());
        append(&mut v, pair_node("priority", self.priority.as_str()));
        append(&mut v, self.connect_pads.into_sexp());
        append(&mut v, pair_node("min_thickness", self.min_thickness.as_str()));
        match &self.keepout {
            Some(k) => append(&mut v, k.into_sexp()),
            None => {},
        }
        append(&mut v, self.fill.into_sexp());
        append_outlines(&mut v, &self.polygons, "polygon");
        append_outlines(&mut v, &self.filled_polygons, "filled_polygon");
        match &self.fill_segments {
            Some(p) => append(&mut v, outline_into_sexp(p, "fill_segments")),
            None => {},
        }
        append_nodes(&mut v, &self.other);
        assert(forest(v@) =~= Self::encoded(self@)->List_0);
        list(v)
    }
}

/// The pair `(name (pts ..))`.
pub open spec fn encoded_feature(v: PtsView, name: Seq<char>) -> Tree {
    Tree::List(seq![Tree::Atom(name), Pts::encoded(v)])
}

/// Encodes the pair `(name (pts ..))`.
pub fn feature_into_sexp(pts: &Pts, name: &str) -> (n: Node)
    ensures
        n@ == encoded_feature(pts@, name@),
{
    let mut v = start(name);
    append(&mut v, pts.into_sexp());
    assert(forest(v@) =~= encoded_feature(pts@, name@)->List_0);
    list(v)
}

impl IntoSexp for Dimension {
    /// The value, the width, the layer, the timestamp where there is one,
    /// the text, the seven point lists.
    open spec fn encoded(v: DimensionView) -> Tree {
        node(
            "dimension"@,
            seq![Tree::Atom(v.name), pair("width"@, v.width), footprint::Layer::encoded(v.layer)] + optional(
                v.tstamp,
                |x: Seq<char>| pair("tstamp"@, x),
            ) + seq![
                GrText::encoded(v.text),
                encoded_feature(v.feature1, "feature1"@),
                encoded_feature(v.feature2, "feature2"@),
                encoded_feature(v.crossbar, "crossbar"@),
                encoded_feature(v.arrow1a, "arrow1a"@),
                encoded_feature(v.arrow1b, "arrow1b"@),
                encoded_feature(v.arrow2a, "arrow2a"@),
                encoded_feature(v.arrow2b, "arrow2b"@),
            ],
        )
    }

    fn into_sexp(&self) -> (n: Node) {
        let mut v = start("dimension");
        append(&mut v, atom(self.name.as_str()));
        append(&mut v, pair_node("width", self.width.as_str()));
        append(&mut v, self.layer.into_sexp());
        match &self.tstamp {
            Some(x) => append(&mut v, pair_node("tstamp", x.as_str())),
            None => {},
        }
        append(&mut v, self.text.into_sexp());
        append(&mut v, feature_into_sexp(&self.feature1, "feature1"));
        append(&mut v, feature_into_sexp(&self.feature2, "feature2"));
        append(&mut v, feature_into_sexp(&self.crossbar, "crossbar"));
        append(&mut v, feature_into_sexp(&self.arrow1a, "arrow1a"));
        append(&mut v, feature_into_sexp(&self.arrow1b, "arrow1b"));
        append(&mut v, feature_into_sexp(&self.arrow2a, "arrow2a"));
        append(&mut v, feature_into_sexp(&self.arrow2b, "arrow2b"));
        assert(forest(v@) =~= Self::encoded(self@)->List_0);
        list(v)
    }
}

impl IntoSexp for Element {
    /// Each element as its own kind writes it; an element that was kept as
    /// written is written as it was.
    open spec fn encoded(v: ElementView) -> Tree {
        match v {
            ElementView::Module(x) => Module::encoded(x),
            ElementView::Net(x) => Net::encoded(x),
            ElementView::NetClass(x) => NetClass::encoded(x),
            ElementView::GrText(x) => GrText::encoded(x),
            ElementView::GrLine(x) => GrLine::encoded(x),
            ElementView::GrArc(x) => GrArc::encoded(x),
            ElementView::GrCircle(x) => GrCircle::encoded(x),
            ElementView::Dimension(x) => Dimension::encoded(x),
            ElementView::Zone(x) => Zone::encoded(x),
            ElementView::Segment(x) => Segment::encoded(x),
            ElementView::Via(x) => Via::encoded(x),
            ElementView::Other(t) => t,
        }
    }

    fn into_sexp(&self) -> (n: Node) {
        match self {
            Element::Module(x) => x.into_sexp(),
            Element::Net(x) => x.into_sexp(),
            Element::NetClass(x) => x.into_sexp(),
            Element::GrText(x) => x.into_sexp(),
            Element::GrLine(x) => x.into_sexp(),
            Element::GrArc(x) => x.into_sexp(),
            Element::GrCircle(x) => x.into_sexp(),
            Element::Dimension(x) => x.into_sexp(),
            Element::Zone(x) => x.into_sexp(),
            Element::Segment(x) => x.into_sexp(),
            Element::Via(x) => x.into_sexp(),
            Element::Other(t) => t.duplicate(),
        }
    }
}

impl IntoSexp for Layout {
    /// The header in the order version, host, statistics, page, layer
    /// table, setup; then the elements in their order.
    open spec fn encoded(v: LayoutView) -> Tree {
        node(
            "kicad_pcb"@,
            seq![
                pair("version"@, v.version),
                Host::encoded(v.host),
                General::encoded(v.general),
                pair("page"@, v.page),
                encoded_layer_table(v.layers),
                Setup::encoded(v.setup),
            ] + encode_each::<Element>(v.elements),
        )
    }

    fn into_sexp(&self) -> (n: Node) {
        let mut v = start("kicad_pcb");
        append(&mut v, pair_node("version", self.version.as_str()));
        append(&mut v, self.host.into_sexp());
        append(&mut v, self.general.into_sexp());
        append(&mut v, pair_node("page", self.page.as_str()));
        append(&mut v, layer_table_into_sexp(&self.layers));
        append(&mut v, self.setup.into_sexp());
        append_each::<Element>(&mut v, &self.elements);
        assert(forest(v@) =~= Self::encoded(self@)->List_0);
        list(v)
    }
}

} // verus!
