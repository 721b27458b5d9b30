//! Decoding a board from its tree.

use vstd::prelude::*;
use crate::footprint;
use crate::codec::{
    decode_at, decode_field, decode_rest, decode_text, decode_vec, FieldBag, fill_from, filled, FromSexp,
    lift, reads_as, views,
};
use crate::cursor::{
    arg_decimal, arg_int, arg_text, as_int, as_text, child, children_of, decimal_arg, decimal_at,
    decimal_field, field, head_of, int_arg, int_at, int_field, int_of, list_head, list_of, list_of_len,
    named_decimal_at, named_decimal_field, named_int_at, named_int_field, named_list, named_list_of,
    named_text_at, named_text_field, named_value, plain_list, text_arg, text_at, text_field, text_of,
    value_of,
};
use crate::decimal::{Decimal, preset, zero};
use crate::error::{agrees, DecodeError, ErrorKind, Failure, KicadError};
use crate::footprint::{
    At, default_layer, Effects, empty_xy, Layers, Module, origin, Pts, PtsView, Xy, XyType,
};
use crate::integer::{Integer, zero_int};
use crate::layout::data::{
    Area, AreaView, ConnectPads, ConnectPadsView, Dimension, DimensionView, Element, ElementView, Fill,
    FillView, General, GeneralView, GrArc, GrArcView, GrCircle, GrCircleView, GrElement, GrElementView,
    GrLine, GrLineView, GrText, GrTextView, Hatch, HatchView, Host, HostView, Keepout, Layer, LayerType,
    LayerView, Layout, LayoutView, Net, NetClass, NetClassView, NetView, Segment, SegmentView, Setup,
    SetupElement, SetupElementView, SetupView, Via, ViaView, Zone, ZoneView,
};
use crate::symbolic::parsed;
use crate::text::{has_prefix, str_eq};
use crate::tree::{forest, Node, Tree};

verus! {

/// `(version integer)`.
pub open spec fn decoded_version(t: Tree) -> Result<Seq<char>, Failure> {
    match named_list(t, "version"@) {
        Err(e) => Err(e),
        Ok(l) => int_at(l, 1, "value"@),
    }
}

/// Decodes the version of the file format.
pub fn version_from_sexp(s: &Node) -> (r: Result<Integer, DecodeError>)
    ensures
        agrees(r, decoded_version(s@)),
{
    int_field(list_of(s, "version")?, 1, "value")
}

/// `(page text)`.
pub open spec fn decoded_page(t: Tree) -> Result<Seq<char>, Failure> {
    match named_list(t, "page"@) {
        Err(e) => Err(e),
        Ok(l) => text_at(l, 1, "value"@),
    }
}

/// Decodes the page size.
pub fn page_from_sexp(s: &Node) -> (r: Result<String, DecodeError>)
    ensures
        agrees(r, decoded_page(s@)),
{
    Ok(text_field(list_of(s, "page")?, 1, "value")?.clone())
}

/// `(name (pts ..))`: a point list under the given name.
pub open spec fn decoded_outline(t: Tree, name: Seq<char>) -> Result<PtsView, Failure> {
    match named_list(t, name) {
        Err(e) => Err(e),
        Ok(l) => match child(l, 1, "pts"@) {
            Err(e) => Err(e),
            Ok(c) => Pts::decoded(c),
        },
    }
}

/// Decodes a point list under the given name.
pub fn outline_from_sexp(s: &Node, name: &str) -> (r: Result<Pts, DecodeError>)
    ensures
        agrees(r, decoded_outline(s@, name@)),
{
    Pts::from_sexp(field(list_of(s, name)?, 1, "pts")?)
}

impl FromSexp for Net {
    /// `(net number name)`.
    open spec fn decoded(t: Tree) -> Result<NetView, Failure> {
        match named_list(t, "net"@) {
            Err(e) => Err(e),
            Ok(l) => {
                let num = int_at(l, 1, "num"@);
                let name = text_at(l, 2, "name"@);
                if num is Err {
                    Err(num->Err_0)
                } else if name is Err {
                    Err(name->Err_0)
                } else {
                    Ok(NetView { num: num->Ok_0, name: name->Ok_0 })
                }
            },
        }
    }

    fn from_sexp(s: &Node) -> (r: Result<Net, DecodeError>) {
        let l = list_of(s, "net")?;
        let num = int_field(l, 1, "num")?;
        let name = text_field(l, 2, "name")?.clone();
        Ok(Net { num, name })
    }
}

impl FromSexp for Host {
    /// `(host tool build)`.
    open spec fn decoded(t: Tree) -> Result<HostView, Failure> {
        match named_list(t, "host"@) {
            Err(e) => Err(e),
            Ok(l) => {
                let tool = text_at(l, 1, "tool"@);
                let build = text_at(l, 2, "build"@);
                if tool is Err {
                    Err(tool->Err_0)
                } else if build is Err {
                    Err(build->Err_0)
                } else {
                    Ok(HostView { tool: tool->Ok_0, build: build->Ok_0 })
                }
            },
        }
    }

    fn from_sexp(s: &Node) -> (r: Result<Host, DecodeError>) {
        let l = list_of(s, "host")?;
        let tool = text_field(l, 1, "tool")?.clone();
        let build = text_field(l, 2, "build")?.clone();
        Ok(Host { tool, build })
    }
}

impl FromSexp for Area {
    /// `(area x1 y1 x2 y2)`, exactly four numbers.
    open spec fn decoded(t: Tree) -> Result<AreaView, Failure> {
        match named_list_of(t, "area"@, 4) {
            Err(e) => Err(e),
            Ok(l) => {
                let x1 = decimal_at(l, 1, "x1"@);
                let y1 = decimal_at(l, 2, "y1"@);
                let x2 = decimal_at(l, 3, "x2"@);
                let y2 = decimal_at(l, 4, "y2"@);
                if x1 is Err {
                    Err(x1->Err_0)
                } else if y1 is Err {
                    Err(y1->Err_0)
                } else if x2 is Err {
                    Err(x2->Err_0)
                } else if y2 is Err {
                    Err(y2->Err_0)
                } else {
                    Ok(AreaView { x1: x1->Ok_0, y1: y1->Ok_0, x2: x2->Ok_0, y2: y2->Ok_0 })
                }
            },
        }
    }

    fn from_sexp(s: &Node) -> (r: Result<Area, DecodeError>) {
        let l = list_of_len(s, "area", 4)?;
        let x1 = decimal_field(l, 1, "x1")?;
        let y1 = decimal_field(l, 2, "y1")?;
        let x2 = decimal_field(l, 3, "x2")?;
        let y2 = decimal_field(l, 4, "y2")?;
        Ok(Area { x1, y1, x2, y2 })
    }
}

impl FromSexp for General {
    /// `(general (links ..) (no_connects ..) (area ..) (thickness ..)
    /// (drawings ..) (tracks ..) (zones ..) (modules ..) (nets ..))`, in
    /// this order.
    open spec fn decoded(t: Tree) -> Result<GeneralView, Failure> {
        match named_list(t, "general"@) {
            Err(e) => Err(e),
            Ok(l) => {
                let links = named_int_at(l, 1, "links"@);
                let no_connects = named_int_at(l, 2, "no_connects"@);
                let place = child(l, 3, "area"@);
                let area = if place is Ok {
                    Area::decoded(place->Ok_0)
                } else {
                    Err(place->Err_0)
                };
                let thickness = named_decimal_at(l, 4, "thickness"@);
                let drawings = named_int_at(l, 5, "drawings"@);
                let tracks = named_int_at(l, 6, "tracks"@);
                let zones = named_int_at(l, 7, "zones"@);
                let modules = named_int_at(l, 8, "modules"@);
                let nets = named_int_at(l, 9, "nets"@);
                if links is Err {
                    Err(links->Err_0)
                } else if no_connects is Err {
                    Err(no_connects->Err_0)
                } else if area is Err {
                    Err(area->Err_0)
                } else if thickness is Err {
                    Err(thickness->Err_0)
                } else if drawings is Err {
                    Err(drawings->Err_0)
                } else if tracks is Err {
                    Err(tracks->Err_0)
                } else if zones is Err {
                    Err(zones->Err_0)
                } else if modules is Err {
                    Err(modules->Err_0)
                } else if nets is Err {
                    Err(nets->Err_0)
                } else {
                    Ok(
                        GeneralView {
                            links: links->Ok_0,
                            no_connects: no_connects->Ok_0,
                            area: area->Ok_0,
                            thickness: thickness->Ok_0,
                            drawings: drawings->Ok_0,
                            tracks: tracks->Ok_0,
                            zones: zones->Ok_0,
                            modules: modules->Ok_0,
                            nets: nets->Ok_0,
                        },
                    )
                }
            },
        }
    }

    fn from_sexp(s: &Node) -> (r: Result<General, DecodeError>) {
        let l = list_of(s, "general")?;
        let links = named_int_field(l, 1, "links")?;
        let no_connects = named_int_field(l, 2, "no_connects")?;
        let area = Area::from_sexp(field(l, 3, "area")?)?;
        let thickness = named_decimal_field(l, 4, "thickness")?;
        let drawings = named_int_field(l, 5, "drawings")?;
        let tracks = named_int_field(l, 6, "tracks")?;
        let zones = named_int_field(l, 7, "zones")?;
        let modules = named_int_field(l, 8, "modules")?;
        let nets = named_int_field(l, 9, "nets")?;
        Ok(General { links, no_connects, area, thickness, drawings, tracks, zones, modules, nets })
    }
}

impl View for LayerType {
    type V = LayerType;

    open spec fn view(&self) -> LayerType {
        *self
    }
}

impl FromSexp for LayerType {
    /// The atom `signal` or the atom `user`.
    open spec fn decoded(t: Tree) -> Result<LayerType, Failure> {
        match as_text(t, "layer_type"@) {
            Err(e) => Err(e),
            Ok(s) => if s == "signal"@ {
                Ok(LayerType::Signal)
            } else if s == "user"@ {
                Ok(LayerType::User)
            } else {
                Err(Failure::unknown(s, t))
            },
        }
    }

    fn from_sexp(s: &Node) -> (r: Result<LayerType, DecodeError>) {
        let x = text_of(s, "layer_type")?;
        if str_eq(x.as_str(), "signal") {
            Ok(LayerType::Signal)
        } else if str_eq(x.as_str(), "user") {
            Ok(LayerType::User)
        } else {
            Err(DecodeError::new(ErrorKind::UnknownField, x.as_str(), s))
        }
    }
}

impl FromSexp for Layer {
    /// `(number name kind)` or `(number name kind hide)`: a list without a
    /// name of its own.  The layer is hidden where the fourth child is the
    /// atom `hide`.
    open spec fn decoded(t: Tree) -> Result<LayerView, Failure> {
        match plain_list(t, "layer"@) {
            Err(e) => Err(e),
            Ok(l) => if l.len() != 3 && l.len() != 4 {
                Err(Failure::structure("layer"@, t))
            } else {
                let num = as_int(l[0], "num"@);
                let layer = as_text(l[1], "layer"@);
                let layer_type = LayerType::decoded(l[2]);
                let hide = if l.len() == 4 {
                    as_text(l[3], "hide"@)
                } else {
                    Ok(Seq::empty())
                };
                if num is Err {
                    Err(num->Err_0)
                } else if layer is Err {
                    Err(layer->Err_0)
                } else if layer_type is Err {
                    Err(layer_type->Err_0)
                } else if hide is Err {
                    Err(hide->Err_0)
                } else {
                    Ok(
                        LayerView {
                            num: num->Ok_0,
                            layer: layer->Ok_0,
                            layer_type: layer_type->Ok_0,
                            hide: l.len() == 4 && hide->Ok_0 == "hide"@,
                        },
                    )
                }
            },
        }
    }

    fn from_sexp(s: &Node) -> (r: Result<Layer, DecodeError>) {
        let l = children_of(s, "layer")?;
        if l.len() != 3 && l.len() != 4 {
            return Err(DecodeError::new(ErrorKind::Structure, "layer", s));
        }
        let num = int_of(&l[0], "num")?;
        let layer = footprint::Layer::from_string(text_of(&l[1], "layer")?.as_str());
        let layer_type = LayerType::from_sexp(&l[2])?;
        let hide = if l.len() == 3 {
            false
        } else {
            str_eq(text_of(&l[3], "hide")?.as_str(), "hide")
        };
        Ok(Layer { num, layer, layer_type, hide })
    }
}

/// `(layers entry ..)`: every child after the name is an entry of the layer
/// table.
pub open spec fn decoded_layer_table(t: Tree) -> Result<Seq<LayerView>, Failure> {
    match named_list(t, "layers"@) {
        Err(e) => Err(e),
        Ok(l) => decode_rest::<Layer>(l, 1),
    }
}

/// Decodes the layer table.
pub fn layer_table_from_sexp(s: &Node) -> (r: Result<Vec<Layer>, DecodeError>)
    ensures
        match r {
            Ok(v) => decoded_layer_table(s@) == Ok::<Seq<LayerView>, Failure>(views(v@)),
            Err(e) => decoded_layer_table(s@) == Err::<Seq<LayerView>, Failure>(e@),
        },
{
    decode_vec::<Layer>(list_of(s, "layers")?, 1)
}

impl FromSexp for SetupElement {
    /// `(name value)` or `(name value value)`, all atoms.
    open spec fn decoded(t: Tree) -> Result<SetupElementView, Failure> {
        match plain_list(t, "setup"@) {
            Err(e) => Err(e),
            Ok(l) => if l.len() != 2 && l.len() != 3 {
                Err(Failure::structure("setup"@, t))
            } else {
                let name = as_text(l[0], "name"@);
                let value1 = as_text(l[1], "value1"@);
                let value2 = if l.len() == 3 {
                    as_text(l[2], "value2"@)
                } else {
                    Ok(Seq::empty())
                };
                if name is Err {
                    Err(name->Err_0)
                } else if value1 is Err {
                    Err(value1->Err_0)
                } else if value2 is Err {
                    Err(value2->Err_0)
                } else {
                    Ok(
                        SetupElementView {
                            name: name->Ok_0,
                            value1: value1->Ok_0,
                            value2: if l.len() == 3 {
                                Some(value2->Ok_0)
                            } else {
                                None
                            },
                        },
                    )
                }
            },
        }
    }

    fn from_sexp(s: &Node) -> (r: Result<SetupElement, DecodeError>) {
        let l = children_of(s, "setup")?;
        if l.len() != 2 && l.len() != 3 {
            return Err(DecodeError::new(ErrorKind::Structure, "setup", s));
        }
        let name = text_of(&l[0], "name")?.clone();
        let value1 = text_of(&l[1], "value1")?.clone();
        let value2 = if l.len() == 3 {
            Some(text_of(&l[2], "value2")?.clone())
        } else {
            None
        };
        Ok(SetupElement { name, value1, value2 })
    }
}

impl FromSexp for Hatch {
    /// `(hatch style pitch)`, exactly these two.
    open spec fn decoded(t: Tree) -> Result<HatchView, Failure> {
        match named_list_of(t, "hatch"@, 2) {
            Err(e) => Err(e),
            Ok(l) => {
                let style = text_at(l, 1, "style"@);
                let pitch = decimal_at(l, 2, "pitch"@);
                if style is Err {
                    Err(style->Err_0)
                } else if pitch is Err {
                    Err(pitch->Err_0)
                } else {
                    Ok(HatchView { style: style->Ok_0, pitch: pitch->Ok_0 })
                }
            },
        }
    }

    fn from_sexp(s: &Node) -> (r: Result<Hatch, DecodeError>) {
        let l = list_of_len(s, "hatch", 2)?;
        let style = text_field(l, 1, "style")?.clone();
        let pitch = decimal_field(l, 2, "pitch")?;
        Ok(Hatch { style, pitch })
    }
}

impl FromSexp for ConnectPads {
    /// `(connect_pads (clearance number))` or `(connect_pads kind
    /// (clearance number))`.
    open spec fn decoded(t: Tree) -> Result<ConnectPadsView, Failure> {
        match named_list(t, "connect_pads"@) {
            Err(e) => Err(e),
            Ok(l) => if l.len() == 2 {
                match named_decimal_at(l, 1, "clearance"@) {
                    Err(e) => Err(e),
                    Ok(clearance) => Ok(ConnectPadsView { connection: None, clearance }),
                }
            } else if l.len() == 3 {
                let connection = text_at(l, 1, "connection"@);
                let clearance = named_decimal_at(l, 2, "clearance"@);
                if connection is Err {
                    Err(connection->Err_0)
                } else if clearance is Err {
                    Err(clearance->Err_0)
                } else {
                    Ok(ConnectPadsView { connection: Some(connection->Ok_0), clearance: clearance->Ok_0 })
                }
            } else {
                Err(Failure::structure("connect_pads"@, t))
            },
        }
    }

    fn from_sexp(s: &Node) -> (r: Result<ConnectPads, DecodeError>) {
        let l = list_of(s, "connect_pads")?;
        if l.len() == 2 {
            let clearance = named_decimal_field(l, 1, "clearance")?;
            Ok(ConnectPads { connection: None, clearance })
        } else if l.len() == 3 {
            let connection = text_field(l, 1, "connection")?.clone();
            let clearance = named_decimal_field(l, 2, "clearance")?;
            Ok(ConnectPads { connection: Some(connection), clearance })
        } else {
            Err(DecodeError::new(ErrorKind::Structure, "connect_pads", s))
        }
    }
}

/// Whether the value of a keep-out flag allows the thing: it does unless it
/// begins with `not`.
pub open spec fn allowed(value: Seq<char>) -> bool {
    !"not"@.is_prefix_of(value)
}

impl FromSexp for Keepout {
    /// `(keepout (tracks ..) (vias ..) (copperpour ..))`, exactly these
    /// three.  A value that begins with `not` forbids.
    open spec fn decoded(t: Tree) -> Result<Keepout, Failure> {
        match named_list_of(t, "keepout"@, 3) {
            Err(e) => Err(e),
            Ok(l) => {
                let tracks = named_text_at(l, 1, "tracks"@);
                let vias = named_text_at(l, 2, "vias"@);
                let copperpour = named_text_at(l, 3, "copperpour"@);
                if tracks is Err {
                    Err(tracks->Err_0)
                } else if vias is Err {
                    Err(vias->Err_0)
                } else if copperpour is Err {
                    Err(copperpour->Err_0)
                } else {
                    Ok(
                        Keepout {
                            tracks: allowed(tracks->Ok_0),
                            vias: allowed(vias->Ok_0),
                            copperpour: allowed(copperpour->Ok_0),
                        },
                    )
                }
            },
        }
    }

    fn from_sexp(s: &Node) -> (r: Result<Keepout, DecodeError>) {
        let l = list_of_len(s, "keepout", 3)?;
        let tracks = !has_prefix(named_text_field(l, 1, "tracks")?.as_str(), "not");
        let vias = !has_prefix(named_text_field(l, 2, "vias")?.as_str(), "not");
        let copperpour = !has_prefix(named_text_field(l, 3, "copperpour")?.as_str(), "not");
        Ok(Keepout { tracks, vias, copperpour })
    }
}

impl FromSexp for Fill {
    /// `(fill [yes] [(mode ..)] (arc_segments ..) (thermal_gap ..)
    /// (thermal_bridge_width ..) [(smoothing ..)] [(radius ..)])`.  The
    /// fields in brackets may be absent; each is taken where the child at
    /// its place reads as it, and the fields after it follow.
    open spec fn decoded(t: Tree) -> Result<FillView, Failure> {
        match named_list(t, "fill"@) {
            Err(e) => Err(e),
            Ok(l) => {
                let filled = text_at(l, 1, "filled"@) is Ok;
                let p = if filled {
                    2int
                } else {
                    1int
                };
                let segment = named_text_at(l, p, "mode"@) is Ok;
                let q = if segment {
                    p + 1
                } else {
                    p
                };
                let arc_segments = named_int_at(l, q, "arc_segments"@);
                let thermal_gap = named_decimal_at(l, q + 1, "thermal_gap"@);
                let thermal_bridge_width = named_decimal_at(l, q + 2, "thermal_bridge_width"@);
                let smoothing = named_text_at(l, q + 3, "smoothing"@);
                let r = if smoothing is Ok {
                    q + 4
                } else {
                    q + 3
                };
                let radius = named_decimal_at(l, r, "radius"@);
                let corner_radius = if radius is Ok {
                    radius
                } else {
                    zero("radius"@)
                };
                if arc_segments is Err {
                    Err(arc_segments->Err_0)
                } else if thermal_gap is Err {
                    Err(thermal_gap->Err_0)
                } else if thermal_bridge_width is Err {
                    Err(thermal_bridge_width->Err_0)
                } else if corner_radius is Err {
                    Err(corner_radius->Err_0)
                } else {
                    Ok(
                        FillView {
                            filled,
                            segment,
                            arc_segments: arc_segments->Ok_0,
                            thermal_gap: thermal_gap->Ok_0,
                            thermal_bridge_width: thermal_bridge_width->Ok_0,
                            smoothing: if smoothing is Ok {
                                Some(smoothing->Ok_0)
                            } else {
                                None
                            },
                            corner_radius: corner_radius->Ok_0,
                        },
                    )
                }
            },
        }
    }

    fn from_sexp(s: &Node) -> (r: Result<Fill, DecodeError>) {
        let l = list_of(s, "fill")?;
        let filled = text_field(l, 1, "filled").is_ok();
        let p: usize = if filled {
            2
        } else {
            1
        };
        let segment = named_text_field(l, p, "mode").is_ok();
        let q: usize = if segment {
            p + 1
        } else {
            p
        };
        let arc_segments = named_int_field(l, q, "arc_segments")?;
        let thermal_gap = named_decimal_field(l, q + 1, "thermal_gap")?;
        let thermal_bridge_width = named_decimal_field(l, q + 2, "thermal_bridge_width")?;
        let (smoothing, r) = match named_text_field(l, q + 3, "smoothing") {
            Ok(text) => (Some(text.clone()), q + 4),
            Err(_) => (None, q + 3),
        };
        let corner_radius = match named_decimal_field(l, r, "radius") {
            Ok(d) => d,
            Err(_) => Decimal::zero("radius")?,
        };
        Ok(Fill { filled, segment, arc_segments, thermal_gap, thermal_bridge_width, smoothing, corner_radius })
    }
}

impl FromSexp for GrElement {
    /// A list whose name tells which field it is: `start`, `end` and
    /// `center` hold a point; `angle`, `width`, `size` and `drill` a number;
    /// `tstamp` and `status` a text; `net` an integer; `layer`, `at`,
    /// `layers` and `effects` are the elements of these names.  Any other
    /// name is a failure.
    open spec fn decoded(t: Tree) -> Result<GrElementView, Failure> {
        match list_head(t, "element"@) {
            Err(e) => Err(e),
            Ok(name) => if name == "start"@ {
                lift(Xy::decoded(t), |x| GrElementView::Start(x))
            } else if name == "end"@ {
                lift(Xy::decoded(t), |x| GrElementView::End(x))
            } else if name == "center"@ {
                lift(Xy::decoded(t), |x| GrElementView::Center(x))
            } else if name == "angle"@ {
                lift(arg_decimal(t, "angle"@), |x| GrElementView::Angle(x))
            } else if name == "layer"@ {
                lift(footprint::Layer::decoded(t), |x| GrElementView::Layer(x))
            } else if name == "width"@ {
                lift(arg_decimal(t, "width"@), |x| GrElementView::Width(x))
            } else if name == "size"@ {
                lift(arg_decimal(t, "size"@), |x| GrElementView::Size(x))
            } else if name == "drill"@ {
                lift(arg_decimal(t, "drill"@), |x| GrElementView::Drill(x))
            } else if name == "tstamp"@ {
                lift(arg_text(t, "tstamp"@), |x| GrElementView::TStamp(x))
            } else if name == "status"@ {
                lift(arg_text(t, "status"@), |x| GrElementView::Status(x))
            } else if name == "net"@ {
                lift(arg_int(t, "net"@), |x| GrElementView::Net(x))
            } else if name == "at"@ {
                lift(At::decoded(t), |x| GrElementView::At(x))
            } else if name == "layers"@ {
                lift(Layers::decoded(t), |x| GrElementView::Layers(x))
            } else if name == "effects"@ {
                lift(Effects::decoded(t), |x| GrElementView::Effects(x))
            } else {
                Err(Failure::unknown(name, t))
            },
        }
    }

    fn from_sexp(s: &Node) -> (r: Result<GrElement, DecodeError>) {
        let name = head_of(s, "element")?;
        let n = name.as_str();
        if str_eq(n, "start") {
            Ok(GrElement::Start(Xy::from_sexp(s)?))
        } else if str_eq(n, "end") {
            Ok(GrElement::End(Xy::from_sexp(s)?))
        } else if str_eq(n, "center") {
            Ok(GrElement::Center(Xy::from_sexp(s)?))
        } else if str_eq(n, "angle") {
            Ok(GrElement::Angle(decimal_arg(s, "angle")?))
        } else if str_eq(n, "layer") {
            Ok(GrElement::Layer(footprint::Layer::from_sexp(s)?))
        } else if str_eq(n, "width") {
            Ok(GrElement::Width(decimal_arg(s, "width")?))
        } else if str_eq(n, "size") {
            Ok(GrElement::Size(decimal_arg(s, "size")?))
        } else if str_eq(n, "drill") {
            Ok(GrElement::Drill(decimal_arg(s, "drill")?))
        } else if str_eq(n, "tstamp") {
            Ok(GrElement::TStamp(text_arg(s, "tstamp")?.clone()))
        } else if str_eq(n, "status") {
            Ok(GrElement::Status(text_arg(s, "status")?.clone()))
        } else if str_eq(n, "net") {
            Ok(GrElement::Net(int_arg(s, "net")?))
        } else if str_eq(n, "at") {
            Ok(GrElement::At(At::from_sexp(s)?))
        } else if str_eq(n, "layers") {
            Ok(GrElement::Layers(Layers::from_sexp(s)?))
        } else if str_eq(n, "effects") {
            Ok(GrElement::Effects(Effects::from_sexp(s)?))
        } else {
            Err(DecodeError::new(ErrorKind::UnknownField, n, s))
        }
    }
}

/// The field that a child of a graphic or routing primitive holds: none
/// where the child's name is no field's.  The vocabulary of these fields is
/// open: a name that is not known is no failure.  A child that is no list
/// with a name, and a known field that cannot be read, are.
pub open spec fn known_field(t: Tree) -> Result<Option<GrElementView>, Failure> {
    match GrElement::decoded(t) {
        Ok(field) => Ok(Some(field)),
        Err(e) => if e.kind == ErrorKind::UnknownField {
            Ok(None)
        } else {
            Err(e)
        },
    }
}

/// Decodes the field that a child of a graphic or routing primitive holds.
pub fn field_from_sexp(child: &Node) -> (r: Result<Option<GrElement>, DecodeError>)
    ensures
        match r {
            Ok(Some(field)) => known_field(child@) == Ok::<Option<GrElementView>, Failure>(Some(field@)),
            Ok(None) => known_field(child@) == Ok::<Option<GrElementView>, Failure>(None),
            Err(e) => known_field(child@) == Err::<Option<GrElementView>, Failure>(e@),
        },
{
    match GrElement::from_sexp(child) {
        Ok(field) => Ok(Some(field)),
        Err(e) => match e.kind {
            ErrorKind::UnknownField => Ok(None),
            _ => Err(e),
        },
    }
}

/// A text without its fields: only the text itself is set.
pub open spec fn bare_text(value: Seq<char>) -> Result<GrTextView, Failure> {
    match origin("at"@) {
        Err(e) => Err(e),
        Ok(at) => Ok(GrTextView { value, at, layer: default_layer(), effects: Seq::empty(), tstamp: None }),
    }
}

impl FieldBag for GrText {
    /// A position, a layer, a timestamp and effects are taken; every other
    /// field is passed over, and so is a child of a name that is no
    /// field's.
    open spec fn with_child(acc: GrTextView, t: Tree) -> Result<GrTextView, Failure> {
        match known_field(t) {
            Err(e) => Err(e),
            Ok(None) => Ok(acc),
            Ok(Some(GrElementView::At(x))) => Ok(GrTextView { at: x, ..acc }),
            Ok(Some(GrElementView::Layer(x))) => Ok(GrTextView { layer: x, ..acc }),
            Ok(Some(GrElementView::TStamp(x))) => Ok(GrTextView { tstamp: Some(x), ..acc }),
            Ok(Some(GrElementView::Effects(x))) => Ok(GrTextView { effects: x, ..acc }),
            Ok(Some(_)) => Ok(acc),
        }
    }

    fn put(&mut self, child: &Node) -> (r: Result<(), DecodeError>) {
        match field_from_sexp(child)? {
            Some(GrElement::At(x)) => self.at = x,
            Some(GrElement::Layer(x)) => self.layer = x,
            Some(GrElement::TStamp(x)) => self.tstamp = Some(x),
            Some(GrElement::Effects(x)) => self.effects = x,
            _ => {},
        }
        Ok(())
    }
}

impl FromSexp for GrText {
    /// `(gr_text text field ..)`: the text, then its fields in any order.
    /// A field that is absent keeps its default: the position `0 0`, the
    /// default layer, no effects, no timestamp.
    open spec fn decoded(t: Tree) -> Result<GrTextView, Failure> {
        match named_list(t, "gr_text"@) {
            Err(e) => Err(e),
            Ok(l) => match text_at(l, 1, "value"@) {
                Err(e) => Err(e),
                Ok(value) => match bare_text(value) {
                    Err(e) => Err(e),
                    Ok(init) => filled::<GrText>(l, 2, init),
                },
            },
        }
    }

    fn from_sexp(s: &Node) -> (r: Result<GrText, DecodeError>) {
        let l = list_of(s, "gr_text")?;
        let value = text_field(l, 1, "value")?.clone();
        let at = At::origin("at")?;
        let init = GrText { value, at, layer: footprint::Layer::default_layer(), effects: Effects::none(), tstamp: None };
        fill_from(init, l, 2)
    }
}

/// A line without its fields.
pub open spec fn bare_line() -> Result<GrLineView, Failure> {
    let start = empty_xy(XyType::Start, "start"@);
    let end = empty_xy(XyType::End, "end"@);
    let angle = zero("angle"@);
    let width = zero("width"@);
    if start is Err {
        Err(start->Err_0)
    } else if end is Err {
        Err(end->Err_0)
    } else if angle is Err {
        Err(angle->Err_0)
    } else if width is Err {
        Err(width->Err_0)
    } else {
        Ok(
            GrLineView {
                start: start->Ok_0,
                end: end->Ok_0,
                angle: angle->Ok_0,
                layer: default_layer(),
                width: width->Ok_0,
                tstamp: None,
            },
        )
    }
}

impl GrLine {
    /// A line without its fields.
    pub fn bare() -> (r: Result<GrLine, DecodeError>)
        ensures
            agrees(r, bare_line()),
    {
        let start = Xy::new_empty(XyType::Start, "start")?;
        let end = Xy::new_empty(XyType::End, "end")?;
        let angle = Decimal::zero("angle")?;
        let width = Decimal::zero("width")?;
        Ok(GrLine { start, end, angle, layer: footprint::Layer::default_layer(), width, tstamp: None })
    }
}

impl FieldBag for GrLine {
    /// A start, an end, an angle, a layer, a timestamp and a width are
    /// taken; every other field is passed over, and so is a child of a name
    /// that is no field's.
    open spec fn with_child(acc: GrLineView, t: Tree) -> Result<GrLineView, Failure> {
        match known_field(t) {
            Err(e) => Err(e),
            Ok(None) => Ok(acc),
            Ok(Some(GrElementView::Start(x))) => Ok(GrLineView { start: x, ..acc }),
            Ok(Some(GrElementView::End(x))) => Ok(GrLineView { end: x, ..acc }),
            Ok(Some(GrElementView::Angle(x))) => Ok(GrLineView { angle: x, ..acc }),
            Ok(Some(GrElementView::Layer(x))) => Ok(GrLineView { layer: x, ..acc }),
            Ok(Some(GrElementView::TStamp(x))) => Ok(GrLineView { tstamp: Some(x), ..acc }),
            Ok(Some(GrElementView::Width(x))) => Ok(GrLineView { width: x, ..acc }),
            Ok(Some(_)) => Ok(acc),
        }
    }

    fn put(&mut self, child: &Node) -> (r: Result<(), DecodeError>) {
        match field_from_sexp(child)? {
            Some(GrElement::Start(x)) => self.start = x,
            Some(GrElement::End(x)) => self.end = x,
            Some(GrElement::Angle(x)) => self.angle = x,
            Some(GrElement::Layer(x)) => self.layer = x,
            Some(GrElement::TStamp(x)) => self.tstamp = Some(x),
            Some(GrElement::Width(x)) => self.width = x,
            _ => {},
        }
        Ok(())
    }
}

impl FromSexp for GrLine {
    /// `(gr_line field ..)`: the fields in any order.  A field that is
    /// absent keeps its default: zero for the numbers, the default layer, no
    /// timestamp.
    open spec fn decoded(t: Tree) -> Result<GrLineView, Failure> {
        match named_list(t, "gr_line"@) {
            Err(e) => Err(e),
            Ok(l) => match bare_line() {
                Err(e) => Err(e),
                Ok(init) => filled::<GrLine>(l, 1, init),
            },
        }
    }

    fn from_sexp(s: &Node) -> (r: Result<GrLine, DecodeError>) {
        let l = list_of(s, "gr_line")?;
        fill_from(GrLine::bare()?, l, 1)
    }
}

/// An arc without its fields.
pub open spec fn bare_arc() -> Result<GrArcView, Failure> {
    match bare_line() {
        Err(e) => Err(e),
        Ok(line) => Ok(
            GrArcView {
                start: line.start,
                end: line.end,
                angle: line.angle,
                layer: line.layer,
                width: line.width,
                tstamp: line.tstamp,
            },
        ),
    }
}

impl FieldBag for GrArc {
    /// A start, an end, an angle, a layer, a timestamp and a width are
    /// taken; every other field is passed over, and so is a child of a name
    /// that is no field's.
    open spec fn with_child(acc: GrArcView, t: Tree) -> Result<GrArcView, Failure> {
        match known_field(t) {
            Err(e) => Err(e),
            Ok(None) => Ok(acc),
            Ok(Some(GrElementView::Start(x))) => Ok(GrArcView { start: x, ..acc }),
            Ok(Some(GrElementView::End(x))) => Ok(GrArcView { end: x, ..acc }),
            Ok(Some(GrElementView::Angle(x))) => Ok(GrArcView { angle: x, ..acc }),
            Ok(Some(GrElementView::Layer(x))) => Ok(GrArcView { layer: x, ..acc }),
            Ok(Some(GrElementView::TStamp(x))) => Ok(GrArcView { tstamp: Some(x), ..acc }),
            Ok(Some(GrElementView::Width(x))) => Ok(GrArcView { width: x, ..acc }),
            Ok(Some(_)) => Ok(acc),
        }
    }

    fn put(&mut self, child: &Node) -> (r: Result<(), DecodeError>) {
        match field_from_sexp(child)? {
            Some(GrElement::Start(x)) => self.start = x,
            Some(GrElement::End(x)) => self.end = x,
            Some(GrElement::Angle(x)) => self.angle = x,
            Some(GrElement::Layer(x)) => self.layer = x,
            Some(GrElement::TStamp(x)) => self.tstamp = Some(x),
            Some(GrElement::Width(x)) => self.width = x,
            _ => {},
        }
        Ok(())
    }
}

impl FromSexp for GrArc {
    /// `(gr_arc field ..)`: the fields in any order, with the defaults of a
    /// line.
    open spec fn decoded(t: Tree) -> Result<GrArcView, Failure> {
        match named_list(t, "gr_arc"@) {
            Err(e) => Err(e),
            Ok(l) => match bare_arc() {
                Err(e) => Err(e),
                Ok(init) => filled::<GrArc>(l, 1, init),
            },
        }
    }

    fn from_sexp(s: &Node) -> (r: Result<GrArc, DecodeError>) {
        let l = list_of(s, "gr_arc")?;
        let line = GrLine::bare()?;
        let init = GrArc {
            start: line.start,
            end: line.end,
            angle: line.angle,
            layer: line.layer,
            width: line.width,
            tstamp: line.tstamp,
        };
        fill_from(init, l, 1)
    }
}

/// A circle without its fields.
pub open spec fn bare_circle() -> Result<GrCircleView, Failure> {
    let center = empty_xy(XyType::Center, "center"@);
    let end = empty_xy(XyType::End, "end"@);
    let width = zero("width"@);
    if center is Err {
        Err(center->Err_0)
    } else if end is Err {
        Err(end->Err_0)
    } else if width is Err {
        Err(width->Err_0)
    } else {
        Ok(
            GrCircleView {
                center: center->Ok_0,
                end: end->Ok_0,
                layer: default_layer(),
                width: width->Ok_0,
                tstamp: None,
            },
        )
    }
}

impl FieldBag for GrCircle {
    /// A center, an end, a layer, a timestamp and a width are taken; every
    /// other field is passed over, and so is a child of a name that is no
    /// field's.
    open spec fn with_child(acc: GrCircleView, t: Tree) -> Result<GrCircleView, Failure> {
        match known_field(t) {
            Err(e) => Err(e),
            Ok(None) => Ok(acc),
            Ok(Some(GrElementView::Center(x))) => Ok(GrCircleView { center: x, ..acc }),
            Ok(Some(GrElementView::End(x))) => Ok(GrCircleView { end: x, ..acc }),
            Ok(Some(GrElementView::Layer(x))) => Ok(GrCircleView { layer: x, ..acc }),
            Ok(Some(GrElementView::TStamp(x))) => Ok(GrCircleView { tstamp: Some(x), ..acc }),
            Ok(Some(GrElementView::Width(x))) => Ok(GrCircleView { width: x, ..acc }),
            Ok(Some(_)) => Ok(acc),
        }
    }

    fn put(&mut self, child: &Node) -> (r: Result<(), DecodeError>) {
        match field_from_sexp(child)? {
            Some(GrElement::Center(x)) => self.center = x,
            Some(GrElement::End(x)) => self.end = x,
            Some(GrElement::Layer(x)) => self.layer = x,
            Some(GrElement::TStamp(x)) => self.tstamp = Some(x),
            Some(GrElement::Width(x)) => self.width = x,
            _ => {},
        }
        Ok(())
    }
}

impl FromSexp for GrCircle {
    /// `(gr_circle field ..)`: the fields in any order.  A field that is
    /// absent keeps its default: zero for the numbers, the default layer, no
    /// timestamp.
    open spec fn decoded(t: Tree) -> Result<GrCircleView, Failure> {
        match named_list(t, "gr_circle"@) {
            Err(e) => Err(e),
            Ok(l) => match bare_circle() {
                Err(e) => Err(e),
                Ok(init) => filled::<GrCircle>(l, 1, init),
            },
        }
    }

    fn from_sexp(s: &Node) -> (r: Result<GrCircle, DecodeError>) {
        let l = list_of(s, "gr_circle")?;
        let center = Xy::new_empty(XyType::Center, "center")?;
        let end = Xy::new_empty(XyType::End, "end")?;
        let width = Decimal::zero("width")?;
        let init = GrCircle { center, end, layer: footprint::Layer::default_layer(), width, tstamp: None };
        fill_from(init, l, 1)
    }
}

/// A track segment without its fields.
pub open spec fn bare_segment() -> Result<SegmentView, Failure> {
    let start = empty_xy(XyType::Start, "start"@);
    let end = empty_xy(XyType::End, "end"@);
    let width = zero("width"@);
    if start is Err {
        Err(start->Err_0)
    } else if end is Err {
        Err(end->Err_0)
    } else if width is Err {
        Err(width->Err_0)
    } else {
        Ok(
            SegmentView {
                start: start->Ok_0,
                end: end->Ok_0,
                width: width->Ok_0,
                layer: default_layer(),
                net: zero_int(),
                tstamp: None,
                status: None,
            },
        )
    }
}

impl FieldBag for Segment {
    /// A start, an end, a layer, a timestamp, a width, a net and a status
    /// are taken; every other field is passed over, and so is a child of a
    /// name that is no field's.
    open spec fn with_child(acc: SegmentView, t: Tree) -> Result<SegmentView, Failure> {
        match known_field(t) {
            Err(e) => Err(e),
            Ok(None) => Ok(acc),
            Ok(Some(GrElementView::Start(x))) => Ok(SegmentView { start: x, ..acc }),
            Ok(Some(GrElementView::End(x))) => Ok(SegmentView { end: x, ..acc }),
            Ok(Some(GrElementView::Layer(x))) => Ok(SegmentView { layer: x, ..acc }),
            Ok(Some(GrElementView::TStamp(x))) => Ok(SegmentView { tstamp: Some(x), ..acc }),
            Ok(Some(GrElementView::Width(x))) => Ok(SegmentView { width: x, ..acc }),
            Ok(Some(GrElementView::Net(x))) => Ok(SegmentView { net: x, ..acc }),
            Ok(Some(GrElementView::Status(x))) => Ok(SegmentView { status: Some(x), ..acc }),
            Ok(Some(_)) => Ok(acc),
        }
    }

    fn put(&mut self, child: &Node) -> (r: Result<(), DecodeError>) {
        match field_from_sexp(child)? {
            Some(GrElement::Start(x)) => self.start = x,
            Some(GrElement::End(x)) => self.end = x,
            Some(GrElement::Layer(x)) => self.layer = x,
            Some(GrElement::TStamp(x)) => self.tstamp = Some(x),
            Some(GrElement::Width(x)) => self.width = x,
            Some(GrElement::Net(x)) => self.net = x,
            Some(GrElement::Status(x)) => self.status = Some(x),
            _ => {},
        }
        Ok(())
    }
}

impl FromSexp for Segment {
    /// `(segment field ..)`: the fields in any order.  A field that is
    /// absent keeps its default: zero for the numbers and the net, the
    /// default layer, no timestamp, no status.
    open spec fn decoded(t: Tree) -> Result<SegmentView, Failure> {
        match named_list(t, "segment"@) {
            Err(e) => Err(e),
            Ok(l) => match bare_segment() {
                Err(e) => Err(e),
                Ok(init) => filled::<Segment>(l, 1, init),
            },
        }
    }

    fn from_sexp(s: &Node) -> (r: Result<Segment, DecodeError>) {
        let l = list_of(s, "segment")?;
        let start = Xy::new_empty(XyType::Start, "start")?;
        let end = Xy::new_empty(XyType::End, "end")?;
        let width = Decimal::zero("width")?;
        let net = Integer::zero();
        let init = Segment {
            start,
            end,
            width,
            layer: footprint::Layer::default_layer(),
            net,
            tstamp: None,
            status: None,
        };
        fill_from(init, l, 1)
    }
}

/// A via without its fields.
pub open spec fn bare_via() -> Result<ViaView, Failure> {
    let at = origin("at"@);
    let size = zero("size"@);
    let drill = zero("drill"@);
    if at is Err {
        Err(at->Err_0)
    } else if size is Err {
        Err(size->Err_0)
    } else if drill is Err {
        Err(drill->Err_0)
    } else {
        Ok(ViaView { at: at->Ok_0, size: size->Ok_0, drill: drill->Ok_0, layers: Seq::empty(), net: zero_int() })
    }
}

impl FieldBag for Via {
    /// A position, a size, a net, a drill and layers are taken; every other
    /// field is passed over, and so is a child of a name that is no
    /// field's.
    open spec fn with_child(acc: ViaView, t: Tree) -> Result<ViaView, Failure> {
        match known_field(t) {
            Err(e) => Err(e),
            Ok(None) => Ok(acc),
            Ok(Some(GrElementView::At(x))) => Ok(ViaView { at: x, ..acc }),
            Ok(Some(GrElementView::Size(x))) => Ok(ViaView { size: x, ..acc }),
            Ok(Some(GrElementView::Net(x))) => Ok(ViaView { net: x, ..acc }),
            Ok(Some(GrElementView::Drill(x))) => Ok(ViaView { drill: x, ..acc }),
            Ok(Some(GrElementView::Layers(x))) => Ok(ViaView { layers: x, ..acc }),
            Ok(Some(_)) => Ok(acc),
        }
    }

    fn put(&mut self, child: &Node) -> (r: Result<(), DecodeError>) {
        match field_from_sexp(child)? {
            Some(GrElement::At(x)) => self.at = x,
            Some(GrElement::Size(x)) => self.size = x,
            Some(GrElement::Net(x)) => self.net = x,
            Some(GrElement::Drill(x)) => self.drill = x,
            Some(GrElement::Layers(x)) => self.layers = x,
            _ => {},
        }
        Ok(())
    }
}

impl FromSexp for Via {
    /// `(via field ..)`: the fields in any order.  A field that is absent
    /// keeps its default: the position `0 0`, zero for the numbers and the
    /// net, no layers.
    open spec fn decoded(t: Tree) -> Result<ViaView, Failure> {
        match named_list(t, "via"@) {
            Err(e) => Err(e),
            Ok(l) => match bare_via() {
                Err(e) => Err(e),
                Ok(init) => filled::<Via>(l, 1, init),
            },
        }
    }

    fn from_sexp(s: &Node) -> (r: Result<Via, DecodeError>) {
        let l = list_of(s, "via")?;
        let at = At::origin("at")?;
        let size = Decimal::zero("size")?;
        let drill = Decimal::zero("drill")?;
        let net = Integer::zero();
        let init = Via { at, size, drill, layers: Layers::none(), net };
        fill_from(init, l, 1)
    }
}

/// A net class with its name and description and the conventional rules.
pub open spec fn bare_net_class(name: Seq<char>, desc: Seq<char>) -> Result<NetClassView, Failure> {
    let clearance = preset("0.1524"@, "clearance"@);
    let trace_width = preset("0.2032"@, "trace_width"@);
    let via_dia = preset("0.675"@, "via_dia"@);
    let via_drill = preset("0.25"@, "via_drill"@);
    let uvia_dia = preset("0.508"@, "uvia_dia"@);
    let uvia_drill = preset("0.127"@, "uvia_drill"@);
    if clearance is Err {
        Err(clearance->Err_0)
    } else if trace_width is Err {
        Err(trace_width->Err_0)
    } else if via_dia is Err {
        Err(via_dia->Err_0)
    } else if via_drill is Err {
        Err(via_drill->Err_0)
    } else if uvia_dia is Err {
        Err(uvia_dia->Err_0)
    } else if uvia_drill is Err {
        Err(uvia_drill->Err_0)
    } else {
        Ok(
            NetClassView {
                name,
                desc,
                clearance: clearance->Ok_0,
                trace_width: trace_width->Ok_0,
                via_dia: via_dia->Ok_0,
                via_drill: via_drill->Ok_0,
                uvia_dia: uvia_dia->Ok_0,
                uvia_drill: uvia_drill->Ok_0,
                diff_pair_gap: None,
                diff_pair_width: None,
                nets: Seq::empty(),
            },
        )
    }
}

impl FieldBag for NetClass {
    /// `(add_net name)` adds a member; a rule of one of the eight known
    /// names sets that rule; any other name is a failure.
    open spec fn with_child(acc: NetClassView, t: Tree) -> Result<NetClassView, Failure> {
        match list_head(t, "net_class"@) {
            Err(e) => Err(e),
            Ok(name) => if name == "add_net"@ {
                lift(arg_text(t, "add_net"@), |x| NetClassView { nets: acc.nets.push(x), ..acc })
            } else if name == "clearance"@ {
                lift(arg_decimal(t, "clearance"@), |x| NetClassView { clearance: x, ..acc })
            } else if name == "trace_width"@ {
                lift(arg_decimal(t, "trace_width"@), |x| NetClassView { trace_width: x, ..acc })
            } else if name == "via_dia"@ {
                lift(arg_decimal(t, "via_dia"@), |x| NetClassView { via_dia: x, ..acc })
            } else if name == "via_drill"@ {
                lift(arg_decimal(t, "via_drill"@), |x| NetClassView { via_drill: x, ..acc })
            } else if name == "uvia_dia"@ {
                lift(arg_decimal(t, "uvia_dia"@), |x| NetClassView { uvia_dia: x, ..acc })
            } else if name == "uvia_drill"@ {
                lift(arg_decimal(t, "uvia_drill"@), |x| NetClassView { uvia_drill: x, ..acc })
            } else if name == "diff_pair_gap"@ {
                lift(arg_decimal(t, "diff_pair_gap"@), |x| NetClassView { diff_pair_gap: Some(x), ..acc })
            } else if name == "diff_pair_width"@ {
                lift(arg_decimal(t, "diff_pair_width"@), |x| NetClassView { diff_pair_width: Some(x), ..acc })
            } else {
                Err(Failure::unknown(name, t))
            },
        }
    }

    fn put(&mut self, child: &Node) -> (r: Result<(), DecodeError>) {
        let name = head_of(child, "net_class")?;
        let n = name.as_str();
        if str_eq(n, "add_net") {
            let net = text_arg(child, "add_net")?.clone();
            let ghost before = views(self.nets@);
            self.nets.push(net);
            assert(views(self.nets@) =~= before.push(net@));
        } else if str_eq(n, "clearance") {
            self.clearance = decimal_arg(child, "clearance")?;
        } else if str_eq(n, "trace_width") {
            self.trace_width = decimal_arg(child, "trace_width")?;
        } else if str_eq(n, "via_dia") {
            self.via_dia = decimal_arg(child, "via_dia")?;
        } else if str_eq(n, "via_drill") {
            self.via_drill = decimal_arg(child, "via_drill")?;
        } else if str_eq(n, "uvia_dia") {
            self.uvia_dia = decimal_arg(child, "uvia_dia")?;
        } else if str_eq(n, "uvia_drill") {
            self.uvia_drill = decimal_arg(child, "uvia_drill")?;
        } else if str_eq(n, "diff_pair_gap") {
            self.diff_pair_gap = Some(decimal_arg(child, "diff_pair_gap")?);
        } else if str_eq(n, "diff_pair_width") {
            self.diff_pair_width = Some(decimal_arg(child, "diff_pair_width")?);
        } else {
            return Err(DecodeError::new(ErrorKind::UnknownField, n, child));
        }
        Ok(())
    }
}

impl FromSexp for NetClass {
    /// `(net_class name description field ..)`: the name and the
    /// description, then rules and members in any order.  A rule that is
    /// absent has its conventional value: clearance 0.1524, trace width
    /// 0.2032, via diameter 0.675, via drill 0.25, micro-via diameter 0.508,
    /// micro-via drill 0.127; the rules of differential pairs are then
    /// absent.
    open spec fn decoded(t: Tree) -> Result<NetClassView, Failure> {
        match named_list(t, "net_class"@) {
            Err(e) => Err(e),
            Ok(l) => {
                let name = text_at(l, 1, "name"@);
                let desc = text_at(l, 2, "desc"@);
                if name is Err {
                    Err(name->Err_0)
                } else if desc is Err {
                    Err(desc->Err_0)
                } else {
                    match bare_net_class(name->Ok_0, desc->Ok_0) {
                        Err(e) => Err(e),
                        Ok(init) => filled::<NetClass>(l, 3, init),
                    }
                }
            },
        }
    }

    fn from_sexp(s: &Node) -> (r: Result<NetClass, DecodeError>) {
        let l = list_of(s, "net_class")?;
        let name = text_field(l, 1, "name")?.clone();
        let desc = text_field(l, 2, "desc")?.clone();
        let clearance = Decimal::preset("0.1524", "clearance")?;
        let trace_width = Decimal::preset("0.2032", "trace_width")?;
        let via_dia = Decimal::preset("0.675", "via_dia")?;
        let via_drill = Decimal::preset("0.25", "via_drill")?;
        let uvia_dia = Decimal::preset("0.508", "uvia_dia")?;
        let uvia_drill = Decimal::preset("0.127", "uvia_drill")?;
        let init = NetClass {
            name,
            desc,
            clearance,
            trace_width,
            via_dia,
            via_drill,
            uvia_dia,
            uvia_drill,
            diff_pair_gap: None,
            diff_pair_width: None,
            nets: Vec::new(),
        };
        assert(views(init.nets@) =~= Seq::<Seq<char>>::empty());
        fill_from(init, l, 3)
    }
}

/// The setup without entries.
pub open spec fn bare_setup() -> SetupView {
    SetupView { elements: Seq::empty(), pcbplotparams: Seq::empty() }
}

impl Setup {
    /// The setup without entries.
    pub fn bare() -> (s: Setup)
        ensures
            s@ == bare_setup(),
    {
        let s = Setup { elements: Vec::new(), pcbplotparams: Vec::new() };
        assert(views(s.elements@) =~= Seq::<SetupElementView>::empty());
        assert(views(s.pcbplotparams@) =~= Seq::<SetupElementView>::empty());
        s
    }
}

impl FieldBag for Setup {
    /// The children of `(pcbplotparams ..)` are added to the plot
    /// parameters; every other child is an entry of the setup.
    open spec fn with_child(acc: SetupView, t: Tree) -> Result<SetupView, Failure> {
        match list_head(t, "setup"@) {
            Err(e) => Err(e),
            Ok(name) => if name == "pcbplotparams"@ {
                lift(
                    decode_rest::<SetupElement>(t->List_0, 1),
                    |ps: Seq<SetupElementView>| SetupView { pcbplotparams: acc.pcbplotparams + ps, ..acc },
                )
            } else {
                lift(SetupElement::decoded(t), |x| SetupView { elements: acc.elements.push(x), ..acc })
            },
        }
    }

    fn put(&mut self, child: &Node) -> (r: Result<(), DecodeError>) {
        let name = head_of(child, "setup")?;
        if str_eq(name.as_str(), "pcbplotparams") {
            proof {
                crate::cursor::lemma_head_names(child@, "setup"@);
            }
            let l = list_of(child, "pcbplotparams")?;
            let mut ps = decode_vec::<SetupElement>(l, 1)?;
            let ghost before = views(self.pcbplotparams@);
            let ghost added = views(ps@);
            self.pcbplotparams.append(&mut ps);
            assert(views(self.pcbplotparams@) =~= before + added);
        } else {
            let e = SetupElement::from_sexp(child)?;
            let ghost before = views(self.elements@);
            self.elements.push(e);
            assert(views(self.elements@) =~= before.push(e@));
        }
        Ok(())
    }
}

impl FromSexp for Setup {
    /// `(setup entry ..)`.
    open spec fn decoded(t: Tree) -> Result<SetupView, Failure> {
        match named_list(t, "setup"@) {
            Err(e) => Err(e),
            Ok(l) => filled::<Setup>(l, 1, bare_setup()),
        }
    }

    fn from_sexp(s: &Node) -> (r: Result<Setup, DecodeError>) {
        let l = list_of(s, "setup")?;
        fill_from(Setup::bare(), l, 1)
    }
}

impl FieldBag for Zone {
    /// Each child is tried as a polygon outline, then as a fill result,
    /// then as fill segments: the first that it decodes as takes it.  A
    /// child that is none of them is kept as it is; no child fails.
    open spec fn with_child(acc: ZoneView, t: Tree) -> Result<ZoneView, Failure> {
        let polygon = decoded_outline(t, "polygon"@);
        let filled_polygon = decoded_outline(t, "filled_polygon"@);
        let segments = decoded_outline(t, "fill_segments"@);
        if polygon is Ok {
            Ok(ZoneView { polygons: acc.polygons.push(polygon->Ok_0), ..acc })
        } else if filled_polygon is Ok {
            Ok(ZoneView { filled_polygons: acc.filled_polygons.push(filled_polygon->Ok_0), ..acc })
        } else if segments is Ok {
            Ok(ZoneView { fill_segments: Some(segments->Ok_0), ..acc })
        } else {
            Ok(ZoneView { other: acc.other.push(t), ..acc })
        }
    }

    fn put(&mut self, child: &Node) -> (r: Result<(), DecodeError>) {
        match outline_from_sexp(child, "polygon") {
            Ok(p) => {
                let ghost before = views(self.polygons@);
                self.polygons.push(p);
                assert(views(self.polygons@) =~= before.push(p@));
            },
            Err(_) => match outline_from_sexp(child, "filled_polygon") {
                Ok(p) => {
                    let ghost before = views(self.filled_polygons@);
                    self.filled_polygons.push(p);
                    assert(views(self.filled_polygons@) =~= before.push(p@));
                },
                Err(_) => match outline_from_sexp(child, "fill_segments") {
                    Ok(p) => {
                        self.fill_segments = Some(p);
                    },
                    Err(_) => {
                        let ghost before = forest(self.other@);
                        self.other.push(child.duplicate());
                        assert(forest(self.other@) =~= before.push(child@));
                    },
                },
            },
        }
        Ok(())
    }
}

impl FromSexp for Zone {
    /// `(zone (net ..) (net_name ..) (layer ..) (tstamp ..) (hatch ..)
    /// [(priority ..)] (connect_pads ..) (min_thickness ..) [(keepout ..)]
    /// (fill ..) child ..)`.  The fields up to the fill stand in this
    /// order; a priority that is absent is zero, a keep-out that is absent
    /// is none.  The children after the fill are the zone's geometry.
    open spec fn decoded(t: Tree) -> Result<ZoneView, Failure> {
        match named_list(t, "zone"@) {
            Err(e) => Err(e),
            Ok(l) => {
                let net = named_int_at(l, 1, "net"@);
                let net_name = named_text_at(l, 2, "net_name"@);
                let layer = decode_at::<footprint::Layer>(l, 3, "layer"@);
                let tstamp = named_text_at(l, 4, "tstamp"@);
                let hatch = decode_at::<Hatch>(l, 5, "hatch"@);
                let given = named_int_at(l, 6, "priority"@);
                let a = if given is Ok {
                    7int
                } else {
                    6int
                };
                let priority = if given is Ok {
                    given->Ok_0
                } else {
                    zero_int()
                };
                let connect_pads = decode_at::<ConnectPads>(l, a, "connect_pads"@);
                let min_thickness = named_decimal_at(l, a + 1, "min_thickness"@);
                let keepout = decode_at::<Keepout>(l, a + 2, "keepout"@);
                let b = if keepout is Ok {
                    a + 3
                } else {
                    a + 2
                };
                let fill = decode_at::<Fill>(l, b, "fill"@);
                if net is Err {
                    Err(net->Err_0)
                } else if net_name is Err {
                    Err(net_name->Err_0)
                } else if layer is Err {
                    Err(layer->Err_0)
                } else if tstamp is Err {
                    Err(tstamp->Err_0)
                } else if hatch is Err {
                    Err(hatch->Err_0)
                } else if connect_pads is Err {
                    Err(connect_pads->Err_0)
                } else if min_thickness is Err {
                    Err(min_thickness->Err_0)
                } else if fill is Err {
                    Err(fill->Err_0)
                } else {
                    filled::<Zone>(
                        l,
                        b + 1,
                        ZoneView {
                            net: net->Ok_0,
                            net_name: net_name->Ok_0,
                            layer: layer->Ok_0,
                            tstamp: tstamp->Ok_0,
                            hatch: hatch->Ok_0,
                            priority,
                            connect_pads: connect_pads->Ok_0,
                            min_thickness: min_thickness->Ok_0,
                            keepout: if keepout is Ok {
                                Some(keepout->Ok_0)
                            } else {
                                None
                            },
                            fill: fill->Ok_0,
                            polygons: Seq::empty(),
                            filled_polygons: Seq::empty(),
                            fill_segments: None,
                            other: Seq::empty(),
                        },
                    )
                }
            },
        }
    }

    fn from_sexp(s: &Node) -> (r: Result<Zone, DecodeError>) {
        let l = list_of(s, "zone")?;
        let net = named_int_field(l, 1, "net")?;
        let net_name = named_text_field(l, 2, "net_name")?.clone();
        let layer = decode_field::<footprint::Layer>(l, 3, "layer")?;
        let tstamp = named_text_field(l, 4, "tstamp")?.clone();
        let hatch = decode_field::<Hatch>(l, 5, "hatch")?;
        let (priority, a): (Integer, usize) = match named_int_field(l, 6, "priority") {
            Ok(p) => (p, 7),
            Err(_) => (Integer::zero(), 6),
        };
        let connect_pads = decode_field::<ConnectPads>(l, a, "connect_pads")?;
        let min_thickness = named_decimal_field(l, a + 1, "min_thickness")?;
        let (keepout, b) = match decode_field::<Keepout>(l, a + 2, "keepout") {
            Ok(k) => (Some(k), a + 3),
            Err(_) => (None, a + 2),
        };
        let fill = decode_field::<Fill>(l, b, "fill")?;
        let init = Zone {
            net,
            net_name,
            layer,
            tstamp,
            hatch,
            priority,
            connect_pads,
            min_thickness,
            keepout,
            fill,
            polygons: Vec::new(),
            filled_polygons: Vec::new(),
            fill_segments: None,
            other: Vec::new(),
        };
        assert(views(init.polygons@) =~= Seq::<PtsView>::empty());
        assert(views(init.filled_polygons@) =~= Seq::<PtsView>::empty());
        assert(forest(init.other@) =~= Seq::<Tree>::empty());
        fill_from(init, l, b + 1)
    }
}

/// The point list of the pair `(name (pts ..))` at position `p`.
pub open spec fn feature_at(l: Seq<Tree>, p: int, name: Seq<char>) -> Result<PtsView, Failure> {
    match child(l, p, name) {
        Err(e) => Err(e),
        Ok(c) => match named_value(c, name) {
            Err(e) => Err(e),
            Ok(v) => Pts::decoded(v),
        },
    }
}

/// Decodes the point list of the pair `(name (pts ..))` at position `p`.
pub fn feature_field(l: &Vec<Node>, p: usize, name: &str) -> (r: Result<Pts, DecodeError>)
    ensures
        agrees(r, feature_at(forest(l@), p as int, name@)),
{
    Pts::from_sexp(value_of(field(l, p, name)?, name)?)
}

/// The number of `(width number ..)` at position `p`.
pub open spec fn width_at(l: Seq<Tree>, p: int) -> Result<Seq<char>, Failure> {
    match child(l, p, "width"@) {
        Err(e) => Err(e),
        Ok(c) => arg_decimal(c, "width"@),
    }
}

impl FromSexp for Dimension {
    /// `(dimension value (width ..) (layer ..) [(tstamp ..)] (gr_text ..)
    /// (feature1 ..) (feature2 ..) (crossbar ..) (arrow1a ..) (arrow1b ..)
    /// (arrow2a ..) (arrow2b ..))`, by position.  Where the fourth child
    /// is a timestamp, the text and the seven point lists stand one place
    /// later than where it is not; there are no other children.
    open spec fn decoded(t: Tree) -> Result<DimensionView, Failure> {
        match named_list(t, "dimension"@) {
            Err(e) => Err(e),
            Ok(l) => {
                let stamp = named_text_at(l, 4, "tstamp"@);
                let i = if stamp is Ok {
                    5int
                } else {
                    4int
                };
                let name = text_at(l, 1, "name"@);
                let width = width_at(l, 2);
                let layer = decode_at::<footprint::Layer>(l, 3, "layer"@);
                let text = decode_at::<GrText>(l, i, "gr_text"@);
                let feature1 = feature_at(l, i + 1, "feature1"@);
                let feature2 = feature_at(l, i + 2, "feature2"@);
                let crossbar = feature_at(l, i + 3, "crossbar"@);
                let arrow1a = feature_at(l, i + 4, "arrow1a"@);
                let arrow1b = feature_at(l, i + 5, "arrow1b"@);
                let arrow2a = feature_at(l, i + 6, "arrow2a"@);
                let arrow2b = feature_at(l, i + 7, "arrow2b"@);
                if l.len() != i + 8 {
                    Err(Failure::structure("dimension"@, t))
                } else if name is Err {
                    Err(name->Err_0)
                } else if width is Err {
                    Err(width->Err_0)
                } else if layer is Err {
                    Err(layer->Err_0)
                } else if text is Err {
                    Err(text->Err_0)
                } else if feature1 is Err {
                    Err(feature1->Err_0)
                } else if feature2 is Err {
                    Err(feature2->Err_0)
                } else if crossbar is Err {
                    Err(crossbar->Err_0)
                } else if arrow1a is Err {
                    Err(arrow1a->Err_0)
                } else if arrow1b is Err {
                    Err(arrow1b->Err_0)
                } else if arrow2a is Err {
                    Err(arrow2a->Err_0)
                } else if arrow2b is Err {
                    Err(arrow2b->Err_0)
                } else {
                    Ok(
                        DimensionView {
                            name: name->Ok_0,
                            width: width->Ok_0,
                            layer: layer->Ok_0,
                            tstamp: if stamp is Ok {
                                Some(stamp->Ok_0)
                            } else {
                                None
                            },
                            text: text->Ok_0,
                            feature1: feature1->Ok_0,
                            feature2: feature2->Ok_0,
                            crossbar: crossbar->Ok_0,
                            arrow1a: arrow1a->Ok_0,
                            arrow1b: arrow1b->Ok_0,
                            arrow2a: arrow2a->Ok_0,
                            arrow2b: arrow2b->Ok_0,
                        },
                    )
                }
            },
        }
    }

    fn from_sexp(s: &Node) -> (r: Result<Dimension, DecodeError>) {
        let l = list_of(s, "dimension")?;
        let (tstamp, i): (Option<String>, usize) = match named_text_field(l, 4, "tstamp") {
            Ok(stamp) => (Some(stamp.clone()), 5),
            Err(_) => (None, 4),
        };
        if l.len() != i + 8 {
            return Err(DecodeError::new(ErrorKind::Structure, "dimension", s));
        }
        let name = text_field(l, 1, "name")?.clone();
        let width = decimal_arg(field(l, 2, "width")?, "width")?;
        let layer = decode_field::<footprint::Layer>(l, 3, "layer")?;
        let text = decode_field::<GrText>(l, i, "gr_text")?;
        let feature1 = feature_field(l, i + 1, "feature1")?;
        let feature2 = feature_field(l, i + 2, "feature2")?;
        let crossbar = feature_field(l, i + 3, "crossbar")?;
        let arrow1a = feature_field(l, i + 4, "arrow1a")?;
        let arrow1b = feature_field(l, i + 5, "arrow1b")?;
        let arrow2a = feature_field(l, i + 6, "arrow2a")?;
        let arrow2b = feature_field(l, i + 7, "arrow2b")?;
        Ok(
            Dimension {
                name,
                width,
                layer,
                tstamp,
                text,
                feature1,
                feature2,
                crossbar,
                arrow1a,
                arrow1b,
                arrow2a,
                arrow2b,
            },
        )
    }
}

/// The board before any of its children is read: version zero, empty
/// texts, statistics of zero, no layers, no elements.
pub open spec fn bare_layout() -> Result<LayoutView, Failure> {
    let decimal = zero("general"@);
    if decimal is Err {
        Err(decimal->Err_0)
    } else {
        let z = decimal->Ok_0;
        let n = zero_int();
        Ok(
            LayoutView {
                version: n,
                host: HostView { tool: Seq::empty(), build: Seq::empty() },
                general: GeneralView {
                    links: n,
                    no_connects: n,
                    area: AreaView { x1: z, y1: z, x2: z, y2: z },
                    thickness: z,
                    drawings: n,
                    tracks: n,
                    zones: n,
                    modules: n,
                    nets: n,
                },
                page: Seq::empty(),
                setup: bare_setup(),
                layers: Seq::empty(),
                elements: Seq::empty(),
            },
        )
    }
}

/// The board `acc` with one more element.
pub open spec fn with_element(acc: LayoutView, e: ElementView) -> LayoutView {
    LayoutView { elements: acc.elements.push(e), ..acc }
}

impl Layout {
    /// The board before any of its children is read.
    pub fn bare() -> (r: Result<Layout, DecodeError>)
        ensures
            agrees(r, bare_layout()),
    {
        let x1 = Decimal::zero("general")?;
        let y1 = Decimal::zero("general")?;
        let x2 = Decimal::zero("general")?;
        let y2 = Decimal::zero("general")?;
        let thickness = Decimal::zero("general")?;
        let version = Integer::zero();
        let links = Integer::zero();
        let no_connects = Integer::zero();
        let drawings = Integer::zero();
        let tracks = Integer::zero();
        let zones = Integer::zero();
        let modules = Integer::zero();
        let nets = Integer::zero();
        let layout = Layout {
            version,
            host: Host { tool: String::new(), build: String::new() },
            general: General {
                links,
                no_connects,
                area: Area { x1, y1, x2, y2 },
                thickness,
                drawings,
                tracks,
                zones,
                modules,
                nets,
            },
            page: String::new(),
            setup: Setup::bare(),
            layers: Vec::new(),
            elements: Vec::new(),
        };
        assert(views(layout.layers@) =~= Seq::<LayerView>::empty());
        assert(views(layout.elements@) =~= Seq::<ElementView>::empty());
        Ok(layout)
    }

    /// Adds an element at the end.
    pub fn push_element(&mut self, e: Element)
        ensures
            final(self)@ == with_element(old(self)@, e@),
    {
        let ghost before = views(self.elements@);
        self.elements.push(e);
        assert(views(self.elements@) =~= before.push(e@));
    }
}

impl FieldBag for Layout {
    /// A child of the header (`version`, `host`, `general`, `page`,
    /// `layers`, `setup`) sets that part of the board.  A child of a known
    /// element name is decoded as that element and added; where it does not
    /// decode, the board fails.  A child of any other name is added as it
    /// is.
    open spec fn with_child(acc: LayoutView, t: Tree) -> Result<LayoutView, Failure> {
        match list_head(t, "kicad_pcb"@) {
            Err(e) => Err(e),
            Ok(name) => if name == "version"@ {
                lift(decoded_version(t), |x| LayoutView { version: x, ..acc })
            } else if name == "host"@ {
                lift(Host::decoded(t), |x| LayoutView { host: x, ..acc })
            } else if name == "general"@ {
                lift(General::decoded(t), |x| LayoutView { general: x, ..acc })
            } else if name == "page"@ {
                lift(decoded_page(t), |x| LayoutView { page: x, ..acc })
            } else if name == "layers"@ {
                lift(decoded_layer_table(t), |x| LayoutView { layers: x, ..acc })
            } else if name == "module"@ {
                lift(Module::decoded(t), |x| with_element(acc, ElementView::Module(x)))
            } else if name == "net"@ {
                lift(Net::decoded(t), |x| with_element(acc, ElementView::Net(x)))
            } else if name == "net_class"@ {
                lift(NetClass::decoded(t), |x| with_element(acc, ElementView::NetClass(x)))
            } else if name == "gr_text"@ {
                lift(GrText::decoded(t), |x| with_element(acc, ElementView::GrText(x)))
            } else if name == "gr_line"@ {
                lift(GrLine::decoded(t), |x| with_element(acc, ElementView::GrLine(x)))
            } else if name == "gr_arc"@ {
                lift(GrArc::decoded(t), |x| with_element(acc, ElementView::GrArc(x)))
            } else if name == "gr_circle"@ {
                lift(GrCircle::decoded(t), |x| with_element(acc, ElementView::GrCircle(x)))
            } else if name == "dimension"@ {
                lift(Dimension::decoded(t), |x| with_element(acc, ElementView::Dimension(x)))
            } else if name == "zone"@ {
                lift(Zone::decoded(t), |x| with_element(acc, ElementView::Zone(x)))
            } else if name == "segment"@ {
                lift(Segment::decoded(t), |x| with_element(acc, ElementView::Segment(x)))
            } else if name == "via"@ {
                lift(Via::decoded(t), |x| with_element(acc, ElementView::Via(x)))
            } else if name == "setup"@ {
                lift(Setup::decoded(t), |x| LayoutView { setup: x, ..acc })
            } else {
                Ok(with_element(acc, ElementView::Other(t)))
            },
        }
    }

    fn put(&mut self, child: &Node) -> (r: Result<(), DecodeError>) {
        let name = head_of(child, "kicad_pcb")?;
        let n = name.as_str();
        if str_eq(n, "version") {
            self.version = version_from_sexp(child)?;
        } else if str_eq(n, "host") {
            self.host = Host::from_sexp(child)?;
        } else if str_eq(n, "general") {
            self.general = General::from_sexp(child)?;
        } else if str_eq(n, "page") {
            self.page = page_from_sexp(child)?;
        } else if str_eq(n, "layers") {
            self.layers = layer_table_from_sexp(child)?;
        } else if str_eq(n, "module") {
            let e = Element::Module(Module::from_sexp(child)?);
            self.push_element(e);
        } else if str_eq(n, "net") {
            let e = Element::Net(Net::from_sexp(child)?);
            self.push_element(e);
        } else if str_eq(n, "net_class") {
            let e = Element::NetClass(NetClass::from_sexp(child)?);
            self.push_element(e);
        } else if str_eq(n, "gr_text") {
            let e = Element::GrText(GrText::from_sexp(child)?);
            self.push_element(e);
        } else if str_eq(n, "gr_line") {
            let e = Element::GrLine(GrLine::from_sexp(child)?);
            self.push_element(e);
        } else if str_eq(n, "gr_arc") {
            let e = Element::GrArc(GrArc::from_sexp(child)?);
            self.push_element(e);
        } else if str_eq(n, "gr_circle") {
            let e = Element::GrCircle(GrCircle::from_sexp(child)?);
            self.push_element(e);
        } else if str_eq(n, "dimension") {
            let e = Element::Dimension(Dimension::from_sexp(child)?);
            self.push_element(e);
        } else if str_eq(n, "zone") {
            let e = Element::Zone(Zone::from_sexp(child)?);
            self.push_element(e);
        } else if str_eq(n, "segment") {
            let e = Element::Segment(Segment::from_sexp(child)?);
            self.push_element(e);
        } else if str_eq(n, "via") {
            let e = Element::Via(Via::from_sexp(child)?);
            self.push_element(e);
        } else if str_eq(n, "setup") {
            self.setup = Setup::from_sexp(child)?;
        } else {
            let e = parse_other(child);
            self.push_element(e);
        }
        Ok(())
    }
}

/// The element that keeps a child of an unknown name as it was written.
pub fn parse_other(e: &Node) -> (other: Element)
    ensures
        other@ == ElementView::Other(e@),
{
    Element::Other(e.duplicate())
}

impl FromSexp for Layout {
    /// `(kicad_pcb child ..)`: the children in any order, each taken in
    /// turn.  What no child sets stays as in the bare board.
    open spec fn decoded(t: Tree) -> Result<LayoutView, Failure> {
        match named_list(t, "kicad_pcb"@) {
            Err(e) => Err(e),
            Ok(l) => match bare_layout() {
                Err(e) => Err(e),
                Ok(init) => filled::<Layout>(l, 1, init),
            },
        }
    }

    fn from_sexp(s: &Node) -> (r: Result<Layout, DecodeError>) {
        let l = list_of(s, "kicad_pcb")?;
        fill_from(Layout::bare()?, l, 1)
    }
}

/// Reads a board from the text of a `kicad_pcb` file.
pub fn parse(s: &str) -> (r: Result<Layout, KicadError>)
    ensures
        reads_as::<Layout>(r, parsed(s@)),
{
    decode_text::<Layout>(s)
}

} // verus!
