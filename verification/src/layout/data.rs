//! The typed model of a board.

use vstd::prelude::*;
use crate::footprint;
use crate::codec::{option_view, views};
use crate::decimal::Decimal;
use crate::footprint::{At, AtView, Effects, Layers, Module, Pts, PtsView, Xy, XyView};
use crate::integer::Integer;
use crate::tree::{forest, Node, Tree};

verus! {

/// Whether a layer carries signals or belongs to the user.
#[derive(Clone, Copy, Debug, PartialEq, Eq, Structural)]
pub enum LayerType {
    Signal,
    User,
}

/// What a keep-out zone lets in.  Each flag says that the thing is allowed.
#[derive(Clone, Copy, Debug, PartialEq, Eq, Structural)]
pub struct Keepout {
    pub tracks: bool,
    pub vias: bool,
    pub copperpour: bool,
}

impl View for Keepout {
    type V = Keepout;

    open spec fn view(&self) -> Keepout {
        *self
    }
}

/// A board: the document `kicad_pcb`.
#[derive(Debug, PartialEq)]
pub struct Layout {
    /// The version of the file format.
    pub version: Integer,
    /// The program that wrote the file.
    pub host: Host,
    /// The statistics block, as it was given.
    pub general: General,
    /// The page size.
    pub page: String,
    /// The plotting and design-rule setup.
    pub setup: Setup,
    /// The layer table, in the order of the document.
    pub layers: Vec<Layer>,
    /// The elements of the board, in the order of the document.
    pub elements: Vec<Element>,
}

/// The value of a [`Layout`].
pub ghost struct LayoutView {
    pub version: Seq<char>,
    pub host: HostView,
    pub general: GeneralView,
    pub page: Seq<char>,
    pub setup: SetupView,
    pub layers: Seq<LayerView>,
    pub elements: Seq<ElementView>,
}

impl View for Layout {
    type V = LayoutView;

    open spec fn view(&self) -> LayoutView {
        LayoutView {
            version: self.version@,
            host: self.host@,
            general: self.general@,
            page: self.page@,
            setup: self.setup@,
            layers: views(self.layers@),
            elements: views(self.elements@),
        }
    }
}

/// The program that wrote the file.
#[derive(Debug, PartialEq)]
pub struct Host {
    /// Its name.
    pub tool: String,
    /// Its build.
    pub build: String,
}

/// The value of a [`Host`].
pub ghost struct HostView {
    pub tool: Seq<char>,
    pub build: Seq<char>,
}

impl View for Host {
    type V = HostView;

    open spec fn view(&self) -> HostView {
        HostView {
            tool: self.tool@,
            build: self.build@,
        }
    }
}

/// The statistics of a board.  They are kept as given and never recomputed.
#[derive(Debug, PartialEq)]
pub struct General {
    /// Links.
    pub links: Integer,
    /// Pads without a connection.
    pub no_connects: Integer,
    /// The bounding rectangle of the board.
    pub area: Area,
    /// The thickness of the board.
    pub thickness: Decimal,
    /// Drawings.
    pub drawings: Integer,
    /// Tracks.
    pub tracks: Integer,
    /// Zones.
    pub zones: Integer,
    /// Footprints.
    pub modules: Integer,
    /// Nets.
    pub nets: Integer,
}

/// The value of a [`General`].
pub ghost struct GeneralView {
    pub links: Seq<char>,
    pub no_connects: Seq<char>,
    pub area: AreaView,
    pub thickness: Seq<char>,
    pub drawings: Seq<char>,
    pub tracks: Seq<char>,
    pub zones: Seq<char>,
    pub modules: Seq<char>,
    pub nets: Seq<char>,
}

impl View for General {
    type V = GeneralView;

    open spec fn view(&self) -> GeneralView {
        GeneralView {
            links: self.links@,
            no_connects: self.no_connects@,
            area: self.area@,
            thickness: self.thickness@,
            drawings: self.drawings@,
            tracks: self.tracks@,
            zones: self.zones@,
            modules: self.modules@,
            nets: self.nets@,
        }
    }
}

/// A rectangle with sides along the axes.
#[derive(Debug, PartialEq)]
pub struct Area {
    /// Left.
    pub x1: Decimal,
    /// Top.
    pub y1: Decimal,
    /// Right.
    pub x2: Decimal,
    /// Bottom.
    pub y2: Decimal,
}

/// The value of a [`Area`].
pub ghost struct AreaView {
    pub x1: Seq<char>,
    pub y1: Seq<char>,
    pub x2: Seq<char>,
    pub y2: Seq<char>,
}

impl View for Area {
    type V = AreaView;

    open spec fn view(&self) -> AreaView {
        AreaView {
            x1: self.x1@,
            y1: self.y1@,
            x2: self.x2@,
            y2: self.y2@,
        }
    }
}

/// An entry of the layer table.
#[derive(Debug, PartialEq)]
pub struct Layer {
    /// The number of the layer, as KiCad numbers it.
    pub num: Integer,
    /// The name of the layer.
    pub layer: footprint::Layer,
    /// Whether the layer carries signals.
    pub layer_type: LayerType,
    /// Whether the layer is hidden.
    pub hide: bool,
}

/// The value of a [`Layer`].
pub ghost struct LayerView {
    pub num: Seq<char>,
    pub layer: Seq<char>,
    pub layer_type: LayerType,
    pub hide: bool,
}

impl View for Layer {
    type V = LayerView;

    open spec fn view(&self) -> LayerView {
        LayerView {
            num: self.num@,
            layer: self.layer@,
            layer_type: self.layer_type,
            hide: self.hide,
        }
    }
}

/// An entry of the setup: a name with one or two values.
#[derive(Debug, PartialEq)]
pub struct SetupElement {
    /// The name.
    pub name: String,
    /// The first value.
    pub value1: String,
    /// The second value, where there is one.
    pub value2: Option<String>,
}

/// The value of a [`SetupElement`].
pub ghost struct SetupElementView {
    pub name: Seq<char>,
    pub value1: Seq<char>,
    pub value2: Option<Seq<char>>,
}

impl View for SetupElement {
    type V = SetupElementView;

    open spec fn view(&self) -> SetupElementView {
        SetupElementView {
            name: self.name@,
            value1: self.value1@,
            value2: option_view(self.value2),
        }
    }
}

/// The setup of a board, kept as names and values.
#[derive(Debug, PartialEq)]
pub struct Setup {
    /// The entries, in the order of the document.
    pub elements: Vec<SetupElement>,
    /// The plot parameters, in the order of the document.
    pub pcbplotparams: Vec<SetupElement>,
}

/// The value of a [`Setup`].
pub ghost struct SetupView {
    pub elements: Seq<SetupElementView>,
    pub pcbplotparams: Seq<SetupElementView>,
}

impl View for Setup {
    type V = SetupView;

    open spec fn view(&self) -> SetupView {
        SetupView {
            elements: views(self.elements@),
            pcbplotparams: views(self.pcbplotparams@),
        }
    }
}

/// A net.
#[derive(Debug, PartialEq)]
pub struct Net {
    /// Its number.
    pub num: Integer,
    /// Its name.
    pub name: String,
}

/// The value of a [`Net`].
pub ghost struct NetView {
    pub num: Seq<char>,
    pub name: Seq<char>,
}

impl View for Net {
    type V = NetView;

    open spec fn view(&self) -> NetView {
        NetView {
            num: self.num@,
            name: self.name@,
        }
    }
}

/// A class of nets with its routing rules.
#[derive(Debug, PartialEq)]
pub struct NetClass {
    /// The name of the class.
    pub name: String,
    /// A description.
    pub desc: String,
    /// Clearance.
    pub clearance: Decimal,
    /// Width of traces.
    pub trace_width: Decimal,
    /// Diameter of vias.
    pub via_dia: Decimal,
    /// Drill of vias.
    pub via_drill: Decimal,
    /// Diameter of micro vias.
    pub uvia_dia: Decimal,
    /// Drill of micro vias.
    pub uvia_drill: Decimal,
    /// Gap of differential pairs, where configured.
    pub diff_pair_gap: Option<Decimal>,
    /// Width of differential pairs, where configured.
    pub diff_pair_width: Option<Decimal>,
    /// The names of the member nets, in the order of the document.
    pub nets: Vec<String>,
}

/// The value of a [`NetClass`].
pub ghost struct NetClassView {
    pub name: Seq<char>,
    pub desc: Seq<char>,
    pub clearance: Seq<char>,
    pub trace_width: Seq<char>,
    pub via_dia: Seq<char>,
    pub via_drill: Seq<char>,
    pub uvia_dia: Seq<char>,
    pub uvia_drill: Seq<char>,
    pub diff_pair_gap: Option<Seq<char>>,
    pub diff_pair_width: Option<Seq<char>>,
    pub nets: Seq<Seq<char>>,
}

impl View for NetClass {
    type V = NetClassView;

    open spec fn view(&self) -> NetClassView {
        NetClassView {
            name: self.name@,
            desc: self.desc@,
            clearance: self.clearance@,
            trace_width: self.trace_width@,
            via_dia: self.via_dia@,
            via_drill: self.via_drill@,
            uvia_dia: self.uvia_dia@,
            uvia_drill: self.uvia_drill@,
            diff_pair_gap: option_view(self.diff_pair_gap),
            diff_pair_width: option_view(self.diff_pair_width),
            nets: views(self.nets@),
        }
    }
}

/// A text on the board.
#[derive(Debug, PartialEq)]
pub struct GrText {
    /// The text.
    pub value: String,
    /// Where it stands.
    pub at: At,
    /// Its layer.
    pub layer: footprint::Layer,
    /// Its effects.
    pub effects: Effects,
    /// Its timestamp.
    pub tstamp: Option<String>,
}

/// The value of a [`GrText`].
pub ghost struct GrTextView {
    pub value: Seq<char>,
    pub at: AtView,
    pub layer: Seq<char>,
    pub effects: Seq<Tree>,
    pub tstamp: Option<Seq<char>>,
}

impl View for GrText {
    type V = GrTextView;

    open spec fn view(&self) -> GrTextView {
        GrTextView {
            value: self.value@,
            at: self.at@,
            layer: self.layer@,
            effects: self.effects@,
            tstamp: option_view(self.tstamp),
        }
    }
}

/// A line on the board.
#[derive(Debug, PartialEq)]
pub struct GrLine {
    /// Start.
    pub start: Xy,
    /// End.
    pub end: Xy,
    /// Angle.
    pub angle: Decimal,
    /// Layer.
    pub layer: footprint::Layer,
    /// Width.
    pub width: Decimal,
    /// Timestamp.
    pub tstamp: Option<String>,
}

/// The value of a [`GrLine`].
pub ghost struct GrLineView {
    pub start: XyView,
    pub end: XyView,
    pub angle: Seq<char>,
    pub layer: Seq<char>,
    pub width: Seq<char>,
    pub tstamp: Option<Seq<char>>,
}

impl View for GrLine {
    type V = GrLineView;

    open spec fn view(&self) -> GrLineView {
        GrLineView {
            start: self.start@,
            end: self.end@,
            angle: self.angle@,
            layer: self.layer@,
            width: self.width@,
            tstamp: option_view(self.tstamp),
        }
    }
}

/// An arc on the board.
#[derive(Debug, PartialEq)]
pub struct GrArc {
    /// Start.
    pub start: Xy,
    /// End.
    pub end: Xy,
    /// Angle.
    pub angle: Decimal,
    /// Layer.
    pub layer: footprint::Layer,
    /// Width.
    pub width: Decimal,
    /// Timestamp.
    pub tstamp: Option<String>,
}

/// The value of a [`GrArc`].
pub ghost struct GrArcView {
    pub start: XyView,
    pub end: XyView,
    pub angle: Seq<char>,
    pub layer: Seq<char>,
    pub width: Seq<char>,
    pub tstamp: Option<Seq<char>>,
}

impl View for GrArc {
    type V = GrArcView;

    open spec fn view(&self) -> GrArcView {
        GrArcView {
            start: self.start@,
            end: self.end@,
            angle: self.angle@,
            layer: self.layer@,
            width: self.width@,
            tstamp: option_view(self.tstamp),
        }
    }
}

/// A circle on the board.
#[derive(Debug, PartialEq)]
pub struct GrCircle {
    /// Center.
    pub center: Xy,
    /// A point of the circle.
    pub end: Xy,
    /// Layer.
    pub layer: footprint::Layer,
    /// Width.
    pub width: Decimal,
    /// Timestamp.
    pub tstamp: Option<String>,
}

/// The value of a [`GrCircle`].
pub ghost struct GrCircleView {
    pub center: XyView,
    pub end: XyView,
    pub layer: Seq<char>,
    pub width: Seq<char>,
    pub tstamp: Option<Seq<char>>,
}

impl View for GrCircle {
    type V = GrCircleView;

    open spec fn view(&self) -> GrCircleView {
        GrCircleView {
            center: self.center@,
            end: self.end@,
            layer: self.layer@,
            width: self.width@,
            tstamp: option_view(self.tstamp),
        }
    }
}

/// A dimension annotation.
#[derive(Debug, PartialEq)]
pub struct Dimension {
    /// The measured value as written.
    pub name: String,
    /// Line width.
    pub width: Decimal,
    /// Layer.
    pub layer: footprint::Layer,
    /// Timestamp, where one is written.
    pub tstamp: Option<String>,
    /// The text of the annotation.
    pub text: GrText,
    /// First feature line.
    pub feature1: Pts,
    /// Second feature line.
    pub feature2: Pts,
    /// Crossbar.
    pub crossbar: Pts,
    /// Arrow.
    pub arrow1a: Pts,
    /// Arrow.
    pub arrow1b: Pts,
    /// Arrow.
    pub arrow2a: Pts,
    /// Arrow.
    pub arrow2b: Pts,
}

/// The value of a [`Dimension`].
pub ghost struct DimensionView {
    pub name: Seq<char>,
    pub width: Seq<char>,
    pub layer: Seq<char>,
    pub tstamp: Option<Seq<char>>,
    pub text: GrTextView,
    pub feature1: PtsView,
    pub feature2: PtsView,
    pub crossbar: PtsView,
    pub arrow1a: PtsView,
    pub arrow1b: PtsView,
    pub arrow2a: PtsView,
    pub arrow2b: PtsView,
}

impl View for Dimension {
    type V = DimensionView;

    open spec fn view(&self) -> DimensionView {
        DimensionView {
            name: self.name@,
            width: self.width@,
            layer: self.layer@,
            tstamp: option_view(self.tstamp),
            text: self.text@,
            feature1: self.feature1@,
            feature2: self.feature2@,
            crossbar: self.crossbar@,
            arrow1a: self.arrow1a@,
            arrow1b: self.arrow1b@,
            arrow2a: self.arrow2a@,
            arrow2b: self.arrow2b@,
        }
    }
}

/// A copper zone.
#[derive(Debug, PartialEq)]
pub struct Zone {
    /// Number of the net.
    pub net: Integer,
    /// Name of the net.
    pub net_name: String,
    /// Layer.
    pub layer: footprint::Layer,
    /// Timestamp.
    pub tstamp: String,
    /// Hatching.
    pub hatch: Hatch,
    /// Fill priority; zero where none is written.
    pub priority: Integer,
    /// How pads are connected.
    pub connect_pads: ConnectPads,
    /// Minimum thickness of copper.
    pub min_thickness: Decimal,
    /// What is kept out, for a keep-out zone.
    pub keepout: Option<Keepout>,
    /// How the zone is filled.
    pub fill: Fill,
    /// The outlines.
    pub polygons: Vec<Pts>,
    /// The fill results.
    pub filled_polygons: Vec<Pts>,
    /// The fill segments.
    pub fill_segments: Option<Pts>,
    /// Children that are none of these, kept as they were written.
    pub other: Vec<Node>,
}

/// The value of a [`Zone`].
pub ghost struct ZoneView {
    pub net: Seq<char>,
    pub net_name: Seq<char>,
    pub layer: Seq<char>,
    pub tstamp: Seq<char>,
    pub hatch: HatchView,
    pub priority: Seq<char>,
    pub connect_pads: ConnectPadsView,
    pub min_thickness: Seq<char>,
    pub keepout: Option<Keepout>,
    pub fill: FillView,
    pub polygons: Seq<PtsView>,
    pub filled_polygons: Seq<PtsView>,
    pub fill_segments: Option<PtsView>,
    pub other: Seq<Tree>,
}

impl View for Zone {
    type V = ZoneView;

    open spec fn view(&self) -> ZoneView {
        ZoneView {
            net: self.net@,
            net_name: self.net_name@,
            layer: self.layer@,
            tstamp: self.tstamp@,
            hatch: self.hatch@,
            priority: self.priority@,
            connect_pads: self.connect_pads@,
            min_thickness: self.min_thickness@,
            keepout: option_view(self.keepout),
            fill: self.fill@,
            polygons: views(self.polygons@),
            filled_polygons: views(self.filled_polygons@),
            fill_segments: option_view(self.fill_segments),
            other: forest(self.other@),
        }
    }
}

/// The hatching of a zone outline.
#[derive(Debug, PartialEq)]
pub struct Hatch {
    /// Style.
    pub style: String,
    /// Pitch.
    pub pitch: Decimal,
}

/// The value of a [`Hatch`].
pub ghost struct HatchView {
    pub style: Seq<char>,
    pub pitch: Seq<char>,
}

impl View for Hatch {
    type V = HatchView;

    open spec fn view(&self) -> HatchView {
        HatchView {
            style: self.style@,
            pitch: self.pitch@,
        }
    }
}

/// How a zone connects to pads.
#[derive(Debug, PartialEq)]
pub struct ConnectPads {
    /// The kind of connection, where one is written.
    pub connection: Option<String>,
    /// Clearance.
    pub clearance: Decimal,
}

/// The value of a [`ConnectPads`].
pub ghost struct ConnectPadsView {
    pub connection: Option<Seq<char>>,
    pub clearance: Seq<char>,
}

impl View for ConnectPads {
    type V = ConnectPadsView;

    open spec fn view(&self) -> ConnectPadsView {
        ConnectPadsView {
            connection: option_view(self.connection),
            clearance: self.clearance@,
        }
    }
}

/// How a zone is filled.
#[derive(Debug, PartialEq)]
pub struct Fill {
    /// Whether the zone is filled.
    pub filled: bool,
    /// Whether it is filled with segments.
    pub segment: bool,
    /// Segments per arc.
    pub arc_segments: Integer,
    /// Thermal gap.
    pub thermal_gap: Decimal,
    /// Width of thermal bridges.
    pub thermal_bridge_width: Decimal,
    /// Corner smoothing.
    pub smoothing: Option<String>,
    /// Corner radius.
    pub corner_radius: Decimal,
}

/// The value of a [`Fill`].
pub ghost struct FillView {
    pub filled: bool,
    pub segment: bool,
    pub arc_segments: Seq<char>,
    pub thermal_gap: Seq<char>,
    pub thermal_bridge_width: Seq<char>,
    pub smoothing: Option<Seq<char>>,
    pub corner_radius: Seq<char>,
}

impl View for Fill {
    type V = FillView;

    open spec fn view(&self) -> FillView {
        FillView {
            filled: self.filled,
            segment: self.segment,
            arc_segments: self.arc_segments@,
            thermal_gap: self.thermal_gap@,
            thermal_bridge_width: self.thermal_bridge_width@,
            smoothing: option_view(self.smoothing),
            corner_radius: self.corner_radius@,
        }
    }
}

/// A track segment.
#[derive(Debug, PartialEq)]
pub struct Segment {
    /// Start.
    pub start: Xy,
    /// End.
    pub end: Xy,
    /// Width.
    pub width: Decimal,
    /// Layer.
    pub layer: footprint::Layer,
    /// Number of the net.
    pub net: Integer,
    /// Timestamp.
    pub tstamp: Option<String>,
    /// Status.
    pub status: Option<String>,
}

/// The value of a [`Segment`].
pub ghost struct SegmentView {
    pub start: XyView,
    pub end: XyView,
    pub width: Seq<char>,
    pub layer: Seq<char>,
    pub net: Seq<char>,
    pub tstamp: Option<Seq<char>>,
    pub status: Option<Seq<char>>,
}

impl View for Segment {
    type V = SegmentView;

    open spec fn view(&self) -> SegmentView {
        SegmentView {
            start: self.start@,
            end: self.end@,
            width: self.width@,
            layer: self.layer@,
            net: self.net@,
            tstamp: option_view(self.tstamp),
            status: option_view(self.status),
        }
    }
}

/// A via.
#[derive(Debug, PartialEq)]
pub struct Via {
    /// Position.
    pub at: At,
    /// Diameter.
    pub size: Decimal,
    /// Drill.
    pub drill: Decimal,
    /// The layers it connects.
    pub layers: Layers,
    /// Number of the net.
    pub net: Integer,
}

/// The value of a [`Via`].
pub ghost struct ViaView {
    pub at: AtView,
    pub size: Seq<char>,
    pub drill: Seq<char>,
    pub layers: Seq<Seq<char>>,
    pub net: Seq<char>,
}

impl View for Via {
    type V = ViaView;

    open spec fn view(&self) -> ViaView {
        ViaView {
            at: self.at@,
            size: self.size@,
            drill: self.drill@,
            layers: self.layers@,
            net: self.net@,
        }
    }
}

/// An element of a board.  Every child of the document that is not part of the header becomes one; a child of a name that the library does not know is kept as it was written.
#[derive(Debug, PartialEq)]
pub enum Element {
    Module(Module),
    Net(Net),
    NetClass(NetClass),
    GrText(GrText),
    GrLine(GrLine),
    GrArc(GrArc),
    GrCircle(GrCircle),
    Dimension(Dimension),
    Zone(Zone),
    Segment(Segment),
    Via(Via),
    Other(Node),
}

/// The value of a [`Element`].
pub ghost enum ElementView {
    Module(Seq<Tree>),
    Net(NetView),
    NetClass(NetClassView),
    GrText(GrTextView),
    GrLine(GrLineView),
    GrArc(GrArcView),
    GrCircle(GrCircleView),
    Dimension(DimensionView),
    Zone(ZoneView),
    Segment(SegmentView),
    Via(ViaView),
    Other(Tree),
}

impl View for Element {
    type V = ElementView;

    open spec fn view(&self) -> ElementView {
        match self {
            Element::Module(x) => ElementView::Module(x@),
            Element::Net(x) => ElementView::Net(x@),
            Element::NetClass(x) => ElementView::NetClass(x@),
            Element::GrText(x) => ElementView::GrText(x@),
            Element::GrLine(x) => ElementView::GrLine(x@),
            Element::GrArc(x) => ElementView::GrArc(x@),
            Element::GrCircle(x) => ElementView::GrCircle(x@),
            Element::Dimension(x) => ElementView::Dimension(x@),
            Element::Zone(x) => ElementView::Zone(x@),
            Element::Segment(x) => ElementView::Segment(x@),
            Element::Via(x) => ElementView::Via(x@),
            Element::Other(x) => ElementView::Other(x@),
        }
    }
}

/// A named field of a graphic or routing primitive.
#[derive(Debug, PartialEq)]
pub enum GrElement {
    Start(Xy),
    End(Xy),
    Center(Xy),
    Angle(Decimal),
    Layer(footprint::Layer),
    Width(Decimal),
    Size(Decimal),
    Drill(Decimal),
    TStamp(String),
    Status(String),
    Net(Integer),
    At(At),
    Layers(Layers),
    Effects(Effects),
}

/// The value of a [`GrElement`].
pub ghost enum GrElementView {
    Start(XyView),
    End(XyView),
    Center(XyView),
    Angle(Seq<char>),
    Layer(Seq<char>),
    Width(Seq<char>),
    Size(Seq<char>),
    Drill(Seq<char>),
    TStamp(Seq<char>),
    Status(Seq<char>),
    Net(Seq<char>),
    At(AtView),
    Layers(Seq<Seq<char>>),
    Effects(Seq<Tree>),
}

impl View for GrElement {
    type V = GrElementView;

    open spec fn view(&self) -> GrElementView {
        match self {
            GrElement::Start(x) => GrElementView::Start(x@),
            GrElement::End(x) => GrElementView::End(x@),
            GrElement::Center(x) => GrElementView::Center(x@),
            GrElement::Angle(x) => GrElementView::Angle(x@),
            GrElement::Layer(x) => GrElementView::Layer(x@),
            GrElement::Width(x) => GrElementView::Width(x@),
            GrElement::Size(x) => GrElementView::Size(x@),
            GrElement::Drill(x) => GrElementView::Drill(x@),
            GrElement::TStamp(x) => GrElementView::TStamp(x@),
            GrElement::Status(x) => GrElementView::Status(x@),
            GrElement::Net(x) => GrElementView::Net(x@),
            GrElement::At(x) => GrElementView::At(x@),
            GrElement::Layers(x) => GrElementView::Layers(x@),
            GrElement::Effects(x) => GrElementView::Effects(x@),
        }
    }
}

} // verus!
