use kicad_codec::codec::{parse_node, FromSexp, IntoSexp};
use kicad_codec::error::{DecodeError, ErrorKind, KicadError};
use kicad_codec::footprint::{At, Layers, Pts, Xy, XyType};
use kicad_codec::layout::data::{
    Area, ConnectPads, Dimension, Element, Fill, General, GrArc, GrCircle, GrElement, GrLine, GrText, Hatch, Host,
    Keepout, Layer, LayerType, Layout, Net, NetClass, Segment, Setup, SetupElement, Via, Zone,
};
use kicad_codec::layout::de::{
    field_from_sexp, layer_table_from_sexp, outline_from_sexp, page_from_sexp, parse, parse_other, version_from_sexp,
};
use kicad_codec::tree::Node;

fn tree(text: &str) -> Node {
    parse_node(text).unwrap()
}

fn failure<T: std::fmt::Debug>(r: Result<T, DecodeError>) -> (ErrorKind, String) {
    let e = r.unwrap_err();
    (e.kind, e.field)
}

fn dimension(stamp: &str) -> String {
    format!(
        "(dimension 10 (width 0.3) (layer Dwgs.User){} (gr_text \"10 mm\" (at 5 5) (layer Dwgs.User) (effects (font (size 1 1)))) \
         (feature1 (pts (xy 0 0) (xy 0 1))) (feature2 (pts (xy 10 0) (xy 10 1))) (crossbar (pts (xy 0 1) (xy 10 1))) \
         (arrow1a (pts (xy 1 1))) (arrow1b (pts (xy 2 2))) (arrow2a (pts (xy 3 3))) (arrow2b (pts (xy 4 4))))",
        stamp
    )
}

#[test]
fn net_decodes_number_and_name() {
    let net = Net::from_sexp(&tree("(net 3 GND)")).unwrap();
    assert_eq!(net.num.value(), 3);
    assert_eq!(net.num.as_str(), "3");
    assert_eq!(net.name, "GND");
}

#[test]
fn net_with_a_name_for_number_is_mistyped() {
    assert_eq!(failure(Net::from_sexp(&tree("(net GND 3)"))), (ErrorKind::Type, "num".to_string()));
}

#[test]
fn failure_holds_the_node_that_could_not_be_read() {
    let e = Net::from_sexp(&tree("(net GND 3)")).unwrap_err();
    assert_eq!(e, DecodeError { kind: ErrorKind::Type, field: "num".into(), node: tree("GND") });
    let e = Net::from_sexp(&tree("(net 3)")).unwrap_err();
    assert_eq!(e.node, tree("(net 3)"));
    let e = NetClass::from_sexp(&tree("(net_class a b (clearance 1) (colour red))")).unwrap_err();
    assert_eq!(e.node, tree("(colour red)"));
    match parse("(kicad_pcb (net 0 \"\") (zone (net 1) (net_name)))") {
        Err(KicadError::Decode(e)) => assert_eq!(e.node, tree("(net_name)")),
        other => panic!("unexpected {:?}", other),
    }
}

#[test]
fn net_without_a_name_misses_a_field() {
    assert_eq!(failure(Net::from_sexp(&tree("(net 3)"))), (ErrorKind::MissingField, "name".to_string()));
}

#[test]
fn element_under_another_name_is_a_structural_mismatch() {
    assert_eq!(failure(Net::from_sexp(&tree("(nett 3 GND)"))), (ErrorKind::Structure, "net".to_string()));
    assert_eq!(failure(Net::from_sexp(&tree("()"))), (ErrorKind::Structure, "net".to_string()));
}

#[test]
fn atom_where_a_list_is_expected_is_mistyped() {
    assert_eq!(failure(Net::from_sexp(&tree("net"))), (ErrorKind::Type, "net".to_string()));
    assert_eq!(failure(Net::from_sexp(&tree("((net) 3 GND)"))), (ErrorKind::Type, "net".to_string()));
}

#[test]
fn version_and_page_decode() {
    assert_eq!(version_from_sexp(&tree("(version 20171130)")).unwrap().value(), 20171130);
    assert_eq!(page_from_sexp(&tree("(page A3)")).unwrap(), "A3");
    assert_eq!(failure(version_from_sexp(&tree("(version four)"))), (ErrorKind::Type, "value".to_string()));
}

#[test]
fn host_decodes() {
    let host = Host::from_sexp(&tree("(host pcbnew \"(2017-11-30)\")")).unwrap();
    assert_eq!(host.tool, "pcbnew");
    assert_eq!(host.build, "(2017-11-30)");
}

#[test]
fn area_takes_exactly_four_numbers() {
    let area = Area::from_sexp(&tree("(area 1.5 -2 30 4e1)")).unwrap();
    assert_eq!(area.x1.as_str(), "1.5");
    assert_eq!(area.y1.as_str(), "-2");
    assert_eq!(area.x2.as_str(), "30");
    assert_eq!(area.y2.as_str(), "4e1");
    assert_eq!(failure(Area::from_sexp(&tree("(area 1 2 3)"))), (ErrorKind::Structure, "area".to_string()));
    assert_eq!(failure(Area::from_sexp(&tree("(area 1 2 3 4 5)"))), (ErrorKind::Structure, "area".to_string()));
    assert_eq!(failure(Area::from_sexp(&tree("(area 1 2 x 4)"))), (ErrorKind::Type, "x2".to_string()));
}

#[test]
fn general_decodes_in_order() {
    let g = General::from_sexp(&tree(
        "(general (links 7) (no_connects 1) (area 0 0 10 20) (thickness 1.6) (drawings 4) (tracks 2) (zones 3) (modules 5) (nets 6))",
    ))
    .unwrap();
    assert_eq!(g.links.value(), 7);
    assert_eq!(g.no_connects.value(), 1);
    assert_eq!(g.area.y2.as_str(), "20");
    assert_eq!(g.thickness.as_str(), "1.6");
    assert_eq!((g.drawings.value(), g.tracks.value(), g.zones.value(), g.modules.value(), g.nets.value()), (4, 2, 3, 5, 6));
    assert_eq!(
        failure(General::from_sexp(&tree("(general (no_connects 1) (links 7))"))),
        (ErrorKind::Structure, "links".to_string())
    );
}

#[test]
fn layer_entry_has_three_or_four_children() {
    let l = Layer::from_sexp(&tree("(0 F.Cu signal)")).unwrap();
    assert_eq!((l.num.value(), l.layer.name.as_str(), l.layer_type, l.hide), (0, "F.Cu", LayerType::Signal, false));
    let l = Layer::from_sexp(&tree("(40 Dwgs.User user hide)")).unwrap();
    assert_eq!((l.num.value(), l.layer.name.as_str(), l.layer_type, l.hide), (40, "Dwgs.User", LayerType::User, true));
    let l = Layer::from_sexp(&tree("(40 Dwgs.User user shown)")).unwrap();
    assert!(!l.hide);
    assert_eq!(failure(Layer::from_sexp(&tree("(0 F.Cu)"))), (ErrorKind::Structure, "layer".to_string()));
    assert_eq!(failure(Layer::from_sexp(&tree("(0 F.Cu signal hide more)"))), (ErrorKind::Structure, "layer".to_string()));
    assert_eq!(failure(Layer::from_sexp(&tree("(0 F.Cu power)"))), (ErrorKind::UnknownField, "power".to_string()));
}

#[test]
fn layer_table_decodes_every_entry() {
    let table = layer_table_from_sexp(&tree("(layers (0 F.Cu signal) (31 B.Cu signal))")).unwrap();
    assert_eq!(table.len(), 2);
    assert_eq!(table[1].layer.name, "B.Cu");
    assert_eq!(failure(layer_table_from_sexp(&tree("(layers (0 F.Cu signal) (31 B.Cu))"))).0, ErrorKind::Structure);
}

#[test]
fn setup_entry_has_one_or_two_values() {
    let e = SetupElement::from_sexp(&tree("(pad_size 1.5 1.2)")).unwrap();
    assert_eq!(e, SetupElement { name: "pad_size".into(), value1: "1.5".into(), value2: Some("1.2".into()) });
    let e = SetupElement::from_sexp(&tree("(zone_clearance 0.5)")).unwrap();
    assert_eq!(e, SetupElement { name: "zone_clearance".into(), value1: "0.5".into(), value2: None });
    assert_eq!(failure(SetupElement::from_sexp(&tree("(lonely)"))), (ErrorKind::Structure, "setup".to_string()));
    assert_eq!(failure(SetupElement::from_sexp(&tree("(a b c d)"))), (ErrorKind::Structure, "setup".to_string()));
    assert_eq!(failure(SetupElement::from_sexp(&tree("(a (b) c)"))), (ErrorKind::Type, "value1".to_string()));
}

#[test]
fn setup_separates_the_plot_parameters() {
    let s = Setup::from_sexp(&tree("(setup (a 1) (pcbplotparams (p 1) (q 2 3)) (b 2) (pcbplotparams (r 4)))")).unwrap();
    assert_eq!(s.elements.iter().map(|e| e.name.as_str()).collect::<Vec<_>>(), vec!["a", "b"]);
    assert_eq!(s.pcbplotparams.iter().map(|e| e.name.as_str()).collect::<Vec<_>>(), vec!["p", "q", "r"]);
    assert_eq!(failure(Setup::from_sexp(&tree("(setup stray)"))), (ErrorKind::Type, "setup".to_string()));
    assert_eq!(failure(Setup::from_sexp(&tree("(setup ())"))), (ErrorKind::Structure, "setup".to_string()));
}

#[test]
fn net_class_without_via_dia_has_the_default() {
    let nc = NetClass::from_sexp(&tree("(net_class Default \"the default\" (clearance 0.2) (add_net GND) (add_net VCC))")).unwrap();
    assert_eq!(nc.name, "Default");
    assert_eq!(nc.desc, "the default");
    assert_eq!(nc.clearance.as_str(), "0.2");
    assert_eq!(nc.trace_width.as_str(), "0.2032");
    assert_eq!(nc.via_dia.as_str(), "0.675");
    assert_eq!(nc.via_drill.as_str(), "0.25");
    assert_eq!(nc.uvia_dia.as_str(), "0.508");
    assert_eq!(nc.uvia_drill.as_str(), "0.127");
    assert_eq!(nc.nets, vec!["GND".to_string(), "VCC".to_string()]);
    assert!(nc.diff_pair_gap.is_none());
    assert!(nc.diff_pair_width.is_none());
}

#[test]
fn net_class_without_rules_has_the_default_clearance() {
    let nc = NetClass::from_sexp(&tree("(net_class a b)")).unwrap();
    assert_eq!(nc.clearance.as_str(), "0.1524");
}

#[test]
fn net_class_takes_its_rules_in_any_order() {
    let nc = NetClass::from_sexp(&tree(
        "(net_class a b (add_net X) (diff_pair_width 0.3) (via_dia 0.8) (uvia_drill 0.2) (add_net Y) (diff_pair_gap 0.25) (via_dia 0.9))",
    ))
    .unwrap();
    assert_eq!(nc.via_dia.as_str(), "0.9");
    assert_eq!(nc.uvia_drill.as_str(), "0.2");
    assert_eq!(nc.diff_pair_gap.unwrap().as_str(), "0.25");
    assert_eq!(nc.diff_pair_width.unwrap().as_str(), "0.3");
    assert_eq!(nc.nets, vec!["X".to_string(), "Y".to_string()]);
}

#[test]
fn net_class_with_an_unknown_field_fails() {
    assert_eq!(
        failure(NetClass::from_sexp(&tree("(net_class Default \"\" (colour red))"))),
        (ErrorKind::UnknownField, "colour".to_string())
    );
    assert_eq!(failure(NetClass::from_sexp(&tree("(net_class Default)"))), (ErrorKind::MissingField, "desc".to_string()));
    assert_eq!(failure(NetClass::from_sexp(&tree("(net_class)"))), (ErrorKind::MissingField, "name".to_string()));
    assert_eq!(
        failure(NetClass::from_sexp(&tree("(net_class a b (clearance wide))"))),
        (ErrorKind::Type, "clearance".to_string())
    );
    assert_eq!(
        failure(NetClass::from_sexp(&tree("(net_class a b (clearance))"))),
        (ErrorKind::MissingField, "clearance".to_string())
    );
}

#[test]
fn field_of_a_primitive_is_told_by_its_name() {
    assert!(matches!(GrElement::from_sexp(&tree("(start 1 2)")).unwrap(), GrElement::Start(Xy { t: XyType::Start, .. })));
    assert!(matches!(GrElement::from_sexp(&tree("(end 1 2)")).unwrap(), GrElement::End(Xy { t: XyType::End, .. })));
    assert!(matches!(GrElement::from_sexp(&tree("(center 1 2)")).unwrap(), GrElement::Center(_)));
    assert!(matches!(GrElement::from_sexp(&tree("(angle 90)")).unwrap(), GrElement::Angle(_)));
    assert!(matches!(GrElement::from_sexp(&tree("(layer F.Cu)")).unwrap(), GrElement::Layer(_)));
    assert!(matches!(GrElement::from_sexp(&tree("(width 0.1)")).unwrap(), GrElement::Width(_)));
    assert!(matches!(GrElement::from_sexp(&tree("(size 0.1)")).unwrap(), GrElement::Size(_)));
    assert!(matches!(GrElement::from_sexp(&tree("(drill 0.1)")).unwrap(), GrElement::Drill(_)));
    assert!(matches!(GrElement::from_sexp(&tree("(tstamp 5A)")).unwrap(), GrElement::TStamp(_)));
    assert!(matches!(GrElement::from_sexp(&tree("(status 400)")).unwrap(), GrElement::Status(_)));
    assert!(matches!(GrElement::from_sexp(&tree("(net 4)")).unwrap(), GrElement::Net(_)));
    assert!(matches!(GrElement::from_sexp(&tree("(at 1 2 90)")).unwrap(), GrElement::At(_)));
    assert!(matches!(GrElement::from_sexp(&tree("(layers F.Cu B.Cu)")).unwrap(), GrElement::Layers(_)));
    assert!(matches!(GrElement::from_sexp(&tree("(effects (font))")).unwrap(), GrElement::Effects(_)));
    assert_eq!(failure(GrElement::from_sexp(&tree("(colour red)"))), (ErrorKind::UnknownField, "colour".to_string()));
    assert_eq!(field_from_sexp(&tree("(colour red)")), Ok(None));
    assert!(matches!(field_from_sexp(&tree("(angle 90)")), Ok(Some(GrElement::Angle(_)))));
    assert_eq!(failure(field_from_sexp(&tree("(angle)"))), (ErrorKind::MissingField, "angle".to_string()));
    assert_eq!(failure(field_from_sexp(&tree("angle"))), (ErrorKind::Type, "element".to_string()));
    assert_eq!(failure(GrElement::from_sexp(&tree("(angle)"))), (ErrorKind::MissingField, "angle".to_string()));
}

#[test]
fn line_keeps_defaults_for_absent_fields() {
    let line = GrLine::from_sexp(&tree("(gr_line (end 3 4) (width 0.15))")).unwrap();
    assert_eq!((line.start.x.as_str(), line.start.y.as_str(), line.start.t), ("0", "0", XyType::Start));
    assert_eq!((line.end.x.as_str(), line.end.y.as_str(), line.end.t), ("3", "4", XyType::End));
    assert_eq!(line.angle.as_str(), "0");
    assert_eq!(line.width.as_str(), "0.15");
    assert_eq!(line.layer.name, "default");
    assert!(line.tstamp.is_none());
}

#[test]
fn line_passes_over_fields_that_are_not_its_own() {
    let line = GrLine::from_sexp(&tree("(gr_line (net 4) (start 1 2) (drill 0.3) (tstamp 5A))")).unwrap();
    assert_eq!(line.start.x.as_str(), "1");
    assert_eq!(line.tstamp, Some("5A".to_string()));
    assert_eq!(failure(GrLine::from_sexp(&tree("(gr_line (start 1 two))"))), (ErrorKind::Type, "y".to_string()));
}

#[test]
fn line_passes_over_a_child_of_an_unknown_name_at_any_place() {
    let plain = GrLine::from_sexp(&tree("(gr_line (start 1 2) (end 3 4) (layer Edge.Cuts) (width 0.15))")).unwrap();
    for text in [
        "(gr_line (future_field 1) (start 1 2) (end 3 4) (layer Edge.Cuts) (width 0.15))",
        "(gr_line (start 1 2) (future_field 1) (end 3 4) (layer Edge.Cuts) (width 0.15))",
        "(gr_line (start 1 2) (end 3 4) (layer Edge.Cuts) (future_field 1) (width 0.15))",
        "(gr_line (start 1 2) (end 3 4) (layer Edge.Cuts) (width 0.15) (future_field 1))",
        "(gr_line (start 1 2) (end 3 4) (layer Edge.Cuts) (width 0.15) (future_field (a b) c) (other))",
    ] {
        assert_eq!(GrLine::from_sexp(&tree(text)).unwrap(), plain, "{}", text);
    }
}

#[test]
fn primitives_pass_over_children_of_unknown_names() {
    assert_eq!(
        GrText::from_sexp(&tree("(gr_text hi (colour red) (at 1 2))")).unwrap(),
        GrText::from_sexp(&tree("(gr_text hi (at 1 2))")).unwrap()
    );
    assert_eq!(
        GrArc::from_sexp(&tree("(gr_arc (angle 90) (colour red))")).unwrap(),
        GrArc::from_sexp(&tree("(gr_arc (angle 90))")).unwrap()
    );
    assert_eq!(
        GrCircle::from_sexp(&tree("(gr_circle (colour red) (center 1 1))")).unwrap(),
        GrCircle::from_sexp(&tree("(gr_circle (center 1 1))")).unwrap()
    );
    assert_eq!(
        Segment::from_sexp(&tree("(segment (net 3) (locked yes))")).unwrap(),
        Segment::from_sexp(&tree("(segment (net 3))")).unwrap()
    );
    assert_eq!(
        Via::from_sexp(&tree("(via (free) (size 0.6))")).unwrap(),
        Via::from_sexp(&tree("(via (size 0.6))")).unwrap()
    );
    let board = parse("(kicad_pcb (gr_line (start 1 2) (future_field 1)) (net 1 A))").unwrap();
    assert_eq!(board.elements.len(), 2);
}

#[test]
fn primitives_fail_on_what_is_no_named_list_and_on_known_fields_that_do_not_read() {
    assert_eq!(failure(GrLine::from_sexp(&tree("(gr_line (start 1 2) stray)"))), (ErrorKind::Type, "element".to_string()));
    assert_eq!(failure(GrLine::from_sexp(&tree("(gr_line ())"))), (ErrorKind::Structure, "element".to_string()));
    assert_eq!(failure(GrLine::from_sexp(&tree("(gr_line ((start) 1 2))"))), (ErrorKind::Type, "element".to_string()));
    assert_eq!(failure(Via::from_sexp(&tree("(via (colour red) (size wide))"))), (ErrorKind::Type, "size".to_string()));
    assert_eq!(failure(Segment::from_sexp(&tree("(segment (net))"))), (ErrorKind::MissingField, "net".to_string()));
    assert_eq!(
        failure(NetClass::from_sexp(&tree("(net_class a b (future_field 1))"))),
        (ErrorKind::UnknownField, "future_field".to_string())
    );
}

#[test]
fn arc_circle_text_segment_and_via_decode() {
    let arc = GrArc::from_sexp(&tree("(gr_arc (start 1 1) (end 2 2) (angle 90) (layer Edge.Cuts) (width 0.1))")).unwrap();
    assert_eq!((arc.angle.as_str(), arc.layer.name.as_str()), ("90", "Edge.Cuts"));
    let circle = GrCircle::from_sexp(&tree("(gr_circle (center 1 1) (end 2 2) (layer F.SilkS))")).unwrap();
    assert_eq!((circle.center.t, circle.end.x.as_str(), circle.width.as_str()), (XyType::Center, "2", "0"));
    let text = GrText::from_sexp(&tree("(gr_text hello (layer F.SilkS) (at 1 2 90) (effects (font (size 1 1))))")).unwrap();
    assert_eq!(text.value, "hello");
    assert_eq!((text.at.x.as_str(), text.at.rot.as_ref().unwrap().as_str()), ("1", "90"));
    assert_eq!(text.effects.fields, vec![tree("(font (size 1 1))")]);
    let text = GrText::from_sexp(&tree("(gr_text hello)")).unwrap();
    assert_eq!((text.at.x.as_str(), text.at.y.as_str(), text.at.rot.is_none()), ("0", "0", true));
    assert!(text.effects.fields.is_empty());
    assert_eq!(failure(GrText::from_sexp(&tree("(gr_text)"))), (ErrorKind::MissingField, "value".to_string()));
    let seg = Segment::from_sexp(&tree("(segment (start 1 1) (end 2 2) (width 0.25) (layer F.Cu) (net 3) (status 400))")).unwrap();
    assert_eq!((seg.net.value(), seg.status.as_deref(), seg.tstamp.is_none()), (3, Some("400"), true));
    let seg = Segment::from_sexp(&tree("(segment)")).unwrap();
    assert_eq!((seg.net.value(), seg.width.as_str()), (0, "0"));
    let via = Via::from_sexp(&tree("(via (at 1 2) (size 0.6) (drill 0.3) (layers F.Cu B.Cu) (net 2))")).unwrap();
    assert_eq!((via.size.as_str(), via.drill.as_str(), via.net.value()), ("0.6", "0.3", 2));
    assert_eq!(via.layers.layers.iter().map(|l| l.name.as_str()).collect::<Vec<_>>(), vec!["F.Cu", "B.Cu"]);
    let via = Via::from_sexp(&tree("(via)")).unwrap();
    assert!(via.layers.layers.is_empty());
}

#[test]
fn points_and_positions_decode() {
    assert_eq!(Xy::from_sexp(&tree("(rect_delta 1 2)")).unwrap().t, XyType::RectDelta);
    assert_eq!(Xy::from_sexp(&tree("(size 1 2)")).unwrap().t, XyType::Size);
    assert_eq!(Xy::from_sexp(&tree("(xy 1 2)")).unwrap().t, XyType::Xy);
    assert_eq!(failure(Xy::from_sexp(&tree("(xyz 1 2)"))), (ErrorKind::UnknownField, "xyz".to_string()));
    assert_eq!(failure(Xy::from_sexp(&tree("(xy 1)"))), (ErrorKind::MissingField, "y".to_string()));
    assert_eq!(Pts::from_sexp(&tree("(pts (xy 1 2) (xy 3 4))")).unwrap().elements.len(), 2);
    assert_eq!(failure(Pts::from_sexp(&tree("(pts (xy 1 2) (xy 3))"))), (ErrorKind::MissingField, "y".to_string()));
    assert_eq!(failure(At::from_sexp(&tree("(at 1 2 3 4)"))), (ErrorKind::Structure, "at".to_string()));
    assert_eq!(failure(Layers::from_sexp(&tree("(layers F.Cu (B.Cu))"))), (ErrorKind::Type, "layers".to_string()));
    assert_eq!(outline_from_sexp(&tree("(polygon (pts (xy 1 2)))"), "polygon").unwrap().elements.len(), 1);
    assert_eq!(failure(outline_from_sexp(&tree("(polygon)"), "polygon")), (ErrorKind::MissingField, "pts".to_string()));
}

#[test]
fn hatch_and_connect_pads_decode() {
    let h = Hatch::from_sexp(&tree("(hatch edge 0.508)")).unwrap();
    assert_eq!((h.style.as_str(), h.pitch.as_str()), ("edge", "0.508"));
    assert_eq!(failure(Hatch::from_sexp(&tree("(hatch edge)"))), (ErrorKind::Structure, "hatch".to_string()));
    let c = ConnectPads::from_sexp(&tree("(connect_pads (clearance 0.2))")).unwrap();
    assert_eq!((c.connection, c.clearance.as_str()), (None, "0.2"));
    let c = ConnectPads::from_sexp(&tree("(connect_pads thru_hole_only (clearance 0.3))")).unwrap();
    assert_eq!((c.connection.as_deref(), c.clearance.as_str()), (Some("thru_hole_only"), "0.3"));
    assert_eq!(
        failure(ConnectPads::from_sexp(&tree("(connect_pads yes no (clearance 0.3))"))),
        (ErrorKind::Structure, "connect_pads".to_string())
    );
    assert_eq!(failure(ConnectPads::from_sexp(&tree("(connect_pads)"))), (ErrorKind::Structure, "connect_pads".to_string()));
}

#[test]
fn keepout_negation_forbids() {
    let k = Keepout::from_sexp(&tree("(keepout (tracks not_allowed) (vias allowed) (copperpour not_allowed))")).unwrap();
    assert_eq!(k, Keepout { tracks: false, vias: true, copperpour: false });
    let k = Keepout::from_sexp(&tree("(keepout (tracks allowed) (vias not_allowed) (copperpour allowed))")).unwrap();
    assert_eq!(k, Keepout { tracks: true, vias: false, copperpour: true });
    let k = Keepout::from_sexp(&tree("(keepout (tracks nothing) (vias no) (copperpour \"\"))")).unwrap();
    assert_eq!(k, Keepout { tracks: false, vias: true, copperpour: true });
    assert_eq!(
        failure(Keepout::from_sexp(&tree("(keepout (tracks allowed) (vias allowed))"))),
        (ErrorKind::Structure, "keepout".to_string())
    );
}

#[test]
fn fill_takes_its_optional_fields_where_they_stand() {
    let f = Fill::from_sexp(&tree("(fill yes (arc_segments 16) (thermal_gap 0.5) (thermal_bridge_width 0.6))")).unwrap();
    assert_eq!((f.filled, f.segment, f.arc_segments.value()), (true, false, 16));
    assert_eq!((f.thermal_gap.as_str(), f.thermal_bridge_width.as_str(), f.corner_radius.as_str()), ("0.5", "0.6", "0"));
    assert!(f.smoothing.is_none());
    let f = Fill::from_sexp(&tree(
        "(fill (mode segment) (arc_segments 32) (thermal_gap 0.5) (thermal_bridge_width 0.6) (smoothing chamfer) (radius 0.2))",
    ))
    .unwrap();
    assert_eq!((f.filled, f.segment, f.arc_segments.value()), (false, true, 32));
    assert_eq!((f.smoothing.as_deref(), f.corner_radius.as_str()), (Some("chamfer"), "0.2"));
    let f = Fill::from_sexp(&tree("(fill (arc_segments 16) (thermal_gap 0.5) (thermal_bridge_width 0.6) (radius 0.1))")).unwrap();
    assert_eq!((f.filled, f.smoothing.is_none(), f.corner_radius.as_str()), (false, true, "0.1"));
    assert_eq!(
        failure(Fill::from_sexp(&tree("(fill yes (thermal_gap 0.5))"))),
        (ErrorKind::Structure, "arc_segments".to_string())
    );
}

#[test]
fn dimension_without_a_timestamp_decodes() {
    let d = Dimension::from_sexp(&tree(&dimension(""))).unwrap();
    assert_eq!((d.name.as_str(), d.width.as_str(), d.layer.name.as_str()), ("10", "0.3", "Dwgs.User"));
    assert!(d.tstamp.is_none());
    assert_eq!(d.text.value, "10 mm");
    assert_eq!(d.feature1.elements.len(), 2);
    assert_eq!(d.feature2.elements[0].x.as_str(), "10");
    assert_eq!(d.crossbar.elements[1].y.as_str(), "1");
    assert_eq!(d.arrow1a.elements[0].x.as_str(), "1");
    assert_eq!(d.arrow1b.elements[0].x.as_str(), "2");
    assert_eq!(d.arrow2a.elements[0].x.as_str(), "3");
    assert_eq!(d.arrow2b.elements[0].x.as_str(), "4");
}

#[test]
fn dimension_with_a_timestamp_decodes_one_place_later() {
    let plain = Dimension::from_sexp(&tree(&dimension(""))).unwrap();
    let stamped = Dimension::from_sexp(&tree(&dimension(" (tstamp 5A0B)"))).unwrap();
    assert_eq!(stamped.tstamp, Some("5A0B".to_string()));
    assert_eq!(Dimension { tstamp: None, ..stamped }, plain);
}

#[test]
fn dimension_with_a_wrong_number_of_children_fails() {
    let short = dimension("").replace(" (arrow2b (pts (xy 4 4)))", "");
    assert_eq!(failure(Dimension::from_sexp(&tree(&short))), (ErrorKind::Structure, "dimension".to_string()));
    let long = dimension("").replace("(arrow2b", "(arrow2b (pts)) (arrow2b");
    assert_eq!(failure(Dimension::from_sexp(&tree(&long))), (ErrorKind::Structure, "dimension".to_string()));
    let swapped = dimension("").replace("feature1", "feature3");
    assert_eq!(failure(Dimension::from_sexp(&tree(&swapped))), (ErrorKind::Structure, "feature1".to_string()));
}

#[test]
fn zone_sorts_its_children() {
    let z = Zone::from_sexp(&tree(
        "(zone (net 1) (net_name GND) (layer F.Cu) (tstamp 5A) (hatch edge 0.508) \
         (connect_pads (clearance 0.2)) (min_thickness 0.25) \
         (fill yes (arc_segments 16) (thermal_gap 0.5) (thermal_bridge_width 0.5)) \
         (polygon (pts (xy 0 0) (xy 1 0) (xy 1 1))) \
         (filled_polygon (pts (xy 0 0) (xy 1 0))) \
         (mystery 1 2 3))",
    ))
    .unwrap();
    assert_eq!(z.net.value(), 1);
    assert_eq!(z.net_name, "GND");
    assert_eq!(z.tstamp, "5A");
    assert_eq!(z.priority.value(), 0);
    assert!(z.keepout.is_none());
    assert!(z.fill.filled);
    assert_eq!(z.polygons.len(), 1);
    assert_eq!(z.polygons[0].elements.len(), 3);
    assert_eq!(z.filled_polygons.len(), 1);
    assert_eq!(z.filled_polygons[0].elements.len(), 2);
    assert!(z.fill_segments.is_none());
    assert_eq!(z.other, vec![tree("(mystery 1 2 3)")]);
}

#[test]
fn zone_takes_priority_keepout_and_segments() {
    let z = Zone::from_sexp(&tree(
        "(zone (net 0) (net_name \"\") (layer B.Cu) (tstamp 0) (hatch full 0.5) (priority 2) \
         (connect_pads no (clearance 0.1)) (min_thickness 0.2) \
         (keepout (tracks not_allowed) (vias not_allowed) (copperpour allowed)) \
         (fill (arc_segments 16) (thermal_gap 0.5) (thermal_bridge_width 0.5)) \
         (fill_segments (pts (xy 1 1))) (polygon broken) stray (fill_segments (pts (xy 2 2) (xy 3 3))))",
    ))
    .unwrap();
    assert_eq!(z.priority.value(), 2);
    assert_eq!(z.keepout, Some(Keepout { tracks: false, vias: false, copperpour: true }));
    assert_eq!(z.connect_pads.connection.as_deref(), Some("no"));
    assert_eq!(z.fill_segments.unwrap().elements.len(), 2);
    assert!(z.polygons.is_empty());
    assert_eq!(z.other, vec![tree("(polygon broken)"), tree("stray")]);
}

#[test]
fn zone_without_a_fill_fails() {
    assert_eq!(
        failure(Zone::from_sexp(&tree(
            "(zone (net 1) (net_name GND) (layer F.Cu) (tstamp 5A) (hatch edge 0.508) (connect_pads (clearance 0.2)) (min_thickness 0.25))"
        ))),
        (ErrorKind::MissingField, "fill".to_string())
    );
    assert_eq!(
        failure(Zone::from_sexp(&tree("(zone (net 1) (layer F.Cu))"))),
        (ErrorKind::Structure, "net_name".to_string())
    );
}

#[test]
fn board_keeps_unknown_elements() {
    let board = parse("(kicad_pcb (version 4) (host pcbnew 4.0.7) (page A4) (net 0 \"\") (frobnicate (a b) c))").unwrap();
    assert_eq!(board.version.value(), 4);
    assert_eq!(board.host.tool, "pcbnew");
    assert_eq!(board.page, "A4");
    assert_eq!(board.elements.len(), 2);
    assert_eq!(board.elements[1], Element::Other(tree("(frobnicate (a b) c)")));
    assert_eq!(board.elements[1].into_sexp(), tree("(frobnicate (a b) c)"));
    assert_eq!(parse_other(&tree("(x y)")), Element::Other(tree("(x y)")));
}

#[test]
fn board_keeps_its_elements_in_order() {
    let board = parse(
        "(kicad_pcb (via (at 0 0)) (net 1 A) (module M (layer F.Cu)) (gr_circle (center 0 0)) (net 2 B) (gr_arc (angle 1)) \
         (gr_text t) (segment (net 1)) (net_class c d) (gr_line (width 1)))",
    )
    .unwrap();
    let kinds: Vec<&str> = board
        .elements
        .iter()
        .map(|e| match e {
            Element::Module(_) => "module",
            Element::Net(_) => "net",
            Element::NetClass(_) => "net_class",
            Element::GrText(_) => "gr_text",
            Element::GrLine(_) => "gr_line",
            Element::GrArc(_) => "gr_arc",
            Element::GrCircle(_) => "gr_circle",
            Element::Dimension(_) => "dimension",
            Element::Zone(_) => "zone",
            Element::Segment(_) => "segment",
            Element::Via(_) => "via",
            Element::Other(_) => "other",
        })
        .collect();
    assert_eq!(kinds, vec!["via", "net", "module", "gr_circle", "net", "gr_arc", "gr_text", "segment", "net_class", "gr_line"]);
    match &board.elements[2] {
        Element::Module(m) => assert_eq!(m.fields, vec![tree("M"), tree("(layer F.Cu)")]),
        other => panic!("unexpected {:?}", other),
    }
}

#[test]
fn board_without_children_is_the_bare_board() {
    let board = parse("(kicad_pcb)").unwrap();
    assert_eq!(board, Layout::bare().unwrap());
    assert_eq!(board.version.value(), 0);
    assert_eq!(board.general.thickness.as_str(), "0");
    assert!(board.layers.is_empty() && board.elements.is_empty() && board.setup.elements.is_empty());
}

#[test]
fn board_with_a_broken_element_fails() {
    match parse("(kicad_pcb (net 0 \"\") (net x y) (net 1 A))") {
        Err(KicadError::Decode(e)) => assert_eq!((e.kind, e.field.as_str()), (ErrorKind::Type, "num")),
        other => panic!("unexpected {:?}", other),
    }
    match parse("(kicad_pcb stray)") {
        Err(KicadError::Decode(e)) => assert_eq!(e.kind, ErrorKind::Type),
        other => panic!("unexpected {:?}", other),
    }
    match parse("(kicad_mod (net 0 \"\"))") {
        Err(KicadError::Decode(e)) => assert_eq!((e.kind, e.field.as_str()), (ErrorKind::Structure, "kicad_pcb")),
        other => panic!("unexpected {:?}", other),
    }
}

#[test]
fn text_that_is_no_expression_is_a_parse_error() {
    assert!(matches!(parse("(kicad_pcb"), Err(KicadError::Parse(_))));
    assert!(matches!(parse(")"), Err(KicadError::Parse(_))));
}
