use kicad_codec::codec::{FromSexp, IntoSexp};
use kicad_codec::formatter::KicadFormatter;
use kicad_codec::layout::data::{Element, Layout, NetClass};
use kicad_codec::tree::Node;
use std::io;
use symbolic_expressions::{Sexp, SexpError};

fn node_of(s: &Sexp) -> Node {
    match s {
        Sexp::String(t) => Node::Atom(t.clone()),
        Sexp::List(l) => Node::List(l.iter().map(node_of).collect()),
        Sexp::Empty => Node::Empty,
    }
}

fn sexp_of(n: &Node) -> Sexp {
    match n {
        Node::Atom(t) => Sexp::String(t.clone()),
        Node::List(l) => Sexp::List(l.iter().map(sexp_of).collect()),
        Node::Empty => Sexp::Empty,
    }
}

struct Printer(KicadFormatter);

impl symbolic_expressions::Formatter for Printer {
    fn open<W: io::Write>(&mut self, writer: &mut W, value: Option<&Sexp>) -> Result<(), SexpError> {
        let first = value.map(node_of);
        writer.write_all(&self.0.open(first.as_ref())).map_err(From::from)
    }

    fn element<W: io::Write>(&mut self, writer: &mut W, value: &Sexp) -> Result<(), SexpError> {
        writer.write_all(&self.0.element(&node_of(value))).map_err(From::from)
    }

    fn close<W: io::Write>(&mut self, writer: &mut W) -> Result<(), SexpError> {
        writer.write_all(&self.0.close()).map_err(From::from)
    }
}

fn write(tree: &Sexp) -> String {
    symbolic_expressions::ser::to_string_with_formatter(tree, Printer(KicadFormatter::new(0))).unwrap()
}

fn read(text: &str) -> Sexp {
    symbolic_expressions::parser::parse_str(text).unwrap()
}

/// The text, read into a tree and written out again.
fn rewrite(text: &str) -> String {
    write(&read(text))
}

/// The text, decoded into a board, encoded and written out again.
fn rewrite_board(text: &str) -> String {
    let board = Layout::from_sexp(&node_of(&read(text))).unwrap();
    write(&sexp_of(&board.into_sexp()))
}

fn points(n: usize) -> String {
    (0..n).map(|i| format!("(xy {} 0)", i)).collect::<Vec<_>>().join(" ")
}

const HEADER: &str = "(kicad_pcb (version 4) (host pcbnew 4.0.7)

  (general
    (links 1)
    (no_connects 0)
    (area 0 0 10 10)
    (thickness 1.6)
    (drawings 4)
    (tracks 2)
    (zones 0)
    (modules 1)
    (nets 2)
  )

  (page A4)
  (layers
    (0 F.Cu signal)
    (31 B.Cu signal)
    (40 Dwgs.User user hide)
  )

  (setup
    (last_trace_width 0.25)
    (pad_size 1.5 1.5)
    (pcbplotparams
      (layerselection 0x00030_80000001)
      (usegerberextensions false))
  )
";

const MODULE: &str = "(module R_0603 (layer F.Cu) (tedit 5A0B)
  (descr \"a resistor\")
  (at 1 2)
  (fp_text reference R1 (at 0 -1.5) (layer F.SilkS)
    (effects (font (size 1 1) (thickness 0.15)))
  )
  (fp_line (start -1 1) (end 1 1) (layer F.SilkS) (width 0.12))
  (pad 1 smd rect (at -0.8 0) (size 0.8 0.9) (layers F.Cu F.Paste F.Mask)
    (net 1 GND))
  (model Resistors.3dshapes/R_0603.wrl
    (at (xyz 0 0 0))
    (scale (xyz 1 1 1))
    (rotate (xyz 0 0 0))
  )
)
";

#[test]
fn header_of_a_board_is_reproduced() {
    let text = format!("{}\n)\n", HEADER);
    assert_eq!(rewrite(&text), text);
}

#[test]
fn footprint_is_reproduced() {
    assert_eq!(rewrite(MODULE), MODULE);
}

#[test]
fn text_written_on_one_line_is_laid_out() {
    let flat = "(kicad_pcb (version 4) (host pcbnew 4.0.7) (page A4) (net 0 \"\") (net 1 GND))";
    assert_eq!(rewrite(flat), "(kicad_pcb (version 4) (host pcbnew 4.0.7)\n\n  (page A4)\n  (net 0 \"\")\n  (net 1 GND)\n)\n");
}

#[test]
fn outline_of_nine_points_breaks_before_the_first_fifth_and_ninth() {
    let text = format!("(kicad_pcb (zone (polygon (pts {}))))", points(9));
    let expected = "(kicad_pcb\n\n  (zone\n    (polygon\n      (pts\n        (xy 0 0) (xy 1 0) (xy 2 0) (xy 3 0)\n        (xy 4 0) (xy 5 0) (xy 6 0) (xy 7 0)\n        (xy 8 0))\n    )\n  )\n)\n";
    assert_eq!(rewrite(&text), expected);
}

#[test]
fn outline_breaks_in_groups_of_four_whatever_its_length() {
    for n in 0..23 {
        let text = format!("(kicad_pcb (zone (filled_polygon (pts {}))))", points(n));
        let out = rewrite(&text);
        for i in 0..n {
            let point = format!("(xy {} 0)", i);
            let at = out.find(&point).unwrap();
            let before = &out[..at];
            if i % 4 == 0 {
                assert!(before.ends_with("\n        "), "point {} of {} starts no line", i + 1, n);
            } else {
                assert!(before.ends_with(") "), "point {} of {} starts a line", i + 1, n);
            }
        }
    }
}

#[test]
fn point_list_outside_an_outline_starts_on_the_line_of_its_name() {
    let text = format!("(module M (fp_poly (pts {})))", points(6));
    let expected = "(module M\n  (fp_poly (pts (xy 0 0) (xy 1 0) (xy 2 0) (xy 3 0)\n    (xy 4 0) (xy 5 0)))\n)\n";
    assert_eq!(rewrite(&text), expected);
}

#[test]
fn list_without_a_name_is_written_inline() {
    assert_eq!(rewrite("(kicad_pcb (general () ((a) b)))"), "(kicad_pcb\n\n  (general () ((a) b)\n  )\n)\n");
    assert_eq!(rewrite("()"), "()");
    assert_eq!(rewrite("(a (b c) d)"), "(a (b c) d)");
}

#[test]
fn board_is_reproduced_through_the_typed_model() {
    let text = format!(
        "{}
  (net 0 \"\")
  (net 1 GND)

  (net_class Default \"This is the default net class.\"
    (clearance 0.2)
    (trace_width 0.25)
    (via_dia 0.6)
    (via_drill 0.4)
    (uvia_dia 0.3)
    (uvia_drill 0.1)
    (add_net GND)
  )
  (gr_line (start 0 0) (end 10 0) (angle 90) (layer Edge.Cuts) (width 0.15))
  (gr_text hello (at 5 5) (layer F.SilkS)
    (effects (font (size 1.5 1.5) (thickness 0.3)))
  )
  (segment (start 1 1) (end 2 2) (width 0.25) (layer F.Cu) (net 1))
  (via (at 2 2) (size 0.6) (drill 0.4) (layers F.Cu B.Cu) (net 1))

  (zone (net 1) (net_name GND) (layer F.Cu) (tstamp 5A0B1C2D) (hatch edge 0.508) (priority 0)
    (connect_pads (clearance 0.2))
    (min_thickness 0.25)
    (fill yes (arc_segments 16) (thermal_gap 0.5) (thermal_bridge_width 0.5) (radius 0))
    (polygon
      (pts
        (xy 0 0) (xy 1 0) (xy 2 0) (xy 3 0)
        (xy 4 0))
    )
  )
)
",
        HEADER
    );
    let out = rewrite_board(&text);
    assert_eq!(out, text);
    let first = Layout::from_sexp(&node_of(&read(&text))).unwrap();
    let second = Layout::from_sexp(&node_of(&read(&out))).unwrap();
    assert_eq!(first, second);
}

#[test]
fn board_that_leaves_fields_out_is_the_same_board_when_read_again() {
    let text = "(kicad_pcb (gr_line (start 0 0) (end 1 1)) (via (at 1 1)) (net_class c d) \
                (zone (net 1) (net_name GND) (layer F.Cu) (tstamp 0) (hatch edge 0.5) \
                (connect_pads yes (clearance 0.2)) (min_thickness 0.2) (keepout (tracks not_allowed) (vias allowed) (copperpour allowed)) \
                (fill (mode segment) (arc_segments 16) (thermal_gap 0.5) (thermal_bridge_width 0.5) (smoothing fillet)) \
                (fill_segments (pts (xy 0 0))) (odd one) (filled_polygon (pts (xy 1 1))) (polygon (pts))))";
    let first = Layout::from_sexp(&node_of(&read(text))).unwrap();
    let second = Layout::from_sexp(&node_of(&read(&rewrite_board(text)))).unwrap();
    assert_eq!(first, second);
}

#[test]
fn element_of_an_unknown_name_is_reproduced() {
    let text = "(kicad_pcb (version 4) (host pcbnew 4.0.7) (page A4) (title_block (title \"a board\") (comment 1 first)))";
    let board = Layout::from_sexp(&node_of(&read(text))).unwrap();
    assert_eq!(board.elements.len(), 1);
    assert!(matches!(board.elements[0], Element::Other(_)));
    assert_eq!(write(&sexp_of(&board.elements[0].into_sexp())), "(title_block (title \"a board\") (comment 1 first))");
    assert!(rewrite_board(text).ends_with(" (title_block (title \"a board\") (comment 1 first))\n)\n"));
}

#[test]
fn net_class_writes_the_default_it_was_given() {
    let nc = NetClass::from_sexp(&node_of(&read("(net_class Power \"\" (clearance 0.3) (add_net VCC))"))).unwrap();
    assert_eq!(nc.via_dia.as_str(), "0.675");
    let out = write(&sexp_of(&nc.into_sexp()));
    assert_eq!(
        out,
        "(net_class Power \"\" (clearance 0.3) (trace_width 0.2032) (via_dia 0.675) (via_drill 0.25) (uvia_dia 0.508) (uvia_drill 0.127) (add_net VCC))"
    );
}
