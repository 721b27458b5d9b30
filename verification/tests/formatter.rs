use kicad_codec::formatter::{layout_directive, module_directive, Indent, KicadFormatter};
use kicad_codec::tree::Node;

fn atom(s: &str) -> Node {
    Node::Atom(s.to_string())
}

fn list(items: Vec<Node>) -> Node {
    Node::List(items)
}

fn opened(names: &[&str]) -> KicadFormatter {
    let mut f = KicadFormatter::new(0);
    for n in names {
        f.open(Some(&atom(n)));
    }
    f
}

const LINE: Indent = Indent { newline_before: 1, closing_on_new_line: false, newline_after: 0 };
const BLOCK: Indent = Indent { newline_before: 1, closing_on_new_line: true, newline_after: 0 };
const SPACED: Indent = Indent { newline_before: 2, closing_on_new_line: false, newline_after: 0 };
const SPACED_BLOCK: Indent = Indent { newline_before: 2, closing_on_new_line: true, newline_after: 0 };
const CLOSED_BLOCK: Indent = Indent { newline_before: 2, closing_on_new_line: true, newline_after: 1 };

#[test]
fn directive_is_built_step_by_step() {
    let mut d = Indent::default();
    assert_eq!(d, Indent { newline_before: 0, closing_on_new_line: false, newline_after: 0 });
    d.before();
    assert_eq!(d, LINE);
    d.close_on_new_line();
    assert_eq!(d, BLOCK);
    d.before_double();
    assert_eq!(d, SPACED_BLOCK);
    d.newline_after_closing();
    assert_eq!(d, CLOSED_BLOCK);
}

#[test]
fn root_opens_inline() {
    let mut f = KicadFormatter::new(0);
    assert_eq!(f.open(Some(&atom("kicad_pcb"))), b"(".to_vec());
    assert_eq!(f.depth(), 0);
    assert_eq!(f.open(Some(&atom("general"))), b"\n\n  (".to_vec());
    assert_eq!(f.depth(), 1);
    assert_eq!(f.open(Some(&atom("links"))), b"\n    (".to_vec());
    assert_eq!(f.depth(), 2);
    assert_eq!(f.close(), b")".to_vec());
    assert_eq!(f.close(), b"\n  )".to_vec());
    assert_eq!(f.depth(), 0);
    assert_eq!(f.close(), b"\n)\n".to_vec());
    assert_eq!(f.close(), b")".to_vec());
}

#[test]
fn footprint_rules_go_by_the_parent() {
    for ele in ["at", "descr", "fp_line", "fp_poly", "pad", "path", "fp_circle"] {
        assert_eq!(module_directive(ele, Some("module"), false, 0), Some(LINE), "{}", ele);
    }
    assert_eq!(module_directive("model", Some("module"), false, 0), Some(BLOCK));
    assert_eq!(module_directive("fp_text", Some("module"), false, 0), Some(BLOCK));
    assert_eq!(module_directive("layer", Some("module"), false, 0), None);
    assert_eq!(module_directive("effects", Some("fp_text"), false, 0), Some(LINE));
    assert_eq!(module_directive("effects", Some("gr_text"), false, 0), Some(LINE));
    assert_eq!(module_directive("effects", Some("module"), false, 0), None);
    for ele in ["at", "scale", "rotate"] {
        assert_eq!(module_directive(ele, Some("model"), false, 0), Some(LINE), "{}", ele);
    }
    assert_eq!(module_directive("net", Some("pad"), false, 0), Some(LINE));
    assert_eq!(module_directive("at", Some("pad"), false, 0), None);
    assert_eq!(module_directive("at", None, false, 0), None);
}

#[test]
fn point_rule_goes_by_the_count() {
    assert_eq!(module_directive("xy", Some("pts"), true, 0), Some(LINE));
    assert_eq!(module_directive("xy", Some("pts"), false, 0), None);
    for count in 1..4 {
        assert_eq!(module_directive("xy", Some("pts"), true, count), None);
    }
    assert_eq!(module_directive("xy", Some("pts"), false, 4), Some(LINE));
    assert_eq!(module_directive("xy", Some("pts"), true, 8), Some(LINE));
    assert_eq!(module_directive("xy", Some("pts"), true, -4), None);
    assert_eq!(module_directive("xy", Some("polygon"), true, 0), None);
    assert_eq!(module_directive("pts", Some("pts"), true, 0), None);
}

#[test]
fn board_rules_go_by_the_parent() {
    assert_eq!(layout_directive("page", Some("kicad_pcb"), true), Some(SPACED));
    assert_eq!(layout_directive("gr_circle", Some("kicad_pcb"), true), Some(SPACED));
    assert_eq!(layout_directive("module", Some("kicad_pcb"), true), Some(SPACED_BLOCK));
    for ele in ["net", "gr_line", "gr_arc", "segment", "via"] {
        assert_eq!(layout_directive(ele, Some("kicad_pcb"), true), Some(LINE), "{}", ele);
    }
    for ele in ["layers", "gr_text", "dimension"] {
        assert_eq!(layout_directive(ele, Some("kicad_pcb"), true), Some(BLOCK), "{}", ele);
    }
    assert_eq!(layout_directive("setup", Some("kicad_pcb"), true), Some(CLOSED_BLOCK));
    for ele in ["general", "net_class", "zone"] {
        assert_eq!(layout_directive(ele, Some("kicad_pcb"), true), Some(SPACED_BLOCK), "{}", ele);
    }
    assert_eq!(layout_directive("version", Some("kicad_pcb"), true), None);
    for parent in ["general", "layers", "setup", "pcbplotparams", "net_class", "polygon", "filled_polygon"] {
        assert_eq!(layout_directive("anything", Some(parent), true), Some(LINE), "{}", parent);
    }
    for ele in ["gr_text", "feature1", "feature2", "crossbar", "arrow1a", "arrow1b", "arrow2a", "arrow2b"] {
        assert_eq!(layout_directive(ele, Some("dimension"), true), Some(LINE), "{}", ele);
    }
    assert_eq!(layout_directive("width", Some("dimension"), true), None);
    for ele in ["connect_pads", "min_thickness", "fill"] {
        assert_eq!(layout_directive(ele, Some("zone"), true), Some(LINE), "{}", ele);
    }
    assert_eq!(layout_directive("polygon", Some("zone"), true), Some(BLOCK));
    assert_eq!(layout_directive("filled_polygon", Some("zone"), true), Some(BLOCK));
    assert_eq!(layout_directive("hatch", Some("zone"), true), None);
    assert_eq!(layout_directive("general", Some("kicad_pcb"), false), None);
    assert_eq!(layout_directive("links", Some("general"), false), None);
    assert_eq!(layout_directive("general", None, true), None);
}

#[test]
fn open_lists_are_remembered() {
    let f = opened(&["kicad_pcb", "zone", "polygon", "pts"]);
    assert!(f.is("kicad_pcb") && f.is("zone") && f.is("polygon") && f.is("pts"));
    assert!(!f.is("filled_polygon") && !f.is(""));
    assert!(f.parent_is("pts"));
    assert!(!f.parent_is("polygon"));
    assert!(!KicadFormatter::new(0).parent_is("pts"));
    assert_eq!(f.depth(), 3);
    assert_eq!(f.want_indent_module("xy"), Some(LINE));
    assert_eq!(f.want_indent_layout("xy"), None);
    assert_eq!(f.want_indent(&list(vec![atom("xy"), atom("1"), atom("2")])), Some(LINE));
    assert_eq!(f.want_indent(&list(vec![])), None);
    assert_eq!(f.want_indent(&list(vec![list(vec![atom("xy")])])), None);
    assert_eq!(f.want_indent(&Node::Empty), None);
    let f = opened(&["kicad_pcb", "general"]);
    assert_eq!(f.want_indent_layout("links"), Some(LINE));
    assert_eq!(f.want_indent_module("links"), None);
    assert_eq!(f.want_indent(&atom("links")), Some(LINE));
}

#[test]
fn space_goes_before_what_starts_no_line() {
    let f = opened(&["kicad_pcb", "general"]);
    assert_eq!(f.element(&list(vec![atom("links"), atom("1")])), b"".to_vec());
    assert_eq!(f.element(&atom("links")), b" ".to_vec());
    assert_eq!(f.element(&list(vec![])), b" ".to_vec());
    assert_eq!(f.element(&Node::Empty), b" ".to_vec());
    let f = opened(&["kicad_pcb"]);
    assert_eq!(f.element(&list(vec![atom("version"), atom("4")])), b" ".to_vec());
    assert_eq!(f.element(&list(vec![atom("page"), atom("A4")])), b"".to_vec());
}

#[test]
fn points_are_counted_in_groups_of_four() {
    let mut f = opened(&["kicad_pcb", "zone", "polygon"]);
    assert_eq!(f.open(Some(&atom("pts"))), b"\n      (".to_vec());
    let mut broken = vec![];
    for i in 0..10 {
        let out = f.open(Some(&atom("xy")));
        if out != b"(".to_vec() {
            assert_eq!(out, b"\n        (".to_vec());
            broken.push(i + 1);
        }
        assert_eq!(f.element(&atom("1")), b" ".to_vec());
        assert_eq!(f.close(), b")".to_vec());
        assert_eq!(f.depth(), 3);
    }
    assert_eq!(broken, vec![1, 5, 9]);
    assert_eq!(f.close(), b")".to_vec());
    assert_eq!(f.open(Some(&atom("pts"))), b"\n      (".to_vec());
    assert_eq!(f.open(Some(&atom("xy"))), b"\n        (".to_vec());
}

#[test]
fn setup_is_followed_by_a_line_break() {
    let mut f = opened(&["kicad_pcb"]);
    assert_eq!(f.open(Some(&atom("setup"))), b"\n\n  (".to_vec());
    assert_eq!(f.close(), b"\n  )\n".to_vec());
}

#[test]
fn roots_close_on_a_line_of_their_own() {
    for root in ["kicad_pcb", "module"] {
        let mut f = KicadFormatter::new(0);
        assert_eq!(f.open(Some(&atom(root))), b"(".to_vec());
        assert_eq!(f.close(), b"\n)\n".to_vec());
    }
    let mut f = KicadFormatter::new(0);
    f.open(Some(&atom("fp_lib_table")));
    assert_eq!(f.close(), b")".to_vec());
    let mut f = opened(&["kicad_pcb"]);
    assert_eq!(f.open(Some(&atom("module"))), b"\n\n  (".to_vec());
    assert_eq!(f.close(), b"\n  )".to_vec());
}

#[test]
fn list_without_a_name_has_no_directive() {
    let mut f = opened(&["kicad_pcb", "general"]);
    assert_eq!(f.open(None), b"(".to_vec());
    assert_eq!(f.depth(), 1);
    assert!(!f.parent_is("general"));
    assert_eq!(f.open(Some(&atom("links"))), b"(".to_vec());
    assert_eq!(f.close(), b")".to_vec());
    assert_eq!(f.close(), b")".to_vec());
    assert_eq!(f.open(Some(&list(vec![atom("links")]))), b"(".to_vec());
    assert_eq!(f.close(), b")".to_vec());
    assert_eq!(f.open(Some(&atom(""))), b"(".to_vec());
    assert_eq!(f.close(), b")".to_vec());
    assert_eq!(f.depth(), 1);
    assert!(f.parent_is("general"));
}

#[test]
fn indentation_starts_at_the_given_depth() {
    let mut f = KicadFormatter::new(2);
    f.open(Some(&atom("kicad_pcb")));
    assert_eq!(f.open(Some(&atom("net"))), b"\n      (".to_vec());
    assert_eq!(f.depth(), 3);
    let mut f = KicadFormatter::new(-3);
    f.open(Some(&atom("kicad_pcb")));
    assert_eq!(f.open(Some(&atom("layers"))), b"\n(".to_vec());
    assert_eq!(f.depth(), -2);
    assert_eq!(f.close(), b"\n)".to_vec());
    assert_eq!(f.depth(), -3);
    let mut f = KicadFormatter::new(i64::MIN);
    f.open(Some(&atom("kicad_pcb")));
    assert_eq!(f.open(Some(&atom("net"))), b"\n(".to_vec());
    assert_eq!(f.depth(), i64::MIN as i128 + 1);
    let mut f = KicadFormatter::new(i64::MAX);
    assert_eq!(f.open(Some(&atom("kicad_pcb"))), b"(".to_vec());
    assert_eq!(f.open(Some(&atom("version"))), b"(".to_vec());
    assert_eq!(f.depth(), i64::MAX as i128);
}
