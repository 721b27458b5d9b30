use kicad_codec::codec::parse_node;
use kicad_codec::cursor::{decimal_of, field, int_of, list_of, list_of_len, text_of, value_of};
use kicad_codec::decimal::Decimal;
use kicad_codec::error::{DecodeError, ErrorKind};
use kicad_codec::integer::Integer;
use kicad_codec::text::{has_prefix, str_eq};
use kicad_codec::tree::{duplicate_all, Node};

fn atom(s: &str) -> Node {
    Node::Atom(s.to_string())
}

#[test]
fn text_is_read_into_a_tree() {
    assert_eq!(
        parse_node("(a \"b c\" (d) ())").unwrap(),
        Node::List(vec![atom("a"), atom("b c"), Node::List(vec![atom("d")]), Node::List(vec![])])
    );
    assert_eq!(parse_node("word").unwrap(), atom("word"));
    assert_eq!(parse_node("").unwrap(), Node::Empty);
    assert!(parse_node("(a").is_err());
}

#[test]
fn integer_keeps_its_token_and_reads_its_value() {
    let i = Integer::parse("42").unwrap();
    assert_eq!((i.value(), i.as_str()), (42, "42"));
    let i = Integer::parse("-7").unwrap();
    assert_eq!((i.value(), i.as_str()), (-7, "-7"));
    let i = Integer::parse("+007").unwrap();
    assert_eq!((i.value(), i.as_str()), (7, "+007"));
    assert_eq!(Integer::parse("9223372036854775807").unwrap().value(), i64::MAX);
    assert!(Integer::parse("9223372036854775808").is_none());
    assert!(Integer::parse("4.0").is_none());
    assert!(Integer::parse("").is_none());
    assert!(Integer::parse("four").is_none());
}

#[test]
fn integer_is_written_in_decimal() {
    assert_eq!(Integer::new(0).unwrap().as_str(), "0");
    assert_eq!(Integer::new(-15).unwrap().as_str(), "-15");
    assert_eq!(Integer::new(i64::MIN).unwrap().value(), i64::MIN);
    assert_eq!((Integer::zero().value(), Integer::zero().as_str()), (0, "0"));
}

#[test]
fn integer_reads_an_optional_sign_and_digits_within_range() {
    for (text, value) in [("0", 0), ("-0", 0), ("+0", 0), ("12", 12), ("0012", 12), ("-9223372036854775808", i64::MIN)] {
        assert_eq!(Integer::parse(text).unwrap().value(), value, "{}", text);
    }
    for text in ["", "+", "-", "--1", "+-1", "1_000", " 1", "1 ", "1.0", "0x10", "12a", "\u{661}", "-9223372036854775809"] {
        assert!(Integer::parse(text).is_none(), "{}", text);
    }
}

#[test]
fn decimal_keeps_its_token() {
    assert_eq!(Decimal::parse("1.50").unwrap().as_str(), "1.50");
    assert_eq!(Decimal::parse("-0.5e-3").unwrap().as_str(), "-0.5e-3");
    assert_eq!(Decimal::parse("7").unwrap().as_str(), "7");
    assert!(Decimal::parse("1,5").is_none());
    assert!(Decimal::parse("").is_none());
    assert!(Decimal::parse("F.Cu").is_none());
    assert_eq!(Decimal::zero("n").unwrap().as_str(), "0");
    assert_eq!(Decimal::preset("0.675", "n").unwrap().as_str(), "0.675");
    assert_eq!(
        Decimal::preset("wide", "n").unwrap_err(),
        DecodeError { kind: ErrorKind::Type, field: "n".into(), node: atom("wide") }
    );
    let d = Decimal::parse("2.5").unwrap();
    assert_eq!(d.duplicate(), d);
}

#[test]
fn strings_compare_by_their_characters() {
    assert!(str_eq("pts", "pts"));
    assert!(!str_eq("pts", "pad"));
    assert!(!str_eq("pts", "pt"));
    assert!(str_eq("", ""));
    assert!(has_prefix("not_allowed", "not"));
    assert!(has_prefix("not", "not"));
    assert!(!has_prefix("no", "not"));
    assert!(!has_prefix("allowed", "not"));
    assert!(has_prefix("anything", ""));
    assert!(has_prefix("n\u{f6}t", "n\u{f6}"));
}

#[test]
fn tree_is_copied_in_depth() {
    let t = parse_node("(a (b (c d)) e)").unwrap();
    assert_eq!(t.duplicate(), t);
    assert_eq!(t.list_name().map(|s| s.as_str()), Some("a"));
    assert_eq!(atom("a").list_name(), None);
    assert_eq!(parse_node("((a))").unwrap().list_name(), None);
    match &t {
        Node::List(v) => assert_eq!(&duplicate_all(v), v),
        _ => unreachable!(),
    }
}

#[test]
fn readers_report_what_is_wrong() {
    let t = parse_node("(a 1 (b 2) x)").unwrap();
    let l = list_of(&t, "a").unwrap();
    assert_eq!(l.len(), 4);
    assert_eq!(list_of(&t, "b").unwrap_err().kind, ErrorKind::Structure);
    assert_eq!(list_of_len(&t, "a", 3).unwrap().len(), 4);
    assert_eq!(list_of_len(&t, "a", 2).unwrap_err().kind, ErrorKind::Structure);
    assert_eq!(field(l, 3, "f").unwrap(), &atom("x"));
    assert_eq!(
        field(l, 4, "f").unwrap_err(),
        DecodeError { kind: ErrorKind::MissingField, field: "f".into(), node: t.duplicate() }
    );
    assert_eq!(
        int_of(&l[2], "f").unwrap_err(),
        DecodeError { kind: ErrorKind::Type, field: "f".into(), node: parse_node("(b 2)").unwrap() }
    );
    assert_eq!(DecodeError::new(ErrorKind::Structure, "f", &t).node, t);
    assert_eq!(DecodeError::in_list(ErrorKind::Structure, "f", l).node, t);
    assert_eq!(int_of(&l[1], "f").unwrap().value(), 1);
    assert_eq!(int_of(&l[3], "f").unwrap_err().kind, ErrorKind::Type);
    assert_eq!(decimal_of(&l[1], "f").unwrap().as_str(), "1");
    assert_eq!(decimal_of(&l[2], "f").unwrap_err().kind, ErrorKind::Type);
    assert_eq!(text_of(&l[3], "f").unwrap(), "x");
    assert_eq!(value_of(&l[2], "b").unwrap(), &atom("2"));
    assert_eq!(value_of(&l[2], "c").unwrap_err().kind, ErrorKind::Structure);
    assert_eq!(value_of(&t, "a").unwrap_err().kind, ErrorKind::Structure);
    assert_eq!(value_of(&l[1], "a").unwrap_err().kind, ErrorKind::Type);
}
