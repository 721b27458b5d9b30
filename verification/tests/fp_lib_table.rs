use kicad_codec::codec::{parse_node, FromSexp, IntoSexp};
use kicad_codec::error::{ErrorKind, KicadError};
use kicad_codec::fp_lib_table::{parse, FpLibTable, Lib};
use kicad_codec::shell::expansion;

const TABLE: &str = "(fp_lib_table (lib (name Resistors)(type KiCad)(uri ${KISYSMOD}/Resistors.pretty)(options \"\")(descr \"all the resistors\")) (lib (name Local)(type KiCad)(uri /home/me/local.pretty)(options \"\")(descr \"\")))";

fn lib(name: &str, uri: &str, descr: &str) -> Lib {
    Lib { name: name.into(), type_: "KiCad".into(), uri: uri.into(), options: "".into(), descr: descr.into() }
}

#[test]
fn table_is_read_from_text() {
    let table = parse(TABLE).unwrap();
    assert_eq!(
        table,
        FpLibTable {
            libs: vec![
                lib("Resistors", "${KISYSMOD}/Resistors.pretty", "all the resistors"),
                lib("Local", "/home/me/local.pretty", ""),
            ]
        }
    );
}

#[test]
fn table_without_libraries_is_empty() {
    assert_eq!(parse("(fp_lib_table)").unwrap(), FpLibTable { libs: vec![] });
}

#[test]
fn table_is_written_as_it_was_read() {
    let table = parse(TABLE).unwrap();
    let tree = table.into_sexp();
    assert_eq!(tree, parse_node(TABLE).unwrap());
    assert_eq!(FpLibTable::from_sexp(&tree).unwrap(), table);
}

#[test]
fn library_with_fields_out_of_order_fails() {
    match parse("(fp_lib_table (lib (type KiCad)(name A)(uri u)(options \"\")(descr \"\")))") {
        Err(KicadError::Decode(e)) => assert_eq!((e.kind, e.field.as_str()), (ErrorKind::Structure, "name")),
        other => panic!("unexpected {:?}", other),
    }
    match parse("(fp_lib_table (lib (name A)(type KiCad)(uri u)(options \"\")))") {
        Err(KicadError::Decode(e)) => assert_eq!((e.kind, e.field.as_str()), (ErrorKind::MissingField, "descr")),
        other => panic!("unexpected {:?}", other),
    }
    match parse("(fp_lib_table (lib (name (A))(type KiCad)(uri u)(options \"\")(descr \"\")))") {
        Err(KicadError::Decode(e)) => assert_eq!((e.kind, e.field.as_str()), (ErrorKind::Type, "name")),
        other => panic!("unexpected {:?}", other),
    }
    assert!(matches!(parse("(fp_lib_table"), Err(KicadError::Parse(_))));
    match parse("(sym_lib_table)") {
        Err(KicadError::Decode(e)) => assert_eq!((e.kind, e.field.as_str()), (ErrorKind::Structure, "fp_lib_table")),
        other => panic!("unexpected {:?}", other),
    }
}

#[test]
fn location_without_variables_expands_to_itself() {
    assert_eq!(lib("a", "/usr/share/kicad/a.pretty", "").get_expanded_uri().unwrap(), "/usr/share/kicad/a.pretty");
}

#[test]
fn location_with_a_tilde_that_names_no_home_expands_to_itself() {
    assert_eq!(lib("a", "~other/a.pretty", "").get_expanded_uri().unwrap(), "~other/a.pretty");
    assert_eq!(lib("a", "lib/~/a.pretty", "").get_expanded_uri().unwrap(), "lib/~/a.pretty");
    assert_eq!(lib("a", "", "").get_expanded_uri().unwrap(), "");
}

#[test]
fn location_without_a_variable_never_fails() {
    assert!(lib("a", "~/a.pretty", "").get_expanded_uri().is_ok());
    assert!(lib("a", "~", "").get_expanded_uri().is_ok());
}

#[test]
fn location_with_an_unknown_variable_fails() {
    match lib("a", "${KICAD_CODEC_NO_SUCH_VARIABLE}/a.pretty", "").get_expanded_uri() {
        Err(KicadError::Expand { variable, .. }) => assert_eq!(variable, "KICAD_CODEC_NO_SUCH_VARIABLE"),
        other => panic!("unexpected {:?}", other),
    }
}

#[test]
fn outcome_of_an_expansion_is_handed_on() {
    assert_eq!(expansion(Ok("x".to_string())), Ok("x".to_string()));
    assert_eq!(
        expansion(Err(("HOME".to_string(), "not present".to_string()))),
        Err(KicadError::Expand { variable: "HOME".into(), cause: "not present".into() })
    );
}
