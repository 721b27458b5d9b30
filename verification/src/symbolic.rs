//! The calls into the `symbolic_expressions` crate: reading text into a tree
//! and reading numbers out of atoms.  Nothing here is proved; each contract
//! restates what the crate does.

use vstd::prelude::*;
use crate::tree::{Node, Tree};

verus! {

/// The type `symbolic_expressions::Sexp`, carried through as it is.
#[verifier::external_type_specification]
#[verifier::external_body]
pub struct ExSexp(symbolic_expressions::Sexp);

/// The type `symbolic_expressions::SexpError`, carried through as it is.
#[verifier::external_type_specification]
#[verifier::external_body]
pub struct ExSexpError(symbolic_expressions::SexpError);

/// The tree that a `symbolic_expressions::Sexp` value holds.
pub uninterp spec fn sexp_tree(s: symbolic_expressions::Sexp) -> Tree;

/// What `symbolic_expressions::parser::parse_str` reads from a text: the tree,
/// or nothing where it reports an error.
pub uninterp spec fn parsed(text: Seq<char>) -> Option<Tree>;

/// Whether a character is one of the digits `0` to `9`.
pub open spec fn is_digit(c: char) -> bool {
    '0' <= c <= '9'
}

/// The number that a sequence of digits writes in base ten, or nothing where
/// the sequence is empty or holds anything but digits.
pub open spec fn digits_value(s: Seq<char>) -> Option<int>
    decreases s.len(),
{
    if s.len() == 0 || !is_digit(s.last()) {
        None
    } else if s.len() == 1 {
        Some(s[0] as int - '0' as int)
    } else {
        match digits_value(s.drop_last()) {
            Some(v) => Some(10 * v + (s.last() as int - '0' as int)),
            None => None,
        }
    }
}

/// The integer that `symbolic_expressions::Sexp::i` reads from an atom with
/// this text, or nothing where it reports an error.  The crate parses the
/// text with `str::parse::<i64>`, which takes an optional `+` or `-` and
/// after it one or more digits `0` to `9`, nothing else, and gives the
/// number that they write where it is within the range of `i64`.
#[verifier::opaque]
pub open spec fn atom_int(text: Seq<char>) -> Option<i64> {
    let negative = text.len() > 0 && text[0] == '-';
    let signed = negative || (text.len() > 0 && text[0] == '+');
    let digits = if signed {
        text.skip(1)
    } else {
        text
    };
    match digits_value(digits) {
        Some(v) => {
            let n = if negative {
                -v
            } else {
                v
            };
            if i64::MIN <= n <= i64::MAX {
                Some(n as i64)
            } else {
                None
            }
        },
        None => None,
    }
}

/// The text of the atom that the conversion of `symbolic_expressions` from
/// `i64` to `Sexp` makes of an integer.
pub uninterp spec fn int_atom(number: i64) -> Seq<char>;

/// Whether `symbolic_expressions::Sexp::f` reads a number from an atom with
/// this text.
pub uninterp spec fn atom_is_decimal(text: Seq<char>) -> bool;

/// Calls `symbolic_expressions::parser::parse_str`.  The crate's parser is a
/// function of the text alone; the contract names its outcome [`parsed`].
#[verifier::external_body]
pub(crate) fn parse_text(text: &str) -> (r: Result<symbolic_expressions::Sexp, symbolic_expressions::SexpError>)
    ensures
        match r {
            Ok(s) => parsed(text@) == Some(sexp_tree(s)),
            Err(_) => parsed(text@) is None,
        },
{
    symbolic_expressions::parser::parse_str(text)
}

/// Copies a `symbolic_expressions::Sexp` into a [`Node`], variant by variant:
/// `String` to `Atom`, `List` to `List` with the children in order, `Empty`
/// to `Empty`.
#[verifier::external_body]
pub(crate) fn node_of(s: &symbolic_expressions::Sexp) -> (n: Node)
    ensures
        n@ == sexp_tree(*s),
{
    match s {
        symbolic_expressions::Sexp::String(t) => Node::Atom(t.clone()),
        symbolic_expressions::Sexp::List(l) => Node::List(l.iter().map(node_of).collect()),
        symbolic_expressions::Sexp::Empty => Node::Empty,
    }
}

/// The message of a `symbolic_expressions::SexpError`, as its `Display`
/// implementation writes it.  Nothing is claimed of the text.
#[verifier::external_body]
pub(crate) fn error_text(e: &symbolic_expressions::SexpError) -> String {
    format!("{}", e)
}

/// Calls `symbolic_expressions::Sexp::i` on an atom with the given text: the
/// atom's text parsed as an `i64` with `str::parse`, as [`atom_int`] writes
/// it down from the documentation of that function.
#[verifier::external_body]
pub(crate) fn read_int(text: &str) -> (r: Option<i64>)
    ensures
        r == atom_int(text@),
{
    symbolic_expressions::Sexp::String(text.to_string()).i().ok()
}

/// Converts an integer into a `symbolic_expressions::Sexp` with the crate's
/// own conversion (`Into<Sexp> for i64`, which makes an atom) and hands out
/// the text of that atom, read with `symbolic_expressions::Sexp::s`.  The
/// conversion is a function of the integer alone; the contract names its
/// outcome [`int_atom`] and claims nothing more of it.
#[verifier::external_body]
pub(crate) fn write_int(number: i64) -> (text: String)
    ensures
        text@ == int_atom(number),
{
    let atom: symbolic_expressions::Sexp = number.into();
    atom.s().unwrap_or_default()
}

/// Calls `symbolic_expressions::Sexp::f` on an atom with the given text and
/// tells whether it read a number.
#[verifier::external_body]
pub(crate) fn reads_decimal(text: &str) -> (r: bool)
    ensures
        r == atom_is_decimal(text@),
{
    symbolic_expressions::Sexp::String(text.to_string()).f().is_ok()
}

} // verus!
