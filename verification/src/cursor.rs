//! Reading fields off a list: by position, by name, required or optional.
//! Every reader is defined on [`Tree`] values and has an executable twin on
//! [`Node`] values that yields what the definition prescribes.

use vstd::prelude::*;
use crate::decimal::Decimal;
use crate::error::{agrees, DecodeError, ErrorKind, Failure};
use crate::integer::Integer;
use crate::symbolic::{atom_int, atom_is_decimal};
use crate::text::str_eq;
use crate::tree::{forest, lemma_list_view, Node, Tree};

verus! {

/// The list `t`, where it is a list that starts with the atom `name`.
pub open spec fn named_list(t: Tree, name: Seq<char>) -> Result<Seq<Tree>, Failure> {
    match t {
        Tree::List(l) => if l.len() == 0 {
            Err(Failure::structure(name, t))
        } else if !(l[0] is Atom) {
            Err(Failure::mistyped(name, t))
        } else if l[0]->Atom_0 != name {
            Err(Failure::structure(name, t))
        } else {
            Ok(l)
        },
        _ => Err(Failure::mistyped(name, t)),
    }
}

/// The list `t`, where it starts with the atom `name` and has exactly `n`
/// children after it.
pub open spec fn named_list_of(t: Tree, name: Seq<char>, n: nat) -> Result<Seq<Tree>, Failure> {
    match named_list(t, name) {
        Ok(l) => if l.len() == n + 1 {
            Ok(l)
        } else {
            Err(Failure::structure(name, t))
        },
        Err(e) => Err(e),
    }
}

/// The child at position `p`.
pub open spec fn child(l: Seq<Tree>, p: int, field: Seq<char>) -> Result<Tree, Failure> {
    if 0 <= p < l.len() {
        Ok(l[p])
    } else {
        Err(Failure::missing(field, Tree::List(l)))
    }
}

/// The text of an atom.
pub open spec fn as_text(t: Tree, field: Seq<char>) -> Result<Seq<char>, Failure> {
    match t {
        Tree::Atom(s) => Ok(s),
        _ => Err(Failure::mistyped(field, t)),
    }
}

/// The token of an atom that reads as an integer.
pub open spec fn as_int(t: Tree, field: Seq<char>) -> Result<Seq<char>, Failure> {
    match t {
        Tree::Atom(s) => if atom_int(s) is Some {
            Ok(s)
        } else {
            Err(Failure::mistyped(field, t))
        },
        _ => Err(Failure::mistyped(field, t)),
    }
}

/// The token of an atom that reads as a decimal number.
pub open spec fn as_decimal(t: Tree, field: Seq<char>) -> Result<Seq<char>, Failure> {
    match t {
        Tree::Atom(s) => if atom_is_decimal(s) {
            Ok(s)
        } else {
            Err(Failure::mistyped(field, t))
        },
        _ => Err(Failure::mistyped(field, t)),
    }
}

/// The value of a pair `(name value)`.
pub open spec fn named_value(t: Tree, name: Seq<char>) -> Result<Tree, Failure> {
    match t {
        Tree::List(l) => if l.len() != 2 {
            Err(Failure::structure(name, t))
        } else if !(l[0] is Atom) {
            Err(Failure::mistyped(name, t))
        } else if l[0]->Atom_0 != name {
            Err(Failure::structure(name, t))
        } else {
            Ok(l[1])
        },
        _ => Err(Failure::mistyped(name, t)),
    }
}

/// The text of a pair `(name text)`.
pub open spec fn named_text(t: Tree, name: Seq<char>) -> Result<Seq<char>, Failure> {
    match named_value(t, name) {
        Ok(v) => as_text(v, name),
        Err(e) => Err(e),
    }
}

/// The integer of a pair `(name integer)`.
pub open spec fn named_int(t: Tree, name: Seq<char>) -> Result<Seq<char>, Failure> {
    match named_value(t, name) {
        Ok(v) => as_int(v, name),
        Err(e) => Err(e),
    }
}

/// The number of a pair `(name number)`.
pub open spec fn named_decimal(t: Tree, name: Seq<char>) -> Result<Seq<char>, Failure> {
    match named_value(t, name) {
        Ok(v) => as_decimal(v, name),
        Err(e) => Err(e),
    }
}

/// The text at position `p`.
pub open spec fn text_at(l: Seq<Tree>, p: int, field: Seq<char>) -> Result<Seq<char>, Failure> {
    match child(l, p, field) {
        Ok(t) => as_text(t, field),
        Err(e) => Err(e),
    }
}

/// The integer at position `p`.
pub open spec fn int_at(l: Seq<Tree>, p: int, field: Seq<char>) -> Result<Seq<char>, Failure> {
    match child(l, p, field) {
        Ok(t) => as_int(t, field),
        Err(e) => Err(e),
    }
}

/// The number at position `p`.
pub open spec fn decimal_at(l: Seq<Tree>, p: int, field: Seq<char>) -> Result<Seq<char>, Failure> {
    match child(l, p, field) {
        Ok(t) => as_decimal(t, field),
        Err(e) => Err(e),
    }
}

/// The text of the pair `(name text)` at position `p`.
pub open spec fn named_text_at(l: Seq<Tree>, p: int, name: Seq<char>) -> Result<Seq<char>, Failure> {
    match child(l, p, name) {
        Ok(t) => named_text(t, name),
        Err(e) => Err(e),
    }
}

/// The integer of the pair `(name integer)` at position `p`.
pub open spec fn named_int_at(l: Seq<Tree>, p: int, name: Seq<char>) -> Result<Seq<char>, Failure> {
    match child(l, p, name) {
        Ok(t) => named_int(t, name),
        Err(e) => Err(e),
    }
}

/// The number of the pair `(name number)` at position `p`.
pub open spec fn named_decimal_at(l: Seq<Tree>, p: int, name: Seq<char>) -> Result<Seq<char>, Failure> {
    match child(l, p, name) {
        Ok(t) => named_decimal(t, name),
        Err(e) => Err(e),
    }
}

/// The children of a list that starts with the atom `name`, the name included
/// at position 0.
pub fn list_of<'a>(node: &'a Node, name: &str) -> (r: Result<&'a Vec<Node>, DecodeError>)
    ensures
        match r {
            Ok(v) => named_list(node@, name@) == Ok::<Seq<Tree>, Failure>(forest(v@)),
            Err(e) => named_list(node@, name@) == Err::<Seq<Tree>, Failure>(e@),
        },
{
    match node {
        Node::List(v) => {
            proof {
                lemma_list_view(*v);
            }
            if v.len() == 0 {
                Err(DecodeError::new(ErrorKind::Structure, name, node))
            } else {
                match &v[0] {
                    Node::Atom(s) => if str_eq(s.as_str(), name) {
                        Ok(v)
                    } else {
                        Err(DecodeError::new(ErrorKind::Structure, name, node))
                    },
                    _ => Err(DecodeError::new(ErrorKind::Type, name, node)),
                }
            }
        },
        _ => Err(DecodeError::new(ErrorKind::Type, name, node)),
    }
}

/// As [`list_of`], for a list with exactly `n` children after the name.
pub fn list_of_len<'a>(node: &'a Node, name: &str, n: usize) -> (r: Result<&'a Vec<Node>, DecodeError>)
    ensures
        match r {
            Ok(v) => named_list_of(node@, name@, n as nat) == Ok::<Seq<Tree>, Failure>(forest(v@)),
            Err(e) => named_list_of(node@, name@, n as nat) == Err::<Seq<Tree>, Failure>(e@),
        },
{
    let v = list_of(node, name)?;
    if v.len() >= 1 && v.len() - 1 == n {
        Ok(v)
    } else {
        Err(DecodeError::new(ErrorKind::Structure, name, node))
    }
}

/// The child at position `p`.
pub fn field<'a>(v: &'a Vec<Node>, p: usize, name: &str) -> (r: Result<&'a Node, DecodeError>)
    ensures
        agrees(r, child(forest(v@), p as int, name@)),
{
    if p < v.len() {
        Ok(&v[p])
    } else {
        Err(DecodeError::in_list(ErrorKind::MissingField, name, v))
    }
}

/// The text of an atom.
pub fn text_of<'a>(node: &'a Node, name: &str) -> (r: Result<&'a String, DecodeError>)
    ensures
        agrees(r, as_text(node@, name@)),
{
    match node {
        Node::Atom(s) => Ok(s),
        _ => Err(DecodeError::new(ErrorKind::Type, name, node)),
    }
}

/// The integer that an atom reads as.
pub fn int_of(node: &Node, name: &str) -> (r: Result<Integer, DecodeError>)
    ensures
        agrees(r, as_int(node@, name@)),
{
    match node {
        Node::Atom(s) => match Integer::parse(s.as_str()) {
            Some(i) => Ok(i),
            None => Err(DecodeError::new(ErrorKind::Type, name, node)),
        },
        _ => Err(DecodeError::new(ErrorKind::Type, name, node)),
    }
}

/// The number that an atom reads as.
pub fn decimal_of(node: &Node, name: &str) -> (r: Result<Decimal, DecodeError>)
    ensures
        agrees(r, as_decimal(node@, name@)),
{
    match node {
        Node::Atom(s) => match Decimal::parse(s.as_str()) {
            Some(d) => Ok(d),
            None => Err(DecodeError::new(ErrorKind::Type, name, node)),
        },
        _ => Err(DecodeError::new(ErrorKind::Type, name, node)),
    }
}

/// The value of a pair `(name value)`.
pub fn value_of<'a>(node: &'a Node, name: &str) -> (r: Result<&'a Node, DecodeError>)
    ensures
        agrees(r, named_value(node@, name@)),
{
    match node {
        Node::List(v) => {
            proof {
                lemma_list_view(*v);
            }
            if v.len() != 2 {
                Err(DecodeError::new(ErrorKind::Structure, name, node))
            } else {
                match &v[0] {
                    Node::Atom(s) => if str_eq(s.as_str(), name) {
                        Ok(&v[1])
                    } else {
                        Err(DecodeError::new(ErrorKind::Structure, name, node))
                    },
                    _ => Err(DecodeError::new(ErrorKind::Type, name, node)),
                }
            }
        },
        _ => Err(DecodeError::new(ErrorKind::Type, name, node)),
    }
}

/// The text at position `p`.
pub fn text_field<'a>(v: &'a Vec<Node>, p: usize, name: &str) -> (r: Result<&'a String, DecodeError>)
    ensures
        agrees(r, text_at(forest(v@), p as int, name@)),
{
    text_of(field(v, p, name)?, name)
}

/// The integer at position `p`.
pub fn int_field(v: &Vec<Node>, p: usize, name: &str) -> (r: Result<Integer, DecodeError>)
    ensures
        agrees(r, int_at(forest(v@), p as int, name@)),
{
    int_of(field(v, p, name)?, name)
}

/// The number at position `p`.
pub fn decimal_field(v: &Vec<Node>, p: usize, name: &str) -> (r: Result<Decimal, DecodeError>)
    ensures
        agrees(r, decimal_at(forest(v@), p as int, name@)),
{
    decimal_of(field(v, p, name)?, name)
}

/// The text of the pair `(name text)` at position `p`.
pub fn named_text_field<'a>(v: &'a Vec<Node>, p: usize, name: &str) -> (r: Result<&'a String, DecodeError>)
    ensures
        agrees(r, named_text_at(forest(v@), p as int, name@)),
{
    text_of(value_of(field(v, p, name)?, name)?, name)
}

/// The integer of the pair `(name integer)` at position `p`.
pub fn named_int_field(v: &Vec<Node>, p: usize, name: &str) -> (r: Result<Integer, DecodeError>)
    ensures
        agrees(r, named_int_at(forest(v@), p as int, name@)),
{
    int_of(value_of(field(v, p, name)?, name)?, name)
}

/// The number of the pair `(name number)` at position `p`.
pub fn named_decimal_field(v: &Vec<Node>, p: usize, name: &str) -> (r: Result<Decimal, DecodeError>)
    ensures
        agrees(r, named_decimal_at(forest(v@), p as int, name@)),
{
    decimal_of(value_of(field(v, p, name)?, name)?, name)
}

/// The name of a list: the text of its first child.
pub open spec fn list_head(t: Tree, field: Seq<char>) -> Result<Seq<char>, Failure> {
    match t {
        Tree::List(l) => if l.len() == 0 {
            Err(Failure::structure(field, t))
        } else {
            as_text(l[0], field)
        },
        _ => Err(Failure::mistyped(field, t)),
    }
}

/// The name of a list: the text of its first child.
pub fn head_of<'a>(node: &'a Node, name: &str) -> (r: Result<&'a String, DecodeError>)
    ensures
        agrees(r, list_head(node@, name@)),
{
    match node {
        Node::List(v) => {
            proof {
                lemma_list_view(*v);
            }
            if v.len() == 0 {
                Err(DecodeError::new(ErrorKind::Structure, name, node))
            } else {
                text_of(&v[0], name)
            }
        },
        _ => Err(DecodeError::new(ErrorKind::Type, name, node)),
    }
}

/// A list that starts with a name is a named list of that name.
pub proof fn lemma_head_names(t: Tree, field: Seq<char>)
    requires
        list_head(t, field) is Ok,
    ensures
        named_list(t, list_head(t, field)->Ok_0) == Ok::<Seq<Tree>, Failure>(t->List_0),
{
}

/// The first child after the name of a list that starts with the atom
/// `name`, whatever follows it.
pub open spec fn first_arg(t: Tree, name: Seq<char>) -> Result<Tree, Failure> {
    match named_list(t, name) {
        Ok(l) => child(l, 1, name),
        Err(e) => Err(e),
    }
}

/// The first child after the name of a list that starts with the atom
/// `name`.
pub fn arg_of<'a>(node: &'a Node, name: &str) -> (r: Result<&'a Node, DecodeError>)
    ensures
        agrees(r, first_arg(node@, name@)),
{
    field(list_of(node, name)?, 1, name)
}

/// The text that follows the name `name`.
pub open spec fn arg_text(t: Tree, name: Seq<char>) -> Result<Seq<char>, Failure> {
    match first_arg(t, name) {
        Ok(v) => as_text(v, name),
        Err(e) => Err(e),
    }
}

/// The integer that follows the name `name`.
pub open spec fn arg_int(t: Tree, name: Seq<char>) -> Result<Seq<char>, Failure> {
    match first_arg(t, name) {
        Ok(v) => as_int(v, name),
        Err(e) => Err(e),
    }
}

/// The number that follows the name `name`.
pub open spec fn arg_decimal(t: Tree, name: Seq<char>) -> Result<Seq<char>, Failure> {
    match first_arg(t, name) {
        Ok(v) => as_decimal(v, name),
        Err(e) => Err(e),
    }
}

/// The text that follows the name `name`.
pub fn text_arg<'a>(node: &'a Node, name: &str) -> (r: Result<&'a String, DecodeError>)
    ensures
        agrees(r, arg_text(node@, name@)),
{
    text_of(arg_of(node, name)?, name)
}

/// The integer that follows the name `name`.
pub fn int_arg(node: &Node, name: &str) -> (r: Result<Integer, DecodeError>)
    ensures
        agrees(r, arg_int(node@, name@)),
{
    int_of(arg_of(node, name)?, name)
}

/// The number that follows the name `name`.
pub fn decimal_arg(node: &Node, name: &str) -> (r: Result<Decimal, DecodeError>)
    ensures
        agrees(r, arg_decimal(node@, name@)),
{
    decimal_of(arg_of(node, name)?, name)
}

/// A plain list: its children.
pub open spec fn plain_list(t: Tree, field: Seq<char>) -> Result<Seq<Tree>, Failure> {
    match t {
        Tree::List(l) => Ok(l),
        _ => Err(Failure::mistyped(field, t)),
    }
}

/// The children of a list.
pub fn children_of<'a>(node: &'a Node, name: &str) -> (r: Result<&'a Vec<Node>, DecodeError>)
    ensures
        match r {
            Ok(v) => plain_list(node@, name@) == Ok::<Seq<Tree>, Failure>(forest(v@)),
            Err(e) => plain_list(node@, name@) == Err::<Seq<Tree>, Failure>(e@),
        },
{
    match node {
        Node::List(v) => {
            proof {
                lemma_list_view(*v);
            }
            Ok(v)
        },
        _ => Err(DecodeError::new(ErrorKind::Type, name, node)),
    }
}

} // verus!
