//! What a failed decode reports.

use vstd::prelude::*;
use crate::tree::{duplicate_all, forest, lemma_list_view, Node, Tree};

verus! {

/// The ways in which a tree can fail to be the entity that was asked for.
#[derive(Clone, Copy, Debug, PartialEq, Eq, Structural)]
pub enum ErrorKind {
    /// The element name is not the expected one, or the number of children is.
    Structure,
    /// A child that should be a number, a string or a list is something else.
    Type,
    /// A child's name is outside a closed vocabulary.
    UnknownField,
    /// The list ended where a field was still expected.
    MissingField,
}

/// A decode failure: its kind, the name of the field or element that was
/// being read, and a copy of the node that could not be read as it.
#[derive(Debug, PartialEq)]
pub struct DecodeError {
    pub kind: ErrorKind,
    pub field: String,
    pub node: Node,
}

/// The mathematical value of a [`DecodeError`].
pub ghost struct Failure {
    pub kind: ErrorKind,
    pub field: Seq<char>,
    pub at: Tree,
}

impl View for DecodeError {
    type V = Failure;

    open spec fn view(&self) -> Failure {
        Failure { kind: self.kind, field: self.field@, at: self.node@ }
    }
}

/// Whether an executable result is the value that its definition on trees
/// prescribes.
pub open spec fn agrees<T: View>(got: Result<T, DecodeError>, want: Result<T::V, Failure>) -> bool {
    match got {
        Ok(v) => want == Ok::<T::V, Failure>(v@),
        Err(e) => want == Err::<T::V, Failure>(e@),
    }
}

impl Failure {
    /// A structural mismatch at `at`.
    pub open spec fn structure(field: Seq<char>, at: Tree) -> Failure {
        Failure { kind: ErrorKind::Structure, field, at }
    }

    /// A value of the wrong kind at `at`.
    pub open spec fn mistyped(field: Seq<char>, at: Tree) -> Failure {
        Failure { kind: ErrorKind::Type, field, at }
    }

    /// A name outside the vocabulary at `at`.
    pub open spec fn unknown(field: Seq<char>, at: Tree) -> Failure {
        Failure { kind: ErrorKind::UnknownField, field, at }
    }

    /// A field that the list `at` ends before.
    pub open spec fn missing(field: Seq<char>, at: Tree) -> Failure {
        Failure { kind: ErrorKind::MissingField, field, at }
    }
}

impl DecodeError {
    /// A failure of the given kind to read the given node as the given
    /// field.
    pub fn new(kind: ErrorKind, field: &str, node: &Node) -> (e: DecodeError)
        ensures
            e@ == (Failure { kind, field: field@, at: node@ }),
    {
        DecodeError { kind, field: field.to_owned(), node: node.duplicate() }
    }

    /// A failure of the given kind to read the given field off the list of
    /// the given children.
    pub fn in_list(kind: ErrorKind, field: &str, children: &Vec<Node>) -> (e: DecodeError)
        ensures
            e@ == (Failure { kind, field: field@, at: Tree::List(forest(children@)) }),
    {
        let copy = duplicate_all(children);
        proof {
            lemma_list_view(copy);
        }
        DecodeError { kind, field: field.to_owned(), node: Node::List(copy) }
    }
}

/// What the library's entry points report.
#[derive(Debug, PartialEq)]
pub enum KicadError {
    /// The text is no symbolic expression; the message says why.
    Parse(String),
    /// The expression is not the entity that was asked for.
    Decode(DecodeError),
    /// A variable of a library path could not be looked up.
    Expand { variable: String, cause: String },
}

} // verus!
