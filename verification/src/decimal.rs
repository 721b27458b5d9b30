//! Decimal numbers, kept as the token they were written with.

use vstd::prelude::*;
use crate::error::{agrees, DecodeError, ErrorKind, Failure};
use crate::symbolic::{atom_is_decimal, reads_decimal};
use crate::tree::{Node, Tree};

verus! {

/// A decimal number in the notation of the file: the text of an atom that
/// reads as a number.  Keeping the text keeps every digit that was written.
#[derive(Debug, PartialEq)]
pub struct Decimal {
    text: String,
}

impl View for Decimal {
    type V = Seq<char>;

    closed spec fn view(&self) -> Seq<char> {
        self.text@
    }
}

/// The number that stands where a field named `field` is absent: the token
/// `token`, read as every number is.
pub open spec fn preset(token: Seq<char>, field: Seq<char>) -> Result<Seq<char>, Failure> {
    if atom_is_decimal(token) {
        Ok(token)
    } else {
        Err(Failure::mistyped(field, Tree::Atom(token)))
    }
}

/// The number zero, for an absent field named `field`.
pub open spec fn zero(field: Seq<char>) -> Result<Seq<char>, Failure> {
    preset("0"@, field)
}

impl Decimal {
    /// The number that stands where a field named `field` is absent.
    pub fn preset(token: &str, field: &str) -> (r: Result<Decimal, DecodeError>)
        ensures
            agrees(r, preset(token@, field@)),
    {
        match Decimal::parse(token) {
            Some(d) => Ok(d),
            None => Err(DecodeError::new(ErrorKind::Type, field, &Node::Atom(token.to_owned()))),
        }
    }

    /// The number zero, for an absent field named `field`.
    pub fn zero(field: &str) -> (r: Result<Decimal, DecodeError>)
        ensures
            agrees(r, zero(field@)),
    {
        Decimal::preset("0", field)
    }

    /// The number written as `text`, where `text` reads as a number.
    pub fn parse(text: &str) -> (d: Option<Decimal>)
        ensures
            match d {
                Some(x) => atom_is_decimal(text@) && x@ == text@,
                None => !atom_is_decimal(text@),
            },
    {
        if reads_decimal(text) {
            Some(Decimal { text: text.to_owned() })
        } else {
            None
        }
    }

    /// The token of this number.
    pub fn as_str(&self) -> (text: &str)
        ensures
            text@ == self@,
    {
        self.text.as_str()
    }

    /// A copy of this number.
    pub fn duplicate(&self) -> (d: Decimal)
        ensures
            d@ == self@,
    {
        Decimal { text: self.text.clone() }
    }
}

} // verus!
