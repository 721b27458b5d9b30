//! Integers, kept as the token they were written with.

use vstd::prelude::*;
use crate::symbolic::{atom_int, int_atom, read_int, write_int};

verus! {

/// An integer in the notation of the file: the text of an atom that reads
/// as an integer, together with the integer it reads as.
#[derive(Debug, PartialEq)]
pub struct Integer {
    text: String,
    number: i64,
}

impl View for Integer {
    type V = Seq<char>;

    closed spec fn view(&self) -> Seq<char> {
        self.text@
    }
}

/// The token of the integer zero.
pub open spec fn zero_int() -> Seq<char> {
    "0"@
}

/// The token `0` reads as the integer zero.
pub proof fn lemma_zero_reads()
    ensures
        atom_int(zero_int()) == Some(0i64),
{
    reveal(atom_int);
    reveal_strlit("0");
    assert(zero_int().len() == 1 && zero_int()[0] == '0');
}

impl Integer {
    /// The token reads as the number that is kept beside it.
    #[verifier::type_invariant]
    spec fn reads_as_number(&self) -> bool {
        atom_int(self.text@) == Some(self.number)
    }

    /// The integer written as `text`, where `text` reads as an integer.
    pub fn parse(text: &str) -> (i: Option<Integer>)
        ensures
            match i {
                Some(x) => atom_int(text@) is Some && x@ == text@,
                None => atom_int(text@) is None,
            },
    {
        match read_int(text) {
            Some(number) => Some(Integer { text: text.to_owned(), number }),
            None => None,
        }
    }

    /// The integer `number`, in the notation that the file format writes it
    /// in.  There is none only where that notation would not read back as
    /// `number`.
    pub fn new(number: i64) -> (i: Option<Integer>)
        ensures
            match i {
                Some(x) => x@ == int_atom(number) && atom_int(x@) == Some(number),
                None => atom_int(int_atom(number)) != Some(number),
            },
    {
        let text = write_int(number);
        match read_int(text.as_str()) {
            Some(back) => if back == number {
                Some(Integer { text, number })
            } else {
                None
            },
            None => None,
        }
    }

    /// The integer zero.
    pub fn zero() -> (i: Integer)
        ensures
            i@ == zero_int(),
    {
        proof {
            lemma_zero_reads();
        }
        Integer { text: "0".to_owned(), number: 0 }
    }

    /// The number that this integer reads as.
    pub fn value(&self) -> (number: i64)
        ensures
            atom_int(self@) == Some(number),
    {
        proof {
            use_type_invariant(self);
        }
        self.number
    }

    /// The token of this integer.
    pub fn as_str(&self) -> (text: &str)
        ensures
            text@ == self@,
    {
        self.text.as_str()
    }
}

} // verus!
