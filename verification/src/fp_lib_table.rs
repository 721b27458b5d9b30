//! The table of footprint libraries: the document `fp_lib_table`.

use vstd::prelude::*;
use crate::codec::{
    append, append_each, decode_rest, decode_text, decode_vec, encode_each, FromSexp, IntoSexp, list,
    node, pair, pair_node, reads_as, start, views,
};
use crate::cursor::{list_of, named_list, named_text_at, named_text_field};
use crate::error::{DecodeError, Failure, KicadError};
use crate::lossless::{all_valid, lemma_rest_round_trip, Lossless};
use crate::shell::{expand_full, expansion, is_plain};
use crate::symbolic::parsed;
use crate::tree::{forest, Node, Tree};

verus! {

/// A table of footprint libraries.
#[derive(Debug, PartialEq)]
pub struct FpLibTable {
    /// The libraries, in the order of the document.
    pub libs: Vec<Lib>,
}

/// One library of the table.
#[derive(Debug, PartialEq)]
pub struct Lib {
    /// The name of the library.
    pub name: String,
    /// The kind of library (mostly `KiCad`).
    pub type_: String,
    /// Where the library is; may hold shell variables.
    pub uri: String,
    /// Options.
    pub options: String,
    /// A description.
    pub descr: String,
}

/// The value of a [`Lib`].
pub ghost struct LibView {
    pub name: Seq<char>,
    pub type_: Seq<char>,
    pub uri: Seq<char>,
    pub options: Seq<char>,
    pub descr: Seq<char>,
}

/// The value of an [`FpLibTable`].
pub ghost struct FpLibTableView {
    pub libs: Seq<LibView>,
}

impl View for Lib {
    type V = LibView;

    open spec fn view(&self) -> LibView {
        LibView {
            name: self.name@,
            type_: self.type_@,
            uri: self.uri@,
            options: self.options@,
            descr: self.descr@,
        }
    }
}

impl View for FpLibTable {
    type V = FpLibTableView;

    open spec fn view(&self) -> FpLibTableView {
        FpLibTableView { libs: views(self.libs@) }
    }
}

impl Lib {
    /// The location of the library with the variables of the environment and
    /// a leading tilde replaced.  A location that holds neither is returned
    /// as it is.  What a variable or the tilde is replaced by depends on the
    /// environment; only a location with a `$` can fail, and the failure is
    /// then one of expansion.
    pub fn get_expanded_uri(&self) -> (r: Result<String, KicadError>)
        ensures
            r matches Err(e) ==> e is Expand && self.uri@.contains('$'),
            is_plain(self.uri@) ==> (r matches Ok(s) && s@ == self.uri@),
    {
        expansion(expand_full(self.uri.as_str()))
    }
}

impl FromSexp for Lib {
    /// `(lib (name ..) (type ..) (uri ..) (options ..) (descr ..))`, the five
    /// pairs in this order.
    open spec fn decoded(t: Tree) -> Result<LibView, Failure> {
        match named_list(t, "lib"@) {
            Err(e) => Err(e),
            Ok(l) => {
                let name = named_text_at(l, 1, "name"@);
                let type_ = named_text_at(l, 2, "type"@);
                let uri = named_text_at(l, 3, "uri"@);
                let options = named_text_at(l, 4, "options"@);
                let descr = named_text_at(l, 5, "descr"@);
                if name is Err {
                    Err(name->Err_0)
                } else if type_ is Err {
                    Err(type_->Err_0)
                } else if uri is Err {
                    Err(uri->Err_0)
                } else if options is Err {
                    Err(options->Err_0)
                } else if descr is Err {
                    Err(descr->Err_0)
                } else {
                    Ok(
                        LibView {
                            name: name->Ok_0,
                            type_: type_->Ok_0,
                            uri: uri->Ok_0,
                            options: options->Ok_0,
                            descr: descr->Ok_0,
                        },
                    )
                }
            },
        }
    }

    fn from_sexp(s: &Node) -> (r: Result<Lib, DecodeError>) {
        let l = list_of(s, "lib")?;
        let name = named_text_field(l, 1, "name")?.clone();
        let type_ = named_text_field(l, 2, "type")?.clone();
        let uri = named_text_field(l, 3, "uri")?.clone();
        let options = named_text_field(l, 4, "options")?.clone();
        let descr = named_text_field(l, 5, "descr")?.clone();
        Ok(Lib { name, type_, uri, options, descr })
    }
}

impl IntoSexp for Lib {
    open spec fn encoded(v: LibView) -> Tree {
        node(
            "lib"@,
            seq![
                pair("name"@, v.name),
                pair("type"@, v.type_),
                pair("uri"@, v.uri),
                pair("options"@, v.options),
                pair("descr"@, v.descr),
            ],
        )
    }

    fn into_sexp(&self) -> (n: Node) {
        let mut v = start("lib");
        append(&mut v, pair_node("name", self.name.as_str()));
        append(&mut v, pair_node("type", self.type_.as_str()));
        append(&mut v, pair_node("uri", self.uri.as_str()));
        append(&mut v, pair_node("options", self.options.as_str()));
        append(&mut v, pair_node("descr", self.descr.as_str()));
        assert(forest(v@) =~= Self::encoded(self@)->List_0);
        list(v)
    }
}

impl FromSexp for FpLibTable {
    /// `(fp_lib_table lib ..)`: every child after the name is a library.
    open spec fn decoded(t: Tree) -> Result<FpLibTableView, Failure> {
        match named_list(t, "fp_lib_table"@) {
            Err(e) => Err(e),
            Ok(l) => match decode_rest::<Lib>(l, 1) {
                Err(e) => Err(e),
                Ok(libs) => Ok(FpLibTableView { libs }),
            },
        }
    }

    fn from_sexp(s: &Node) -> (r: Result<FpLibTable, DecodeError>) {
        let l = list_of(s, "fp_lib_table")?;
        let libs = decode_vec::<Lib>(l, 1)?;
        Ok(FpLibTable { libs })
    }
}

impl IntoSexp for FpLibTable {
    open spec fn encoded(v: FpLibTableView) -> Tree {
        node("fp_lib_table"@, encode_each::<Lib>(v.libs))
    }

    fn into_sexp(&self) -> (n: Node) {
        let mut v = start("fp_lib_table");
        append_each::<Lib>(&mut v, &self.libs);
        list(v)
    }
}

impl Lossless for Lib {
    open spec fn valid(v: LibView) -> bool {
        true
    }

    proof fn lemma_decoded_is_valid(t: Tree) {
    }

    proof fn lemma_round_trip(v: LibView) {
    }
}

impl Lossless for FpLibTable {
    open spec fn valid(v: FpLibTableView) -> bool {
        true
    }

    proof fn lemma_decoded_is_valid(t: Tree) {
    }

    proof fn lemma_round_trip(v: FpLibTableView) {
        assert(all_valid::<Lib>(v.libs));
        lemma_rest_round_trip::<Lib>(seq![Tree::Atom("fp_lib_table"@)], v.libs);
    }
}

/// A table that is written and read again is the same table.
pub proof fn lemma_table_round_trip(v: FpLibTableView)
    ensures
        FpLibTable::decoded(FpLibTable::encoded(v)) == Ok::<FpLibTableView, Failure>(v),
{
    FpLibTable::lemma_round_trip(v);
}

/// Reads a table from the text of an `fp-lib-table` file.
pub fn parse(s: &str) -> (r: Result<FpLibTable, KicadError>)
    ensures
        reads_as::<FpLibTable>(r, parsed(s@)),
{
    decode_text::<FpLibTable>(s)
}

} // verus!
