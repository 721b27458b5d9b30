//! A codec between parenthesised symbolic-expression trees and a typed model
//! of KiCad board files, together with the pretty-printer that lays a tree out
//! the way KiCad itself writes it.
//!
//! - [`tree`] holds the generic tree, [`symbolic`] the calls that read text
//!   into it, [`cursor`] the readers that take fields off a list.
//! - [`codec`] says what it is to decode and to encode an entity;
//!   [`footprint`], [`layout`] and [`fp_lib_table`] do so for the entities of
//!   the file formats, and [`lossless`] proves that nothing is lost on the
//!   way.
//! - [`formatter`] is the pretty-printer: a state machine that answers the
//!   callbacks of a serializer with the bytes of layout to write.
//!
//! Numbers are kept as the tokens they were written with ([`decimal`],
//! [`integer`]), so that a document that is read and written again keeps
//! every digit.

pub mod codec;
pub mod cursor;
pub mod decimal;
pub mod error;
pub mod footprint;
pub mod formatter;
pub mod fp_lib_table;
pub mod integer;
pub mod layout;
pub mod lossless;
pub mod names;
pub mod shell;
pub mod symbolic;
pub mod text;
pub mod tree;
