//! Boards: the typed model, its decoders and its encoders.

pub mod data;
pub mod de;
pub mod lossless;
pub mod ser;
