//! Resolution of per-component configuration schemas against an optional
//! override document: an override value beats a declared default, and a
//! required field without an override is an error.

pub mod value;
pub mod schema;
pub mod text;
pub mod resolve;
pub mod strict;
pub mod emit;
pub mod pass;
pub mod laws;
