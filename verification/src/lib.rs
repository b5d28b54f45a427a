//! Generates, for a struct and the directives attached to it and to its
//! fields, the structs of its variants: each with lower camel case field
//! names, with the types of user-defined fields renamed, with fields left out
//! or added, and with the conversions between the struct and the variant.
//!
//! [`expand::expand_derive_generate_struct`] does all of it for one struct;
//! [`emit::emit`] writes a generated struct and its conversions as source
//! text. [`laws`] states what holds of every generated struct.

pub mod bounds;
pub mod casing;
pub mod config;
pub mod convert;
pub mod directive;
pub mod emit;
pub mod error;
pub mod expand;
pub mod generate;
pub mod index;
pub mod laws;
pub mod parse;
pub mod render;
pub mod schema;
pub mod seen;
pub mod syntax;
pub mod text;
pub mod transform;
pub mod types;
pub mod value;
pub mod views;
