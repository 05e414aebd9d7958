//! Code generation for a type-state builder derive: given the definition of a
//! struct with named fields, it produces the source of a builder whose setters
//! must be called once each, in declaration order, before `build` is available.

pub mod derive;
pub mod fields;
pub mod laws;
pub mod model;
pub mod syntax;
pub mod util;

pub use derive::{create_builder, DeriveError};
