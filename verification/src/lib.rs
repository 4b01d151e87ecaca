//! A source-to-source transformer for abstract interface definitions.
//!
//! Given an interface — a named, ordered set of methods, associated types
//! and associated constants, some declared asynchronous or returning an
//! opaque bounded type — this crate derives *variant* interfaces that add
//! capability bounds to every asynchronous or opaque-returning member,
//! synthesizes a blanket *adapter* so that any type implementing a variant
//! also satisfies the original interface, and derives constraint-carrying
//! *subtraits*.  The transformations are purely syntactic: parsing source
//! text into the model of [`model`] and printing it back out belong to the
//! surrounding front end.

pub mod model;
pub mod subtrait;
pub mod text;
pub mod adapter;
pub mod attr;
pub mod laws;
pub mod variant;
