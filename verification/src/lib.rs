//! Dynamic query construction for entity stores on a relational backend.
//!
//! An entity store exchanges loosely typed documents with its callers and
//! parameterised statements with its backend. This library is the part in
//! between, for two entities, users and authentication tokens:
//!
//! - [`document`] holds what a caller hands over: an ordered mapping from
//!   field names to dynamically typed values.
//! - [`registry`] gives each field of an entity its semantic kind.
//! - [`builder`] turns a flat document into the text of a filter or of an
//!   assignment, with one positional placeholder for each field.
//! - [`binder`] coerces the values of a document into the typed parameters
//!   that belong to those placeholders.
//! - [`materializer`] turns the rows that the backend answers with back into
//!   documents.
//! - [`statement`] and [`entity`] put these together into the statements of
//!   the operations of a store, and [`stores`] holds the two stores.
//! - [`round_trip`] shows that what a row becomes in a document can be read
//!   from the document again.
//!
//! Nothing here talks to a backend: an operation of a store makes the
//! statement that is to be run, and running it is left to the caller.
//!
//! Every function is verified against its contract, but for the four
//! functions of [`codec`], which call the `uuid` and `chrono` crates and
//! whose contracts are taken on trust.

pub mod binder;
pub mod builder;
pub mod codec;
pub mod document;
pub mod entity;
pub mod materializer;
pub mod registry;
pub mod round_trip;
pub mod sequences;
pub mod sql_text;
pub mod statement;
pub mod stores;
