//! Typed configuration models described by Cola documents.
//!
//! A Cola document declares entities, their fields and their nesting.
//! This library holds the tree model of such a configuration, builds
//! the model from the syntax tree of a document, and generates for it
//! the source text of a typed API: one record type for each entity
//! shape, with accessors and with the hydration of the record from the
//! model.
//!
//! - [`config_model`]: the tree of entities and fields, in an arena.
//! - [`model_render`]: the two printed forms of a model.
//! - [`cola_actions`]: the syntax tree of a document.
//! - [`model_builder`]: from a syntax tree to a model.
//! - [`generator`]: the record types of a model and their source text.
//! - [`hydration`]: reading a record out of a model.
//! - [`model_laws`], [`tree_laws`], [`generation_laws`]: laws of the
//!   model, of the walks over it, and of record types with hydration.
//! - [`source_location`], [`text`]: locations and text helpers.
//!
//! The library reads no file and no clock and parses no text: a caller
//! hands in the syntax tree and carries out the steps that a generator
//! run lists.
pub mod cola_actions;
pub mod config_model;
pub mod generation_laws;
pub mod generator;
pub mod hydration;
pub mod model_builder;
pub mod model_laws;
pub mod model_render;
pub mod source_location;
pub mod text;
pub mod tree_laws;
