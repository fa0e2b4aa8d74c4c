//! The code generator: from a model to the source text of one record
//! type per entity shape, with accessors and hydration.
pub mod data;
pub mod derive;
pub mod emit;
pub mod generator_impl;
pub mod naming;
pub mod rendering;
pub mod shapes;
pub mod templates;

pub use generator_impl::{
    CodeGenerator, GenerationError, GenerationMode, GenerationRun, OutputStep,
};
