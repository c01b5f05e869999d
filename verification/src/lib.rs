//! Presence validation for configuration structs: from the definition of a
//! struct whose fields may be marked `#[validate(mandatory)]`, derive the
//! validation method, the validated wrapper type and its accessors.
//!
//! The stages, in order: [`syntax`] holds the definition, [`scanner`] reads
//! the markers, [`analyzer`] reads the types, [`descriptor`] holds the
//! classified fields, [`synthesizer`] makes the checks and the accessors,
//! [`driver`] runs the stages and [`emit`] writes the result as source text.
//! [`runtime`] says what the generated code does on an instance, [`laws`]
//! what holds of it for every struct, and [`settings`] is one struct with its
//! validation written out.

pub mod analyzer;
pub mod descriptor;
pub mod driver;
pub mod emit;
pub mod laws;
pub mod runtime;
pub mod scanner;
pub mod settings;
pub mod syntax;
pub mod synthesizer;
