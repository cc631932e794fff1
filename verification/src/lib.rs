//! Accessor-code synthesizer: given a record definition whose fields may be
//! plain values or access-wrapped values (cells and locks that need a special
//! read/write protocol), this library resolves per-field configuration and
//! emits the source text of one getter and one setter per field.
//!
//! The host front end is expected to hand the engine an already-structured
//! record definition (`model::RecordDef`); the engine returns the generated
//! implementation block as plain text.

pub mod attribute;
pub mod driver;
pub mod laws;
pub mod model;
pub mod scope;
pub mod template;
pub mod text;
