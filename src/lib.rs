//! Declarative diagnostics for closed sets of error cases.
//!
//! A host describes each case of its error union with annotations (message,
//! note, report metadata, a location marker, labels and colours). The schema
//! compiler checks those declarations once; the accessors then resolve any
//! instance of a case into the pieces of a diagnostic, and the renderer hands
//! them to `ariadne`.
pub mod template;
pub mod schema;
pub mod diagnostic;
pub mod engine;
pub mod render;
pub mod laws;
