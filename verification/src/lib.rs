//! Structured extraction from a chat language model.
//!
//! A caller describes the shape of the value it wants (a record with
//! primitive, optional, list, nested-record and enumeration fields), the
//! library compiles that description into a wire schema, instructs the
//! model to answer through a single tool call conforming to the schema,
//! decodes and validates the answer, and retries with corrective feedback
//! until the answer is acceptable or the attempt budget is spent.

pub mod descriptor;
pub mod engine;
pub mod schema;
pub mod wire;
