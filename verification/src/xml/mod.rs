//! A small document model for XML: elements with attributes, character data
//! and child elements, together with the flat token form in which documents
//! are read and written.

pub mod compose;
pub mod laws;
pub mod parse;
pub mod query;
pub mod reader;
pub mod token;
pub mod tree;
pub mod writer;
