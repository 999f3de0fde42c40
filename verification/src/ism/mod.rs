//! Smooth-Streaming server manifests: the typed model of the SMIL document,
//! its reading from XML, and the lists of media sources it names.

pub mod decode;
pub mod manifest;
pub mod message;
pub mod schema;
