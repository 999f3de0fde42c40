//! MPEG-DASH media presentation descriptions: the typed model, its binding to
//! XML, and the operations that put a subtitle track into a manifest.

pub mod decode;
pub mod encode;
pub mod laws;
pub mod manifest;
pub mod message;
pub mod names;
pub mod representation;
pub mod schema;
pub mod subtitle;
