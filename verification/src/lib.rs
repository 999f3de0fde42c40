//! Editing and querying of streaming manifests: subtitle tracks in MPEG-DASH
//! presentation descriptions, and media sources of Smooth-Streaming documents.

pub mod dash;
pub mod error;
pub mod ism;
pub mod parameters;
pub mod path;
pub mod text;
pub mod utils;
pub mod xml;
