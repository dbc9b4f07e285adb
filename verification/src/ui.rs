//! What the interactive side holds: the document records and the state of
//! browsing.

pub mod models;
pub mod navigation;
