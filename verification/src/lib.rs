//! Content acquisition and document model of a terminal encyclopedia browser.
//!
//! The crate turns loosely typed answers of a remote content service into
//! strict records, keeps the document that is on screen together with the
//! browsing history, and decides which of several answers in flight may
//! still be shown. Every function carries a contract that states its result.

pub mod cli;
pub mod error;
pub mod ui;
pub mod wiki;
