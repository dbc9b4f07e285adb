//! What comes from the remote service and how it is taken in.

pub mod coordinator;
pub mod decoder;
pub mod markup;
pub mod pipeline;
pub mod search;
