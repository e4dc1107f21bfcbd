//! The species upstream: what its documents hold and what its client makes
//! of an answer.

pub mod client;
pub mod document;
