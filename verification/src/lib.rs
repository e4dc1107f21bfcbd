//! The core of a service that tells what is known about a species of
//! Pokémon, as it is or with its description translated into the speech of
//! Yoda or of Shakespeare.
//!
//! The service asks two upstreams: one for the species, one for the
//! translation. This library holds everything that is decided on the way:
//! which address to ask, what an answer means, which dialect a species calls
//! for, and how a failure is reported. It sends nothing itself. A transport
//! makes each call and hands the status and the body of the answer to the
//! client that asked for it.

pub mod error;
pub mod funtranslations_api;
pub mod handler;
pub mod json;
pub mod poke_api;
pub mod request;
pub mod status;
pub mod text;
pub mod transport;
