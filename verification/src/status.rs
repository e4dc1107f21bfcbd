//! The HTTP status codes that the service tells apart.

use vstd::prelude::*;

verus! {

/// The upstream answered with the document that was asked for.
pub const OK: u16 = 200;

/// The request was not acceptable.
pub const BAD_REQUEST: u16 = 400;

/// The resource that was asked for does not exist.
pub const NOT_FOUND: u16 = 404;

/// Something unexpected happened.
pub const INTERNAL_SERVER_ERROR: u16 = 500;

} // verus!
