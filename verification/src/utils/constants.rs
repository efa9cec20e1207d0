//! The fixed configuration of the service.

use vstd::prelude::*;

verus! {

/// The name of the cookie that carries the session token.
pub const JWT_COOKIE_NAME: &'static str = "jwt";

/// The lifetime of a session token, in seconds.
pub const TOKEN_TTL_SECONDS: u64 = 600;

} // verus!
