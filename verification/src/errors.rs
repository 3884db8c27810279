//! The undifferentiated outcomes the service boundary reports. Internal
//! components may tell failure kinds apart; the boundary collapses the
//! security-sensitive ones (wrong password vs unknown username, expired
//! vs forged token, foreign-owned vs absent website) so that a caller
//! learns nothing that would aid enumeration or forgery.

use vstd::prelude::*;

verus! {

/// A boundary failure, one per outward signal: a duplicate username
/// (conflict), a missing or invalid proof of identity (unauthorized, one
/// signal for every token failure), a website that is absent or not
/// owned by the requester (not found), and an unexpected server-side
/// failure (internal).
#[derive(Debug, PartialEq, Eq, Structural, Clone, Copy)]
pub enum ApiError {
    Conflict,
    Unauthorized,
    NotFound,
    Internal,
}

} // verus!
