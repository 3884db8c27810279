//! The plain response payloads the use cases hand back to the boundary.

use vstd::prelude::*;

verus! {

/// Successful sign-in: the issued session token.
pub struct SigninOutput {
    pub jwt: String,
}

/// Successful sign-up: the new identity's opaque id.
pub struct SignUpOutput {
    pub id: String,
}

/// Successful website creation: the new website's opaque id.
pub struct CreateWebsiteOutput {
    pub id: String,
}

/// A fetched website, as the boundary reports it.
pub struct GetWebsiteOutput {
    pub url: String,
    pub id: String,
    pub user_id: String,
}

} // verus!
