//! The plain request payloads the boundary hands to the use cases.

use vstd::prelude::*;

verus! {

/// Payload of a create-website request.
pub struct CreateWebsiteInput {
    pub url: String,
}

/// Payload of a sign-up request. The password arrives raw and is hashed
/// before anything is stored.
pub struct UserSignupInput {
    pub username: String,
    pub password: String,
}

/// Payload of a sign-in request.
pub struct UserSigninInput {
    pub username: String,
    pub password: String,
}

} // verus!
