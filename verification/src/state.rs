//! The process-wide state the use cases run against: the store and the
//! token configuration — a signing secret and a token time-to-live —
//! loaded once at startup and immutable for the process lifetime.

use vstd::prelude::*;

use crate::store::Store;

verus! {

/// The store plus the token configuration. The secret is process
/// configuration, never derived from request data; the expiry is the
/// time-to-live, in seconds, granted to each issued token.
pub struct AppState {
    pub store: Store,
    pub jwt_secret: String,
    pub jwt_expiry_seconds: usize,
}

impl AppState {
    /// Bundles a store with the signing secret and token time-to-live.
    pub fn new(store: Store, jwt_secret: String, jwt_expiry_seconds: usize) -> (s: Self)
        ensures
            s.store == store,
            s.jwt_secret == jwt_secret,
            s.jwt_expiry_seconds == jwt_expiry_seconds,
    {
        AppState { store, jwt_secret, jwt_expiry_seconds }
    }
}

} // verus!
