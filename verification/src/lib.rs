//! Authentication and authorization core for a small website-registry
//! service: salted one-way password hashing, signed time-bounded session
//! tokens, credential and website stores with uniqueness and ownership
//! invariants, and the sign-up / sign-in / owner-scoped website flows
//! that compose them.

pub mod access;
pub mod errors;
pub mod password;
pub mod request_inputs;
pub mod response_outputs;
pub mod state;
pub mod store;
pub mod token;
pub mod user_auth;
pub mod website;
