//! The sign-up and sign-in use cases: password hashing composed with the
//! credential store, and credential checking composed with token
//! issuance.

use vstd::prelude::*;

use crate::errors::ApiError;
use crate::request_inputs::{UserSigninInput, UserSignupInput};
use crate::response_outputs::{SignUpOutput, SigninOutput};
use crate::state::AppState;
use crate::store::{credentials_match, has_username, StoreError};
use crate::token;
use crate::password;

verus! {

/// Signs up a new identity: hashes the password and inserts a credential
/// row. A taken username is refused as a conflict and leaves everything
/// untouched; a fresh username with a password within the hash bound is
/// owed success, and exactly one row is appended, carrying the new id.
pub fn sign_up(state: &mut AppState, input: UserSignupInput) -> (r: Result<SignUpOutput, ApiError>)
    requires
        old(state).store.wf(),
    ensures
        final(state).store.wf(),
        final(state).jwt_secret == old(state).jwt_secret,
        final(state).jwt_expiry_seconds == old(state).jwt_expiry_seconds,
        final(state).store.websites == old(state).store.websites,
        has_username(old(state).store.users@, input.username@) ==> r == Err::<
            SignUpOutput,
            ApiError,
        >(ApiError::Conflict),
        !has_username(old(state).store.users@, input.username@)
            && password::password_within_hash_bound(input.password@) ==> r is Ok,
        r matches Err(e) ==> ({
            &&& *final(state) == *old(state)
            &&& (e == ApiError::Conflict <==> has_username(old(state).store.users@, input.username@))
            &&& (e == ApiError::Conflict || e == ApiError::Internal)
        }),
        r matches Ok(out) ==> ({
            &&& !has_username(old(state).store.users@, input.username@)
            &&& final(state).store.users@.len() == old(state).store.users@.len() + 1
            &&& final(state).store.users@.drop_last() == old(state).store.users@
            &&& final(state).store.users@.last().id@ == out.id@
            &&& final(state).store.users@.last().username@ == input.username@
            &&& password::argon2_matches(
                input.password@,
                final(state).store.users@.last().password@,
            )
        }),
{
    match state.store.sign_up_user(input.username, input.password) {
        Ok(id) => Ok(SignUpOutput { id }),
        Err(StoreError::DuplicateUsername) => Err(ApiError::Conflict),
        Err(_) => Err(ApiError::Internal),
    }
}

/// Signs in: checks the credentials against the store and, exactly when
/// they hold, issues a token asserting the identity's id for the
/// configured time-to-live from `now`. Bad credentials — unknown
/// username or wrong password alike — come back as the same
/// unauthorized signal.
pub fn sign_in(state: &mut AppState, input: UserSigninInput, now: u64) -> (r: Result<
    SigninOutput,
    ApiError,
>)
    requires
        old(state).store.wf(),
        now + old(state).jwt_expiry_seconds <= u64::MAX,
    ensures
        *final(state) == *old(state),
        r matches Ok(out) ==> exists|k: int|
            ({
                &&& 0 <= k < old(state).store.users@.len()
                &&& old(state).store.users@[k].username@ == input.username@
                &&& password::argon2_matches(
                    input.password@,
                    old(state).store.users@[k].password@,
                )
                &&& token::jwt_claims_of(out.jwt@, old(state).jwt_secret@) == Some(
                    (
                        old(state).store.users@[k].id@,
                        (now + old(state).jwt_expiry_seconds) as u64,
                    ),
                )
            }),
        r is Ok <==> credentials_match(old(state).store.users@, input.username@, input.password@),
        r is Err ==> r == Err::<SigninOutput, ApiError>(ApiError::Unauthorized),
{
    let user_id = match state.store.sign_in_user(input.username, input.password) {
        Ok(id) => id,
        Err(_) => {
            return Err(ApiError::Unauthorized);
        },
    };
    let ttl: u64 = state.jwt_expiry_seconds as u64;
    let jwt = token::issue_token(user_id.as_str(), ttl, now, state.jwt_secret.as_str());
    Ok(SigninOutput { jwt })
}

} // verus!
