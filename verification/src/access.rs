//! The access guard: the one check that stands between an inbound
//! request and every owner-scoped operation. It takes the authorization
//! header verbatim as the token, verifies it against the process secret
//! and the clock, and yields the asserted identity — or refuses with a
//! single undifferentiated unauthorized signal, whatever went wrong.
//! Tokens are stateless, so the check runs afresh on every request.

use vstd::prelude::*;

use crate::errors::ApiError;
use crate::token;

verus! {

/// The identity a verified token asserts for the current request.
pub struct UserData(pub String);

/// The token a request carries, if any: the authorization header's value,
/// used verbatim.
pub open spec fn header_view(header: Option<&String>) -> Option<Seq<char>> {
    match header {
        Some(s) => Some(s@),
        None => None,
    }
}

/// Whether a request carrying `header` is authorized under `secret` at
/// clock reading `now`: a header is present and its token is accepted.
pub open spec fn header_authorized(header: Option<Seq<char>>, secret: Seq<char>, now: u64) -> bool {
    header matches Some(t) && token::token_accepted(t, secret, now)
}

impl UserData {
    /// Verifies the token in the authorization header and yields the
    /// identity it asserts. Succeeds exactly when a header is present
    /// and its token is accepted under `secret` at `now`; a missing
    /// header, a malformed or forged token and an expired one all come
    /// back as the same unauthorized signal, and the request must not
    /// proceed to any owned operation.
    pub fn from_header(header: Option<&String>, secret: &str, now: u64) -> (r: Result<
        UserData,
        ApiError,
    >)
        ensures
            r matches Ok(u) ==> header_authorized(header_view(header), secret@, now) && u.0@
                == token::token_subject(header_view(header)->Some_0, secret@),
            r is Err ==> r == Err::<UserData, ApiError>(ApiError::Unauthorized)
                && !header_authorized(header_view(header), secret@, now),
    {
        let tok = match header {
            Some(t) => t,
            None => {
                return Err(ApiError::Unauthorized);
            },
        };
        match token::verify_token(tok.as_str(), secret, now) {
            Ok(sub) => Ok(UserData(sub)),
            Err(_) => Err(ApiError::Unauthorized),
        }
    }
}

} // verus!
