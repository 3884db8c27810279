//! The owner-scoped website use cases: every one of them runs the access
//! guard first, and only a request whose token is accepted reaches the
//! store.

use vstd::prelude::*;

use crate::access::{header_authorized, header_view, UserData};
use crate::errors::ApiError;
use crate::request_inputs::CreateWebsiteInput;
use crate::response_outputs::{CreateWebsiteOutput, GetWebsiteOutput};
use crate::state::AppState;
use crate::store::{lookup_website, StoreError};
use crate::token::token_subject;

verus! {

/// Creates a website owned by the identity the request's token asserts.
/// An unauthorized request changes nothing and learns nothing; an
/// authorized one appends exactly one row, owned by the requester and
/// under an id no stored row carries, and gets that id back. The one
/// other outcome is the store refusing a colliding id draw, surfaced as
/// the generic server-side failure.
pub fn create_website(
    state: &mut AppState,
    header: Option<&String>,
    input: CreateWebsiteInput,
    now: u64,
) -> (r: Result<CreateWebsiteOutput, ApiError>)
    requires
        old(state).store.wf(),
    ensures
        final(state).store.wf(),
        final(state).jwt_secret == old(state).jwt_secret,
        final(state).jwt_expiry_seconds == old(state).jwt_expiry_seconds,
        final(state).store.users == old(state).store.users,
        !header_authorized(header_view(header), old(state).jwt_secret@, now) ==> r == Err::<
            CreateWebsiteOutput,
            ApiError,
        >(ApiError::Unauthorized),
        r matches Err(e) ==> ({
            &&& *final(state) == *old(state)
            &&& (e == ApiError::Unauthorized <==> !header_authorized(
                header_view(header),
                old(state).jwt_secret@,
                now,
            ))
            &&& (e == ApiError::Unauthorized || e == ApiError::Internal)
        }),
        r matches Ok(out) ==> ({
            &&& header_authorized(header_view(header), old(state).jwt_secret@, now)
            &&& final(state).store.websites@.len() == old(state).store.websites@.len() + 1
            &&& final(state).store.websites@.drop_last() == old(state).store.websites@
            &&& final(state).store.websites@.last().url@ == input.url@
            &&& final(state).store.websites@.last().user_id@ == token_subject(
                header_view(header)->Some_0,
                old(state).jwt_secret@,
            )
            &&& out.id@ == final(state).store.websites@.last().id@
            &&& forall|k: int|
                0 <= k < old(state).store.websites@.len() ==> old(state).store.websites@[k].id@
                    != out.id@
        }),
{
    let user = match UserData::from_header(header, state.jwt_secret.as_str(), now) {
        Ok(u) => u,
        Err(_) => {
            return Err(ApiError::Unauthorized);
        },
    };
    let w = match state.store.create_website(user.0, input.url) {
        Ok(w) => w,
        Err(_) => {
            return Err(ApiError::Internal);
        },
    };
    Ok(CreateWebsiteOutput { id: w.id })
}

/// Fetches a website by id, scoped to the identity the request's token
/// asserts. An unauthorized request is refused outright; an authorized
/// one gets the first row carrying that id and owned by the requester,
/// or not-found — a row owned by anyone else answers exactly as an
/// absent one would.
pub fn get_website(state: &mut AppState, header: Option<&String>, website_id: String, now: u64) -> (r:
    Result<GetWebsiteOutput, ApiError>)
    requires
        old(state).store.wf(),
    ensures
        *final(state) == *old(state),
        !header_authorized(header_view(header), old(state).jwt_secret@, now) ==> r == Err::<
            GetWebsiteOutput,
            ApiError,
        >(ApiError::Unauthorized),
        header_authorized(header_view(header), old(state).jwt_secret@, now) ==> ({
            let requester = token_subject(header_view(header)->Some_0, old(state).jwt_secret@);
            match lookup_website(old(state).store.websites@, website_id@, requester) {
                Some(w) => r matches Ok(out) && out.id@ == w.id@ && out.url@ == w.url@
                    && out.user_id@ == w.user_id@,
                None => r == Err::<GetWebsiteOutput, ApiError>(ApiError::NotFound),
            }
        }),
{
    let user = match UserData::from_header(header, state.jwt_secret.as_str(), now) {
        Ok(u) => u,
        Err(_) => {
            return Err(ApiError::Unauthorized);
        },
    };
    match state.store.get_website(website_id, user.0) {
        Ok(w) => Ok(GetWebsiteOutput { url: w.url, id: w.id, user_id: w.user_id }),
        Err(_) => Err(ApiError::NotFound),
    }
}

} // verus!
