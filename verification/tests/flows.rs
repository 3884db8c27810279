use vigil::access::UserData;
use vigil::errors::ApiError;
use vigil::request_inputs::{CreateWebsiteInput, UserSigninInput, UserSignupInput};
use vigil::state::AppState;
use vigil::store::Store;
use vigil::user_auth::{sign_in, sign_up};
use vigil::website::{create_website, get_website};

fn fresh_state() -> AppState {
    AppState::new(Store::new(), "test-secret".to_string(), 3600)
}

fn signup(state: &mut AppState, username: &str, password: &str) -> Result<String, ApiError> {
    sign_up(
        state,
        UserSignupInput {
            username: username.to_string(),
            password: password.to_string(),
        },
    )
    .map(|out| out.id)
}

fn signin(state: &mut AppState, username: &str, password: &str, now: u64) -> Result<String, ApiError> {
    sign_in(
        state,
        UserSigninInput {
            username: username.to_string(),
            password: password.to_string(),
        },
        now,
    )
    .map(|out| out.jwt)
}

#[test]
fn duplicate_signup_conflicts_and_keeps_first_identity() {
    let mut state = fresh_state();
    let id1 = signup(&mut state, "alice", "pw1").unwrap();
    let second = signup(&mut state, "alice", "pw2");
    assert!(matches!(second, Err(ApiError::Conflict)));
    assert_eq!(state.store.users.len(), 1);
    assert_eq!(state.store.users[0].id, id1);
    assert_eq!(state.store.users[0].username, "alice");
    // the first credential still signs in, with the first password only
    assert!(signin(&mut state, "alice", "pw1", 100).is_ok());
    assert!(matches!(
        signin(&mut state, "alice", "pw2", 100),
        Err(ApiError::Unauthorized)
    ));
}

#[test]
fn signin_token_authenticates_as_the_signed_up_identity() {
    let mut state = fresh_state();
    let id = signup(&mut state, "alice", "pw1").unwrap();
    let jwt = signin(&mut state, "alice", "pw1", 100).unwrap();
    let UserData(subject) = UserData::from_header(Some(&jwt), "test-secret", 150).unwrap();
    assert_eq!(subject, id);
}

#[test]
fn signin_rejects_bad_credentials_with_one_signal() {
    let mut state = fresh_state();
    signup(&mut state, "alice", "pw1").unwrap();
    let wrong_password = signin(&mut state, "alice", "pw2", 100);
    let unknown_user = signin(&mut state, "nobody", "pw1", 100);
    assert!(matches!(wrong_password, Err(ApiError::Unauthorized)));
    assert!(matches!(unknown_user, Err(ApiError::Unauthorized)));
}

#[test]
fn signin_token_expires_after_configured_ttl() {
    let mut state = AppState::new(Store::new(), "test-secret".to_string(), 60);
    signup(&mut state, "alice", "pw1").unwrap();
    let jwt = signin(&mut state, "alice", "pw1", 1000).unwrap();
    assert!(UserData::from_header(Some(&jwt), "test-secret", 1059).is_ok());
    assert!(matches!(
        UserData::from_header(Some(&jwt), "test-secret", 1060),
        Err(ApiError::Unauthorized)
    ));
}

#[test]
fn guard_rejects_missing_header_and_wrong_secret() {
    let mut state = fresh_state();
    signup(&mut state, "alice", "pw1").unwrap();
    let jwt = signin(&mut state, "alice", "pw1", 100).unwrap();
    assert!(matches!(
        UserData::from_header(None, "test-secret", 100),
        Err(ApiError::Unauthorized)
    ));
    assert!(matches!(
        UserData::from_header(Some(&jwt), "other-secret", 100),
        Err(ApiError::Unauthorized)
    ));
}

#[test]
fn websites_are_owner_scoped() {
    let mut state = fresh_state();
    let id_a = signup(&mut state, "alice", "pw-a").unwrap();
    signup(&mut state, "bob", "pw-b").unwrap();
    let jwt_a = signin(&mut state, "alice", "pw-a", 100).unwrap();
    let jwt_b = signin(&mut state, "bob", "pw-b", 100).unwrap();

    let created = create_website(
        &mut state,
        Some(&jwt_a),
        CreateWebsiteInput {
            url: "https://example.test".to_string(),
        },
        100,
    )
    .unwrap();

    let as_bob = get_website(&mut state, Some(&jwt_b), created.id.clone(), 100);
    assert!(matches!(as_bob, Err(ApiError::NotFound)));

    let as_alice = get_website(&mut state, Some(&jwt_a), created.id.clone(), 100).unwrap();
    assert_eq!(as_alice.id, created.id);
    assert_eq!(as_alice.url, "https://example.test");
    assert_eq!(as_alice.user_id, id_a);
}

#[test]
fn website_operations_demand_authorization() {
    let mut state = fresh_state();
    signup(&mut state, "alice", "pw1").unwrap();
    let refused = create_website(
        &mut state,
        None,
        CreateWebsiteInput {
            url: "https://example.test".to_string(),
        },
        100,
    );
    assert!(matches!(refused, Err(ApiError::Unauthorized)));
    assert_eq!(state.store.websites.len(), 0);

    let jwt = signin(&mut state, "alice", "pw1", 100).unwrap();
    // the token is stateless and re-verified every call: once expired it
    // opens nothing, whatever it opened before
    let late = get_website(&mut state, Some(&jwt), "any-id".to_string(), 100 + 3600);
    assert!(matches!(late, Err(ApiError::Unauthorized)));
}

#[test]
fn fetch_of_absent_website_is_not_found() {
    let mut state = fresh_state();
    signup(&mut state, "alice", "pw1").unwrap();
    let jwt = signin(&mut state, "alice", "pw1", 100).unwrap();
    let missing = get_website(&mut state, Some(&jwt), "no-such-id".to_string(), 100);
    assert!(matches!(missing, Err(ApiError::NotFound)));
}

#[test]
fn repeated_signups_leave_exactly_one_row() {
    let mut state = fresh_state();
    let mut successes = 0;
    let mut conflicts = 0;
    for attempt in 0..5 {
        match signup(&mut state, "alice", &format!("pw-{}", attempt)) {
            Ok(_) => successes += 1,
            Err(ApiError::Conflict) => conflicts += 1,
            Err(other) => panic!("unexpected outcome: {:?}", other),
        }
    }
    assert_eq!(successes, 1);
    assert_eq!(conflicts, 4);
    let rows = state
        .store
        .users
        .iter()
        .filter(|u| u.username == "alice")
        .count();
    assert_eq!(rows, 1);
}

#[test]
fn website_ids_are_fresh_opaque_uuids() {
    let mut state = fresh_state();
    signup(&mut state, "alice", "pw1").unwrap();
    let jwt = signin(&mut state, "alice", "pw1", 100).unwrap();
    let first = create_website(
        &mut state,
        Some(&jwt),
        CreateWebsiteInput {
            url: "https://one.test".to_string(),
        },
        100,
    )
    .unwrap();
    let second = create_website(
        &mut state,
        Some(&jwt),
        CreateWebsiteInput {
            url: "https://two.test".to_string(),
        },
        100,
    )
    .unwrap();
    assert_eq!(first.id.len(), 36);
    assert_eq!(second.id.len(), 36);
    assert_ne!(first.id, second.id);
}
