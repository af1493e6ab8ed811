use frontend::auth::{auth_start, auth_step, publish_user, AuthAction, AuthEvent, AuthState};

const FRESH: &str = "h.eyJleHAiOjE3MDAwMDAwMDAsICJhIjoxfQ.s";

#[test]
fn starts_by_reading_the_access_token() {
    let (s, a) = auth_start();
    assert!(matches!(s, AuthState::AwaitAccessToken));
    assert!(matches!(a, AuthAction::ReadAccessToken));
}

#[test]
fn missing_token_signs_out() {
    let (s, a) = auth_step(AuthState::AwaitAccessToken, AuthEvent::AccessTokenRead { token: None, now_ms: 0 });
    assert!(matches!(s, AuthState::Done));
    assert!(matches!(a, AuthAction::Publish { logged_in: false, username: None }));
}

#[test]
fn fresh_token_fetches_user() {
    let (s, a) = auth_step(
        AuthState::AwaitAccessToken,
        AuthEvent::AccessTokenRead { token: Some(FRESH.to_string()), now_ms: 1_000 },
    );
    assert!(matches!(s, AuthState::AwaitUserReply));
    match a {
        AuthAction::FetchUser { authorization } => assert_eq!(authorization, format!("Bearer {}", FRESH)),
        _ => panic!("expected a user request"),
    }
}

#[test]
fn expired_token_goes_through_refresh() {
    let (s, a) = auth_step(
        AuthState::AwaitAccessToken,
        AuthEvent::AccessTokenRead { token: Some("not-a-jwt".to_string()), now_ms: 1_000 },
    );
    assert!(matches!(s, AuthState::AwaitRefreshToken));
    assert!(matches!(a, AuthAction::ReadRefreshToken));

    let (s, a) = auth_step(s, AuthEvent::RefreshTokenRead { token: Some("r1".to_string()) });
    assert!(matches!(s, AuthState::AwaitRefreshReply));
    match a {
        AuthAction::PostRefresh { refresh_token } => assert_eq!(refresh_token, "r1"),
        _ => panic!("expected a refresh request"),
    }

    let (s, a) = auth_step(s, AuthEvent::RefreshReplied { status: Some(200) });
    assert!(matches!(a, AuthAction::ReadRefreshBody));

    let (s, a) = auth_step(s, AuthEvent::RefreshBodyRead { access: Some("new".to_string()) });
    match &a {
        AuthAction::StoreAccessToken { token } => assert_eq!(token, "new"),
        _ => panic!("expected the new token to be stored"),
    }

    let (s, a) = auth_step(s, AuthEvent::AccessTokenStored);
    assert!(matches!(s, AuthState::AwaitUserReply));
    match a {
        AuthAction::FetchUser { authorization } => assert_eq!(authorization, "Bearer new"),
        _ => panic!("expected a user request"),
    }

    let (s, a) = auth_step(s, AuthEvent::UserReplied { status: Some(200) });
    assert!(matches!(a, AuthAction::ReadUserBody));

    let (s, a) = auth_step(s, AuthEvent::UserBodyRead { body: Some(r#"{"id":1,"username":"ann"}"#.to_string()) });
    assert!(matches!(s, AuthState::Done));
    match a {
        AuthAction::Publish { logged_in, username } => {
            assert!(logged_in);
            assert_eq!(username.as_deref(), Some("ann"));
        }
        _ => panic!("expected a signed-in session"),
    }
}

#[test]
fn refresh_failures_halt() {
    let (_, a) = auth_step(AuthState::AwaitRefreshToken, AuthEvent::RefreshTokenRead { token: None });
    assert!(matches!(a, AuthAction::Halt));
    let (_, a) = auth_step(AuthState::AwaitRefreshReply, AuthEvent::RefreshReplied { status: Some(401) });
    assert!(matches!(a, AuthAction::Halt));
    let (_, a) = auth_step(AuthState::AwaitRefreshReply, AuthEvent::RefreshReplied { status: None });
    assert!(matches!(a, AuthAction::Halt));
    let (_, a) = auth_step(AuthState::AwaitRefreshBody, AuthEvent::RefreshBodyRead { access: None });
    assert!(matches!(a, AuthAction::Halt));
}

#[test]
fn user_reply_outcomes() {
    let (_, a) = auth_step(AuthState::AwaitUserReply, AuthEvent::UserReplied { status: Some(500) });
    assert!(matches!(a, AuthAction::Publish { logged_in: false, username: None }));
    let (_, a) = auth_step(AuthState::AwaitUserReply, AuthEvent::UserReplied { status: None });
    assert!(matches!(a, AuthAction::Publish { logged_in: false, username: None }));
    let (_, a) = auth_step(AuthState::AwaitUserBody, AuthEvent::UserBodyRead { body: None });
    assert!(matches!(a, AuthAction::Halt));
    assert!(matches!(publish_user("not json"), AuthAction::Halt));
    assert!(matches!(publish_user(r#"{"username": 7}"#), AuthAction::Halt));
    assert!(matches!(publish_user(r#"{"name": "bob"}"#), AuthAction::Halt));
}

#[test]
fn out_of_order_event_halts() {
    let (s, a) = auth_step(AuthState::Done, AuthEvent::AccessTokenStored);
    assert!(matches!(s, AuthState::Done));
    assert!(matches!(a, AuthAction::Halt));
    let (_, a) = auth_step(AuthState::AwaitUserBody, AuthEvent::AccessTokenStored);
    assert!(matches!(a, AuthAction::Halt));
}

#[test]
fn one_refresh_and_one_user_request_per_run() {
    // Drive a whole run through the refresh path and count the requests.
    let (mut s, mut a) = auth_start();
    let events = vec![
        AuthEvent::AccessTokenRead { token: Some("old".to_string()), now_ms: 0 },
        AuthEvent::RefreshTokenRead { token: Some("r".to_string()) },
        AuthEvent::RefreshReplied { status: Some(200) },
        AuthEvent::RefreshBodyRead { access: Some("new".to_string()) },
        AuthEvent::AccessTokenStored,
        AuthEvent::UserReplied { status: Some(200) },
        AuthEvent::UserBodyRead { body: Some(r#"{"username":"u"}"#.to_string()) },
        AuthEvent::AccessTokenStored,
    ];
    let (mut posts, mut gets) = (0, 0);
    for e in events {
        let (next, act) = auth_step(s, e);
        if matches!(act, AuthAction::PostRefresh { .. }) {
            posts += 1;
        }
        if matches!(act, AuthAction::FetchUser { .. }) {
            gets += 1;
        }
        s = next;
        a = act;
    }
    assert_eq!((posts, gets), (1, 1));
    assert!(matches!(a, AuthAction::Halt));
}
