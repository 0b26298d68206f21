use session_auth::clock::Timestamp;
use session_auth::config::Config;
use session_auth::errors::{MyError, StoreError};
use session_auth::jwt::{decode_access_token, decode_refresh_token, Tokens};
use session_auth::jwt_extractor::{BearerToken, RefreshTokenDecoded};
use session_auth::password_hashing::verify;
use session_auth::session::{
    create, create_at, create_session, create_session_at, destroy_session, destroy_session_at,
    update_session, update_session_at,
};
use session_auth::user::{SessionState, User};

fn session_config() -> Config {
    Config {
        host: "127.0.0.1".to_string(),
        port: "9099".to_string(),
        database_url: "postgres://localhost/auth".to_string(),
        access_token_secret: "access secret".to_string(),
        refresh_token_secret: "refresh secret".to_string(),
        frontend_origins: Vec::new(),
    }
}

fn session_now() -> Timestamp {
    Timestamp::new(chrono::Utc::now().timestamp(), 0)
}

fn after(t: Timestamp, secs: i64) -> Timestamp {
    Timestamp::new(t.secs + secs, t.nanos)
}

fn bearer(token: &str) -> BearerToken {
    let header = format!("Bearer {token}");
    BearerToken::from_request(Some(&header)).expect("a bearer token")
}

fn alice(now: Timestamp) -> (User, Tokens) {
    create_at("id-1".to_string(), "alice".to_string(), "Abcdef12".to_string(), &session_config(), now)
        .expect("an account")
}

fn password_error() -> MyError {
    MyError::invalid_field("password", "must be 8-30 characters in alphabet, numbers or symbols")
}

fn name_error() -> MyError {
    MyError::invalid_field("name", "must be 3-15 characters in alphabet, numbers or symbols")
}

#[test]
fn create_refuses_a_short_password() {
    let r = create_at("id-1".to_string(), "alice".to_string(), "Abcdef1".to_string(), &session_config(), session_now());
    assert_eq!(r, Err(password_error()));
    assert_eq!(r.unwrap_err().status(), 422);
}

#[test]
fn create_refuses_a_password_with_a_foreign_character() {
    for password in ["Abcdef 12", "Abcdef12-", "\u{e9}bcdef12", "Abcdef12\n"] {
        let r = create_at("id-1".to_string(), "alice".to_string(), password.to_string(), &session_config(), session_now());
        assert_eq!(r, Err(password_error()));
    }
}

#[test]
fn create_refuses_a_long_password() {
    let r = create_at("id-1".to_string(), "alice".to_string(), "a".repeat(31), &session_config(), session_now());
    assert_eq!(r, Err(password_error()));
}

#[test]
fn create_names_the_password_first() {
    let r = create_at("id-1".to_string(), "a".to_string(), "short".to_string(), &session_config(), session_now());
    assert_eq!(r, Err(password_error()));
}

#[test]
fn create_refuses_a_bad_name() {
    for name in ["al", "alice smith", "abcdefghijklmnop", ""] {
        let r = create_at("id-1".to_string(), name.to_string(), "Abcdef12".to_string(), &session_config(), session_now());
        assert_eq!(r, Err(name_error()));
    }
}

#[test]
fn create_makes_a_record_with_an_active_session() {
    let now = Timestamp::new(chrono::Utc::now().timestamp(), 123);
    let (user, tokens) = alice(now);
    assert_eq!(user.id, "id-1");
    assert_eq!(user.name, "alice");
    assert!(!user.password_hash.is_empty());
    assert_ne!(user.password_hash, "Abcdef12");
    assert_eq!(verify("Abcdef12", &user.password_hash), Ok(()));
    assert_eq!(user.created_at, now);
    assert_eq!(user.updated_at, now);
    assert_eq!(user.state(), SessionState::ActiveSession);
    let stored = user.refresh_token_hash.clone().expect("a stored hash");
    assert_ne!(stored, tokens.refresh_token);
    assert_eq!(verify(&tokens.refresh_token, &stored), Ok(()));
    let access = decode_access_token(&tokens.access_token, &session_config()).expect("claims");
    assert_eq!(access.sub, "id-1");
    assert_eq!(access.id, "id-1");
    assert_eq!(access.name, "alice");
    assert_eq!(access.exp, now.secs + 1_800);
    let refresh = decode_refresh_token(&tokens.refresh_token, &session_config()).expect("claims");
    assert_eq!(refresh.sub, "id-1");
    assert_eq!(refresh.exp, now.secs + 1_209_600);
}

#[test]
fn create_by_the_clock() {
    let before = chrono::Utc::now().timestamp();
    let (user, tokens) =
        create("id-1".to_string(), "alice".to_string(), "Abcdef12".to_string(), &session_config())
            .expect("an account");
    let after = chrono::Utc::now().timestamp();
    assert!(before <= user.created_at.secs && user.created_at.secs <= after);
    assert_eq!(user.created_at, user.updated_at);
    assert!(user.created_at.nanos < 1_000_000_000);
    assert!(decode_access_token(&tokens.access_token, &session_config()).is_ok());
    assert_eq!(
        create("id-1".to_string(), "alice".to_string(), "short".to_string(), &session_config()),
        Err(password_error())
    );
}

#[test]
fn login_with_the_password_succeeds() {
    let now = session_now();
    let (user, first) = alice(now);
    let (user, second) = create_session_at(
        Ok(Some(user)),
        "Abcdef12".to_string(),
        &session_config(),
        after(now, 10),
    )
    .expect("a session");
    assert_ne!(first, second);
    assert_eq!(user.updated_at, after(now, 10));
    assert_eq!(user.created_at, now);
    let stored = user.refresh_token_hash.clone().expect("a stored hash");
    assert_eq!(verify(&second.refresh_token, &stored), Ok(()));
    assert!(verify(&first.refresh_token, &stored).is_err());
    assert!(decode_access_token(&second.access_token, &session_config()).is_ok());
}

#[test]
fn login_with_a_wrong_password_is_unauthorized() {
    let (user, _) = alice(session_now());
    let r = create_session_at(Ok(Some(user)), "wrong".to_string(), &session_config(), session_now());
    assert_eq!(r, Err(MyError::Unauthorized("Name and password do not match".to_string())));
    assert_eq!(r.unwrap_err().status(), 401);
}

#[test]
fn login_under_an_unknown_name_fails_like_a_wrong_password() {
    let (user, _) = alice(session_now());
    let wrong = create_session_at(Ok(Some(user)), "wrong".to_string(), &session_config(), session_now());
    let unknown = create_session_at(Ok(None), "x".to_string(), &session_config(), session_now());
    assert!(unknown.is_err());
    assert_eq!(unknown, wrong);
}

#[test]
fn login_by_the_clock() {
    let (user, _) = alice(session_now());
    let (user, tokens) =
        create_session(Ok(Some(user)), "Abcdef12".to_string(), &session_config()).expect("a session");
    assert_eq!(user.state(), SessionState::ActiveSession);
    assert!(decode_refresh_token(&tokens.refresh_token, &session_config()).is_ok());
    assert_eq!(
        create_session(Ok(None), "Abcdef12".to_string(), &session_config()),
        Err(MyError::credentials_mismatch())
    );
}

#[test]
fn a_fault_of_the_lookup_shows_as_its_kind() {
    let now = session_now();
    assert_eq!(
        create_session_at(Err(StoreError::Other), "Abcdef12".to_string(), &session_config(), now),
        Err(MyError::InternalServerError)
    );
    assert_eq!(
        update_session_at(Err(StoreError::RowNotFound), bearer("t"), &session_config(), now),
        Err(MyError::NotFound("Entity not found".to_string()))
    );
    assert_eq!(
        update_session_at(Err(StoreError::Other), bearer("t"), &session_config(), now),
        Err(MyError::InternalServerError)
    );
    assert_eq!(
        destroy_session_at(Err(StoreError::RowNotFound), now),
        Err(MyError::NotFound("Entity not found".to_string()))
    );
    assert_eq!(destroy_session_at(Err(StoreError::Other), now), Err(MyError::InternalServerError));
}

#[test]
fn a_refresh_token_renews_the_session_once() {
    let now = session_now();
    let (user, first) = alice(now);
    let header = format!("Bearer {}", first.refresh_token);
    let decoded = RefreshTokenDecoded::from_request(Some(&header), &session_config()).expect("claims");
    assert_eq!(decoded.into_auth().id, user.id);

    let (user, second) =
        update_session_at(Ok(user), bearer(&first.refresh_token), &session_config(), after(now, 1))
            .expect("a renewed session");
    assert_ne!(second.refresh_token, first.refresh_token);
    assert_ne!(second.access_token, first.access_token);
    assert_eq!(user.updated_at, after(now, 1));
    assert!(decode_refresh_token(&second.refresh_token, &session_config()).is_ok());

    // the used token is still well signed and has not expired, and is refused all the same
    assert!(decode_refresh_token(&first.refresh_token, &session_config()).is_ok());
    let again = update_session_at(Ok(user.clone()), bearer(&first.refresh_token), &session_config(), after(now, 2));
    assert_eq!(again, Err(MyError::Unauthorized("Refresh token do not match".to_string())));
    assert_eq!(again.unwrap_err().status(), 401);

    // its successor renews the session
    let third = update_session_at(Ok(user), bearer(&second.refresh_token), &session_config(), after(now, 3));
    assert!(third.is_ok());
}

#[test]
fn an_access_token_does_not_renew_the_session() {
    let now = session_now();
    let (user, tokens) = alice(now);
    let r = update_session_at(Ok(user), bearer(&tokens.access_token), &session_config(), after(now, 1));
    assert_eq!(r, Err(MyError::refresh_mismatch()));
}

#[test]
fn a_renewal_within_the_second_of_issue_hands_out_the_same_pair() {
    let now = session_now();
    let (user, first) = alice(now);
    let (_, second) = update_session_at(Ok(user), bearer(&first.refresh_token), &session_config(), now)
        .expect("a renewed session");
    assert_eq!(first, second);
}

#[test]
fn refresh_by_the_clock() {
    let (user, first) = alice(Timestamp::new(chrono::Utc::now().timestamp() - 5, 0));
    let (user, second) =
        update_session(Ok(user), bearer(&first.refresh_token), &session_config()).expect("a renewed session");
    assert_ne!(first.refresh_token, second.refresh_token);
    assert_eq!(
        update_session(Ok(user), bearer(&first.refresh_token), &session_config()),
        Err(MyError::refresh_mismatch())
    );
}

#[test]
fn after_a_logout_no_refresh_token_renews_the_session() {
    let now = session_now();
    let (user, tokens) = alice(now);
    let user = destroy_session_at(Ok(user), after(now, 1)).expect("a record");
    assert_eq!(user.refresh_token_hash, None);
    assert_eq!(user.state(), SessionState::NoSession);
    assert_eq!(user.updated_at, after(now, 1));
    assert_eq!(user.created_at, now);
    assert_eq!(verify("Abcdef12", &user.password_hash), Ok(()));

    assert!(decode_refresh_token(&tokens.refresh_token, &session_config()).is_ok());
    let r = update_session_at(Ok(user.clone()), bearer(&tokens.refresh_token), &session_config(), after(now, 2));
    assert_eq!(r, Err(MyError::Unauthorized("Refresh token do not match".to_string())));

    // the access token is not blocked: it verifies until it expires
    assert!(decode_access_token(&tokens.access_token, &session_config()).is_ok());

    // a login opens a new session
    let (user, _) =
        create_session_at(Ok(Some(user)), "Abcdef12".to_string(), &session_config(), after(now, 3))
            .expect("a session");
    assert_eq!(user.state(), SessionState::ActiveSession);
}

#[test]
fn logout_by_the_clock() {
    let (user, _) = alice(Timestamp::new(0, 0));
    let user = destroy_session(Ok(user)).expect("a record");
    assert_eq!(user.state(), SessionState::NoSession);
    assert!(user.updated_at.secs > 0);
    assert_eq!(user.created_at, Timestamp::new(0, 0));
}

#[test]
fn the_time_of_the_update_never_moves_back() {
    let now = session_now();
    let (user, _) = alice(now);
    let user = destroy_session_at(Ok(user), Timestamp::new(now.secs - 100, 0)).expect("a record");
    assert_eq!(user.updated_at, now);
    let user = destroy_session_at(Ok(user), Timestamp::new(now.secs, 5)).expect("a record");
    assert_eq!(user.updated_at, Timestamp::new(now.secs, 5));
    let user = destroy_session_at(Ok(user), Timestamp::new(now.secs, 4)).expect("a record");
    assert_eq!(user.updated_at, Timestamp::new(now.secs, 5));
}
