use auth_service::auth::Authenticator;
use auth_service::error::AuthError;
use auth_service::sessions::SessionsTranstient;
use auth_service::users::UsersTransient;

#[test]
fn sign_up_should_succeed_if_user_does_not_exist() {
    let mut auth = Authenticator::new(UsersTransient::new(), SessionsTranstient::new());

    let response = auth.sign_up("username", "password");

    assert!(response.is_ok());
}

#[test]
fn sign_up_should_fail_if_username_exists() {
    let mut auth = Authenticator::new(UsersTransient::new(), SessionsTranstient::new());

    auth.sign_up("username", "password")
        .expect("A user should be signed up");

    let response = auth.sign_up("username", "password");

    assert!(response.is_err());
}

#[test]
fn sign_in_should_succeed_if_user_exists() {
    let mut auth = Authenticator::new(UsersTransient::new(), SessionsTranstient::new());

    auth.sign_up("username", "password")
        .expect("A user should be signed up");

    let response = auth.sign_in("username", "password");

    assert!(response.is_ok());
}

#[test]
fn auth_sign_in_should_fail_if_user_does_not_exist() {
    let mut auth = Authenticator::new(UsersTransient::new(), SessionsTranstient::new());

    let response = auth.sign_in("username", "password");

    assert!(response.is_err());
}

#[test]
fn sign_out_should_succeed_if_session_exists() {
    let mut auth = Authenticator::new(UsersTransient::new(), SessionsTranstient::new());

    auth.sign_up("username", "password")
        .expect("A user should be signed up");

    let (session, _) = auth
        .sign_in("username", "password")
        .expect("A session should be created");

    let response = auth.sign_out(&session);

    assert!(response.is_ok());
}

#[test]
fn auth_sign_out_should_fail_if_session_does_not_exist() {
    let mut auth = Authenticator::new(UsersTransient::new(), SessionsTranstient::new());

    let response = auth.sign_out("does-not-exist");

    assert!(response.is_err());
}

#[test]
fn alice_and_bob_scenario() {
    let mut auth = Authenticator::new(UsersTransient::new(), SessionsTranstient::new());

    assert_eq!(auth.sign_in("bob", "x"), Err(AuthError::InvalidCredentials));
    assert_eq!(auth.sign_up("alice", "secret"), Ok(()));
    assert_eq!(auth.sign_up("alice", "other"), Err(AuthError::DuplicateUsername));

    let (token, id) = auth.sign_in("alice", "secret").expect("alice signs in");
    assert!(!token.is_empty());
    assert!(!id.is_empty());
    assert_eq!(auth.sign_in("alice", "wrong"), Err(AuthError::InvalidCredentials));

    assert_eq!(auth.sign_out(&token), Ok(()));
    assert_eq!(auth.sign_out(&token), Err(AuthError::SessionNotFound));
}

#[test]
fn sign_in_returns_the_same_user_id_each_time() {
    let mut auth = Authenticator::new(UsersTransient::new(), SessionsTranstient::new());
    auth.sign_up("carol", "pw").expect("signed up");

    let (_, first) = auth.sign_in("carol", "pw").expect("first sign-in");
    let (_, second) = auth.sign_in("carol", "pw").expect("second sign-in");

    assert_eq!(first, second);
}

#[test]
fn tokens_differ_across_sign_ins() {
    let mut auth = Authenticator::new(UsersTransient::new(), SessionsTranstient::new());
    auth.sign_up("dave", "pw").expect("signed up");

    let (first, _) = auth.sign_in("dave", "pw").expect("first sign-in");
    let (second, _) = auth.sign_in("dave", "pw").expect("second sign-in");

    assert_ne!(first, second);
    assert_eq!(first.len(), 36);
    assert_eq!(auth.sign_out(&first), Ok(()));
    assert_eq!(auth.sign_out(&second), Ok(()));
}

#[test]
fn repeated_sign_ups_of_one_username_succeed_once() {
    let mut auth = Authenticator::new(UsersTransient::new(), SessionsTranstient::new());

    let results: Vec<Result<(), AuthError>> =
        (0..4).map(|i| auth.sign_up("erin", &format!("pw{}", i))).collect();

    assert_eq!(results[0], Ok(()));
    for r in &results[1..] {
        assert_eq!(*r, Err(AuthError::DuplicateUsername));
    }
    assert!(auth.sign_in("erin", "pw0").is_ok());
    assert_eq!(auth.sign_in("erin", "pw1"), Err(AuthError::InvalidCredentials));
}

#[test]
fn error_messages() {
    assert_eq!(AuthError::DuplicateUsername.message(), "Username already exists");
    assert_eq!(AuthError::InvalidCredentials.message(), "User not found");
    assert_eq!(AuthError::SessionNotFound.message(), "Session not found");
    assert_eq!(AuthError::HashingFailure.message(), "Failed to hash password");
    assert_eq!(AuthError::UserNotFound.message(), "User not found");
}
