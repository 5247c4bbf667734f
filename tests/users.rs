use auth_service::error::AuthError;
use auth_service::sessions::{Sessions, SessionsTranstient};
use auth_service::users::{Users, UsersTransient};

#[test]
fn should_create_user() {
    let mut users = UsersTransient::new();

    let user = users.create_user("username", "password");

    assert!(user.is_ok());
}

#[test]
fn should_find_user_id_by_username_password() {
    let mut users = UsersTransient::new();

    let username = "username";
    let password = "password";

    users
        .create_user(username, password)
        .expect("A user should be created");

    assert!(users.find_user_id(username, password).is_some());
}

#[test]
fn different_users_should_have_different_ids() {
    let mut users = UsersTransient::new();

    users
        .create_user("John", "1234")
        .expect("A user should be created");
    users
        .create_user("Paul", "4321")
        .expect("A user should be created");

    assert_ne!(
        users.find_user_id("John", "1234").unwrap(),
        users.find_user_id("Paul", "4321").unwrap(),
    );
}

#[test]
fn should_cannot_create_two_users_with_same_username() {
    let mut users = UsersTransient::new();

    users
        .create_user("John", "1234")
        .expect("A user should be created");

    let error = users.create_user("John", "1234").unwrap_err();

    assert_eq!(error.message(), "Username already exists");
}

#[test]
fn should_fail_to_retreive_user_id_with_incorrect_password() {
    let mut users = UsersTransient::new();

    let username = "username";
    let password = "password";

    users
        .create_user(username, password)
        .expect("A user should be created");

    assert!(users.find_user_id(username, "wrong").is_none());
}

#[test]
fn should_delete_user() {
    let mut users = UsersTransient::new();

    let username = "username";
    let password = "password";

    users
        .create_user(username, password)
        .expect("A user should be created");

    users
        .delete_user(username)
        .expect("A user should be deleted");

    assert!(users.find_user_id(username, password).is_none());
}

#[test]
fn should_fail_to_delete_non_existing_user() {
    let mut users = UsersTransient::new();

    assert!(users.delete_user("username").is_err());
}

#[test]
fn deleting_a_missing_user_reports_user_not_found() {
    let mut users = UsersTransient::new();

    assert_eq!(users.delete_user("ghost"), Err(AuthError::UserNotFound));
}

#[test]
fn stored_password_is_a_pbkdf2_hash() {
    let mut users = UsersTransient::new();

    let user = users.create_user("frank", "password").expect("created");

    assert_eq!(user.username(), "frank");
    assert_ne!(user.password(), "password");
    assert!(user.password().starts_with("$pbkdf2"));
}

#[test]
fn same_password_gets_a_fresh_salt() {
    let mut users = UsersTransient::new();

    let first = users.create_user("gina", "same").expect("created").password().to_string();
    let second = users.create_user("hank", "same").expect("created").password().to_string();

    assert_ne!(first, second);
}

#[test]
fn unknown_user_and_wrong_password_look_the_same() {
    let mut users = UsersTransient::new();
    users.create_user("ivan", "right").expect("created");

    assert_eq!(users.find_user_id("ivan", "wrong"), users.find_user_id("nobody", "right"));
    assert_eq!(users.find_user_id("ivan", "wrong"), None);
}

#[test]
fn user_ids_are_uuids_and_stable() {
    let mut users = UsersTransient::new();
    users.create_user("judy", "pw").expect("created");

    let id = users.find_user_id("judy", "pw").unwrap();
    assert_eq!(id.len(), 36);
    assert_eq!(users.find_user_id("judy", "pw").unwrap(), id);
    users.create_user("kate", "pw").expect("created");
    assert_eq!(users.find_user_id("judy", "pw").unwrap(), id);
}

#[test]
fn distinct_usernames_are_created_independently() {
    let mut users = UsersTransient::new();

    assert!(users.create_user("leo", "a").is_ok());
    assert!(users.create_user("Leo", "b").is_ok());
    assert!(users.find_user_id("leo", "a").is_some());
    assert!(users.find_user_id("Leo", "b").is_some());
    assert!(users.find_user_id("Leo", "a").is_none());
}

#[test]
fn deleting_a_user_keeps_its_sessions() {
    let mut users = UsersTransient::new();
    let mut sessions = SessionsTranstient::new();
    users.create_user("mia", "pw").expect("created");
    let id = users.find_user_id("mia", "pw").unwrap();
    let token = sessions.create_session(&id).unwrap();

    users.delete_user("mia").expect("deleted");

    assert_eq!(sessions.user_id_of(&token).unwrap(), id);
    assert_eq!(sessions.delete_session(&token), Ok(()));
}
