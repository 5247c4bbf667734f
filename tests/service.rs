use auth_service::service::{AuthenticationService, AuthenticationServiceConfig, StatusCode};

#[test]
fn sign_up_should_succeed() {
    let mut service = AuthenticationService::new_with_config(AuthenticationServiceConfig::InMemory);

    let response = service.sign_up("username", "password");

    assert_eq!(response.status_code, StatusCode::Success);
}

#[test]
fn sign_up_shoudl_fail_if_username_exists() {
    let mut service = AuthenticationService::new_with_config(AuthenticationServiceConfig::InMemory);

    let username = "username";
    let password = "password";

    service.sign_up(username, password);

    let response = service.sign_up(username, password);

    assert_eq!(response.status_code, StatusCode::Failure);
}

#[test]
fn sign_in_should_succeed() {
    let mut service = AuthenticationService::new_with_config(AuthenticationServiceConfig::InMemory);

    let username = "username";
    let password = "password";

    service.sign_up(username, password);

    let response = service.sign_in(username, password);

    assert_eq!(response.status_code, StatusCode::Success);
}

#[test]
fn service_sign_in_should_fail_if_user_does_not_exist() {
    let mut service = AuthenticationService::new_with_config(AuthenticationServiceConfig::InMemory);

    let username = "username";
    let password = "password";

    let response = service.sign_in(username, password);

    assert_eq!(response.status_code, StatusCode::Failure);
    assert_eq!(response.session_token, "");
    assert_eq!(response.user_id, "");
}

#[test]
fn sign_out_should_succeed() {
    let mut service = AuthenticationService::new_with_config(AuthenticationServiceConfig::InMemory);

    let username = "username";
    let password = "password";

    service.sign_up(username, password);

    let response = service.sign_in(username, password);

    let response = service.sign_out(&response.session_token);

    assert_eq!(response.status_code, StatusCode::Success);
}

#[test]
fn service_sign_out_should_fail_if_session_does_not_exist() {
    let mut service = AuthenticationService::new_with_config(AuthenticationServiceConfig::InMemory);

    let response = service.sign_out("session_token");

    assert_eq!(response.status_code, StatusCode::Failure);
}

#[test]
fn default_service_starts_empty() {
    let mut service = AuthenticationService::default();

    assert_eq!(service.sign_in("nobody", "x").status_code, StatusCode::Failure);
    assert_eq!(service.sign_up("nobody", "x").status_code, StatusCode::Success);
}

#[test]
fn config_names() {
    assert_eq!(AuthenticationServiceConfig::parse("InMemory"), Some(AuthenticationServiceConfig::InMemory));
    assert_eq!(AuthenticationServiceConfig::parse("inmemory"), None);
    assert_eq!(AuthenticationServiceConfig::parse(""), None);
    assert_eq!("InMemory".parse::<AuthenticationServiceConfig>(), Ok(AuthenticationServiceConfig::InMemory));
    assert_eq!("Postgres".parse::<AuthenticationServiceConfig>(), Err(()));
    assert_eq!(AuthenticationServiceConfig::default(), AuthenticationServiceConfig::InMemory);
}

#[test]
fn sign_out_twice_fails_the_second_time() {
    let mut service = AuthenticationService::default();
    service.sign_up("alice", "secret");
    let reply = service.sign_in("alice", "secret");
    assert_eq!(reply.status_code, StatusCode::Success);
    assert_eq!(reply.user_id.len(), 36);

    assert_eq!(service.sign_out(&reply.session_token).status_code, StatusCode::Success);
    assert_eq!(service.sign_out(&reply.session_token).status_code, StatusCode::Failure);
}
