//! End-to-end behavior of sign-in and the user store.

use backend_core::types::StoreError;
use backend_core::user::{LoginUserRequest, User};
use backend_core::user_repository::UserRepository;
use backend_core::user_usecase::{resolve_session, UserService, UserUseCase};

fn alice() -> User {
    User {
        id: 1,
        username: "alice".to_string(),
        password: "secret".to_string(),
    }
}

fn login(username: &str, password: &str) -> LoginUserRequest {
    LoginUserRequest {
        username: username.to_string(),
        password: password.to_string(),
    }
}

#[test]
fn signin_with_correct_password_grants_nonempty_token() {
    let service = UserUseCase::new(UserRepository::new(vec![alice()]));
    let session = service.signin(login("alice", "secret")).unwrap();
    let token = session.unwrap();
    assert!(!token.is_empty());
    assert_eq!(token, "alice");
}

#[test]
fn signin_with_wrong_password_is_no_session_not_error() {
    let service = UserUseCase::new(UserRepository::new(vec![alice()]));
    let session = service.signin(login("alice", "wrong")).unwrap();
    assert!(session.is_none());
}

#[test]
fn signin_with_unknown_username_is_no_session_not_error() {
    let service = UserUseCase::new(UserRepository::new(vec![alice()]));
    let session = service.signin(login("bob", "x")).unwrap();
    assert!(session.is_none());
}

#[test]
fn signin_scenario_three_outcomes() {
    let service = UserUseCase::new(UserRepository::new(vec![alice()]));
    assert!(service.signin(login("alice", "secret")).unwrap().is_some());
    assert!(service.signin(login("alice", "wrong")).unwrap().is_none());
    assert!(service.signin(login("bob", "x")).unwrap().is_none());
}

#[test]
fn signin_on_empty_table_is_no_session() {
    let service = UserUseCase::new(UserRepository::new(Vec::new()));
    let session = service.signin(login("alice", "secret")).unwrap();
    assert!(session.is_none());
}

#[test]
fn lookup_returns_first_matching_row() {
    let rows = vec![
        User {
            id: 1,
            username: "alice".to_string(),
            password: "first".to_string(),
        },
        User {
            id: 2,
            username: "alice".to_string(),
            password: "second".to_string(),
        },
    ];
    let repo = UserRepository::new(rows);
    let found = repo
        .find_by_username("alice".to_string())
        .unwrap()
        .unwrap();
    assert_eq!(found.id, 1);
    assert_eq!(found.password, "first");

    let service = UserUseCase::new(repo);
    assert!(service.signin(login("alice", "first")).unwrap().is_some());
    assert!(service.signin(login("alice", "second")).unwrap().is_none());
}

#[test]
fn find_by_username_returns_whole_row() {
    let repo = UserRepository::new(vec![alice()]);
    let found = repo
        .find_by_username("alice".to_string())
        .unwrap()
        .unwrap();
    assert_eq!(found.id, 1);
    assert_eq!(found.username, "alice");
    assert_eq!(found.password, "secret");
    assert!(repo.find_by_username("bob".to_string()).unwrap().is_none());
}

#[test]
fn resolve_session_decides_on_lookup_outcome() {
    let password = "secret".to_string();
    assert!(resolve_session(None, &password).is_none());
    assert_eq!(
        resolve_session(Some(alice()), &password).unwrap(),
        "alice"
    );
    let wrong = "nope".to_string();
    assert!(resolve_session(Some(alice()), &wrong).is_none());
}

#[test]
fn store_error_carries_its_message() {
    let e = StoreError::new("connection refused".to_string());
    assert_eq!(e.message(), "connection refused");
    assert_eq!(e.message, "connection refused");
}
