use pos_core::errors::{ServiceError, StorageError};
use pos_core::flow::{Flow, Step};
use pos_core::models::user::{NewUser, User};
use pos_core::password::{hash_password, verify_password};
use pos_core::services::auth_service::{AuthService, LoginFlow};
use pos_core::storage::memory::MemoryStore;
use pos_core::storage::query::Query;
use pos_core::storage::reply::Reply;

fn run_login(store: &mut MemoryStore, username: &str, password: &str) -> Result<User, ServiceError> {
    store.run(AuthService::new().login(username, password))
}

fn run_admin_check(store: &mut MemoryStore, password: &str) -> Result<bool, ServiceError> {
    store.run(AuthService::new().verify_admin_password(password))
}

fn store_with(username: &str, password: &str) -> MemoryStore {
    let mut store = MemoryStore::new();
    let user = NewUser {
        username: username.to_string(),
        password_hash: bcrypt::hash(password, 4).unwrap(),
        cargo: None,
        email: Some("a@b.c".to_string()),
        store_id: Some(3),
    };
    assert_eq!(store.execute(&Query::InsertUser { user }), Reply::Inserted(1));
    store
}

#[test]
fn login_asks_for_the_user_by_name() {
    let Step::Ask(flow) = AuthService::new().login("ana", "secret") else { panic!("no flow") };
    assert_eq!(flow.username, "ana");
    assert_eq!(flow.password, "secret");
    assert_eq!(flow.query(), Query::FindUserByUsername { username: "ana".to_string() });
}

#[test]
fn login_with_the_right_password_returns_the_user() {
    let mut store = store_with("ana", "secret");
    let user = run_login(&mut store, "ana", "secret").unwrap();
    assert_eq!(user.id, 1);
    assert_eq!(user.username, "ana");
    assert_eq!(user.email, Some("a@b.c".to_string()));
    assert_eq!(user.store_id, Some(3));
    assert!(user.is_active);
}

#[test]
fn login_with_a_wrong_password_is_invalid_credentials() {
    let mut store = store_with("ana", "secret");
    assert!(matches!(
        run_login(&mut store, "ana", "Secret"),
        Err(ServiceError::InvalidCredentials)
    ));
    assert!(matches!(run_login(&mut store, "ana", ""), Err(ServiceError::InvalidCredentials)));
}

#[test]
fn login_of_an_inactive_user() {
    let mut store = store_with("ana", "secret");
    assert_eq!(store.execute(&Query::SoftDeleteUser { id: 1 }), Reply::Done);
    // A wrong password is refused as for an active user.
    assert!(matches!(
        run_login(&mut store, "ana", "wrong"),
        Err(ServiceError::InvalidCredentials)
    ));
    // The right one still admits: login does not look at the flag.
    let user = run_login(&mut store, "ana", "secret").unwrap();
    assert!(!user.is_active);
}

#[test]
fn login_of_an_unknown_user_is_not_found() {
    let mut store = store_with("ana", "secret");
    assert!(matches!(run_login(&mut store, "bob", "secret"), Err(ServiceError::NotFound)));
    let mut empty = MemoryStore::new();
    assert!(matches!(run_login(&mut empty, "ana", "secret"), Err(ServiceError::NotFound)));
}

#[test]
fn login_against_a_malformed_hash_is_a_hashing_error() {
    let mut store = MemoryStore::new();
    let user = NewUser {
        username: "ana".to_string(),
        password_hash: "not a bcrypt hash".to_string(),
        cargo: None,
        email: None,
        store_id: None,
    };
    assert_eq!(store.execute(&Query::InsertUser { user }), Reply::Inserted(1));
    assert!(matches!(run_login(&mut store, "ana", "secret"), Err(ServiceError::HashingError(_))));
}

#[test]
fn login_when_the_store_fails_is_a_storage_error() {
    let Step::Ask(flow) = AuthService::new().login("ana", "secret") else { panic!("no flow") };
    let reply = Reply::Failed(StorageError { message: "database is locked".to_string() });
    match flow.resume(reply) {
        Step::Done(Err(ServiceError::StorageError(error))) => {
            assert_eq!(error.message, "database is locked")
        }
        other => panic!("unexpected step: {:?}", other),
    }
}

#[test]
fn login_on_a_reply_of_the_wrong_kind_is_a_storage_error() {
    let Step::Ask(flow) = AuthService::new().login("ana", "secret") else { panic!("no flow") };
    match flow.resume(Reply::Count(1)) {
        Step::Done(Err(ServiceError::StorageError(error))) => {
            assert_eq!(error.message, "unexpected reply from storage")
        }
        other => panic!("unexpected step: {:?}", other),
    }
}

#[test]
fn judge_decides_by_the_verification() {
    let user = || User {
        id: 5,
        username: "ana".to_string(),
        password_hash: "h".to_string(),
        cargo: None,
        email: None,
        store_id: None,
        is_active: true,
        created_at: None,
    };
    assert_eq!(LoginFlow::judge(user(), Ok(true)).unwrap(), user());
    assert!(matches!(
        LoginFlow::judge(user(), Ok(false)),
        Err(ServiceError::InvalidCredentials)
    ));
    assert!(matches!(
        LoginFlow::judge(user(), Err(ServiceError::NotFound)),
        Err(ServiceError::NotFound)
    ));
}

#[test]
fn admin_password_check() {
    let mut store = store_with("admin", "root");
    assert_eq!(run_admin_check(&mut store, "root").unwrap(), true);
    assert_eq!(run_admin_check(&mut store, "toor").unwrap(), false);
}

#[test]
fn admin_password_check_looks_only_at_the_account_named_admin() {
    let mut store = store_with("ana", "secret");
    assert!(matches!(run_admin_check(&mut store, "secret"), Err(ServiceError::NotFound)));
    let Step::Ask(flow) = AuthService::new().verify_admin_password("x") else { panic!("no flow") };
    assert_eq!(flow.query(), Query::FindUserByUsername { username: "admin".to_string() });
}

#[test]
fn admin_password_check_failures() {
    let Step::Ask(flow) = AuthService::new().verify_admin_password("x") else { panic!("no flow") };
    let reply = Reply::Failed(StorageError { message: "gone".to_string() });
    assert!(matches!(flow.resume(reply), Step::Done(Err(ServiceError::StorageError(_)))));

    let mut store = MemoryStore::new();
    let user = NewUser {
        username: "admin".to_string(),
        password_hash: "$2b$12$short".to_string(),
        cargo: None,
        email: None,
        store_id: None,
    };
    assert_eq!(store.execute(&Query::InsertUser { user }), Reply::Inserted(1));
    assert!(matches!(run_admin_check(&mut store, "root"), Err(ServiceError::HashingError(_))));
}

#[test]
fn hash_password_gives_a_fresh_hash_that_verifies() {
    let first = hash_password("hunter2").unwrap();
    assert_ne!(first, "hunter2");
    assert_eq!(first.len(), 60);
    assert!(first.starts_with("$2b$12$"));
    assert_eq!(verify_password("hunter2", &first).unwrap(), true);
    assert_eq!(verify_password("hunter3", &first).unwrap(), false);
}

#[test]
fn verify_password_against_a_known_hash() {
    let hash = "$2y$12$L6Bc/AlTQHyd9liGgGEZyOFLPHNgyxeEPfgYfBCVxJ7JIlwxyVU3u";
    assert!(matches!(verify_password("anything", "hash"), Err(ServiceError::HashingError(_))));
    assert_eq!(verify_password("wrong password", hash).unwrap(), false);
}
