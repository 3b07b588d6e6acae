use pos_core::commands::user::{create_staff_user, is_staff_role, staff_user_step, CreateStaffUserFlow};
use pos_core::errors::{ServiceError, StorageError};
use pos_core::flow::{Flow, Step};
use pos_core::models::user::{Role, User};
use pos_core::storage::memory::MemoryStore;
use pos_core::storage::query::Query;
use pos_core::storage::reply::Reply;

fn run(store: &mut MemoryStore, step: Step<CreateStaffUserFlow, User>) -> Result<User, ServiceError> {
    store.run(step)
}

#[test]
fn only_seller_and_manager_are_staff_roles() {
    assert!(is_staff_role("VENDEDOR"));
    assert!(is_staff_role("GERENTE"));
    assert!(!is_staff_role("OWNER"));
    assert!(!is_staff_role("ADMIN"));
    assert!(!is_staff_role("vendedor"));
    assert!(!is_staff_role("GERENTE "));
    assert!(!is_staff_role(""));
}

#[test]
fn unsupported_role_is_rejected_and_nothing_is_stored() {
    let mut store = MemoryStore::new();
    let step = create_staff_user("ana", "secret", None, None, None, "OWNER");
    // The operation has ended before it asked anything of the store.
    assert!(matches!(step, Step::Done(Err(ServiceError::InvalidRole))));
    assert!(matches!(run(&mut store, step), Err(ServiceError::InvalidRole)));
    assert_eq!(store.execute(&Query::CountUsers), Reply::Count(0));
    assert!(store.roles().is_empty());
}

#[test]
fn staff_user_is_stored_with_role_and_assignment() {
    let mut store = MemoryStore::new();
    let step = create_staff_user("ana", "secret", None, Some("a@b.c"), Some(4), "VENDEDOR");
    let user = run(&mut store, step).unwrap();
    assert_eq!(user.id, 1);
    assert_eq!(user.username, "ana");
    // Without a label of its own the account is labelled with the role.
    assert_eq!(user.cargo, Some("VENDEDOR".to_string()));
    assert_eq!(user.email, Some("a@b.c".to_string()));
    assert_eq!(user.store_id, Some(4));
    assert!(user.is_active);
    assert!(bcrypt::verify("secret", &user.password_hash).unwrap());

    assert_eq!(store.roles(), vec![Role { id: 1, role_name: "VENDEDOR".to_string() }]);
    assert_eq!(store.assignments(), vec![(1, 1)]);
}

#[test]
fn second_staff_user_reuses_the_role() {
    let mut store = MemoryStore::new();
    let first = create_staff_user("ana", "a", None, None, None, "GERENTE");
    assert_eq!(run(&mut store, first).unwrap().id, 1);
    let second = create_staff_user("bob", "b", Some("Night shift"), None, None, "GERENTE");
    let bob = run(&mut store, second).unwrap();
    assert_eq!(bob.id, 2);
    assert_eq!(bob.cargo, Some("Night shift".to_string()));

    assert_eq!(store.roles(), vec![Role { id: 1, role_name: "GERENTE".to_string() }]);
    assert_eq!(store.assignments(), vec![(1, 1), (2, 1)]);
}

#[test]
fn staff_user_steps_in_order() {
    let step = staff_user_step("ana", Ok("hashed".to_string()), None, None, Some(2), "GERENTE");
    let Step::Ask(flow) = step else { panic!("ended early") };
    let Query::InsertUser { user } = flow.query() else { panic!("no insert") };
    assert_eq!(user.username, "ana");
    assert_eq!(user.password_hash, "hashed");
    assert_eq!(user.cargo, Some("GERENTE".to_string()));
    assert_eq!(user.store_id, Some(2));

    let Step::Ask(flow) = flow.resume(Reply::Inserted(30)) else { panic!("ended early") };
    assert_eq!(flow.query(), Query::FindRoleByName { role_name: "GERENTE".to_string() });

    let Step::Ask(flow) = flow.resume(Reply::Role(None)) else { panic!("ended early") };
    assert_eq!(flow.query(), Query::InsertRole { role_name: "GERENTE".to_string() });

    let Step::Ask(flow) = flow.resume(Reply::Inserted(6)) else { panic!("ended early") };
    assert_eq!(flow.query(), Query::AssignRole { user_id: 30, role_id: 6 });

    match flow.resume(Reply::Done) {
        Step::Done(Ok(user)) => {
            assert_eq!(user.id, 30);
            assert_eq!(user.username, "ana");
        }
        other => panic!("unexpected step: {:?}", other),
    }
}

#[test]
fn staff_user_step_passes_the_hashers_failure_on() {
    let step = staff_user_step("ana", Err(ServiceError::InvalidCredentials), None, None, None, "GERENTE");
    assert!(matches!(step, Step::Done(Err(ServiceError::InvalidCredentials))));
}

#[test]
fn failure_after_the_insert_leaves_the_user_without_role() {
    let mut store = MemoryStore::new();
    let step = staff_user_step("ana", Ok("hashed".to_string()), None, None, None, "VENDEDOR");
    let Step::Ask(flow) = step else { panic!("ended early") };
    let reply = store.execute(&flow.query());
    let Step::Ask(flow) = flow.resume(reply) else { panic!("ended early") };

    // The lookup of the role fails: the error comes back, the account stays.
    let failure = Reply::Failed(StorageError { message: "database is locked".to_string() });
    match flow.resume(failure) {
        Step::Done(Err(ServiceError::StorageError(error))) => {
            assert_eq!(error.message, "database is locked")
        }
        other => panic!("unexpected step: {:?}", other),
    }
    assert_eq!(store.execute(&Query::CountUsers), Reply::Count(1));
    let Reply::User(Some(user)) =
        store.execute(&Query::FindUserByUsername { username: "ana".to_string() })
    else {
        panic!("no user")
    };
    assert!(user.is_active);
    assert!(store.assignments().is_empty());
    assert!(store.roles().is_empty());
}

#[test]
fn staff_user_does_not_check_the_username() {
    let mut store = MemoryStore::new();
    let first = staff_user_step("ana", Ok("h1".to_string()), None, None, None, "VENDEDOR");
    assert_eq!(run(&mut store, first).unwrap().id, 1);
    let second = staff_user_step("ana", Ok("h2".to_string()), None, None, None, "VENDEDOR");
    assert_eq!(run(&mut store, second).unwrap().id, 2);
    assert_eq!(store.execute(&Query::CountUsers), Reply::Count(2));
}
