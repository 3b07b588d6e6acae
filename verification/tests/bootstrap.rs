use pos_core::errors::{ServiceError, StorageError};
use pos_core::flow::{Flow, Step};
use pos_core::models::user::{NewUser, User};
use pos_core::services::auth_service::{AuthService, InitializeAdminFlow};
use pos_core::storage::memory::MemoryStore;
use pos_core::storage::query::Query;
use pos_core::storage::reply::Reply;

fn run_bootstrap(store: &mut MemoryStore, asked: &mut Vec<Query>) -> Result<(), ServiceError> {
    let mut step: Step<InitializeAdminFlow, ()> = AuthService::new().initialize_admin();
    loop {
        match step {
            Step::Ask(flow) => {
                let query = flow.query();
                let reply = store.execute(&query);
                asked.push(query);
                step = flow.resume(reply);
            }
            Step::Done(result) => return result,
        }
    }
}

fn find_user(store: &mut MemoryStore, username: &str) -> Option<User> {
    match store.execute(&Query::FindUserByUsername { username: username.to_string() }) {
        Reply::User(found) => found,
        other => panic!("unexpected reply: {:?}", other),
    }
}

#[test]
fn bootstrap_of_empty_store_creates_admin_and_role() {
    let mut store = MemoryStore::new();
    let mut asked = Vec::new();
    assert!(run_bootstrap(&mut store, &mut asked).is_ok());

    assert_eq!(asked.len(), 5);
    assert_eq!(asked[0], Query::CountUsers);
    assert_eq!(asked[1], Query::FindRoleByName { role_name: "ADMIN".to_string() });
    assert_eq!(asked[2], Query::InsertRole { role_name: "ADMIN".to_string() });
    assert!(matches!(asked[3], Query::InsertUser { .. }));
    assert_eq!(asked[4], Query::AssignRole { user_id: 1, role_id: 1 });

    assert_eq!(store.execute(&Query::CountUsers), Reply::Count(1));
    let roles = store.roles();
    assert_eq!(roles.len(), 1);
    assert_eq!(roles[0].id, 1);
    assert_eq!(roles[0].role_name, "ADMIN");
    assert_eq!(store.assignments(), vec![(1, 1)]);

    let admin = find_user(&mut store, "admin").unwrap();
    assert_eq!(admin.id, 1);
    assert_eq!(admin.username, "admin");
    assert_eq!(admin.cargo, None);
    assert_eq!(admin.email, None);
    assert_eq!(admin.store_id, None);
    assert!(admin.is_active);
    assert_ne!(admin.password_hash, "root");
    assert_eq!(admin.password_hash.len(), 60);
    assert!(bcrypt::verify("root", &admin.password_hash).unwrap());
}

#[test]
fn bootstrap_twice_leaves_one_admin_and_one_role() {
    let mut store = MemoryStore::new();
    let mut first = Vec::new();
    assert!(run_bootstrap(&mut store, &mut first).is_ok());
    let admin_before = find_user(&mut store, "admin").unwrap();

    let mut second = Vec::new();
    assert!(run_bootstrap(&mut store, &mut second).is_ok());

    assert_eq!(
        second,
        vec![Query::CountUsers, Query::FindRoleByName { role_name: "ADMIN".to_string() }]
    );
    assert_eq!(store.execute(&Query::CountUsers), Reply::Count(1));
    assert_eq!(store.roles().len(), 1);
    assert_eq!(store.roles()[0].role_name, "ADMIN");
    assert_eq!(store.assignments(), vec![(1, 1)]);
    assert_eq!(find_user(&mut store, "admin").unwrap(), admin_before);
}

#[test]
fn bootstrap_with_users_present_creates_only_the_role() {
    let mut store = MemoryStore::new();
    let clerk = NewUser {
        username: "clerk".to_string(),
        password_hash: "x".to_string(),
        cargo: None,
        email: None,
        store_id: None,
    };
    assert_eq!(store.execute(&Query::InsertUser { user: clerk }), Reply::Inserted(1));

    let mut asked = Vec::new();
    assert!(run_bootstrap(&mut store, &mut asked).is_ok());

    assert_eq!(
        asked,
        vec![
            Query::CountUsers,
            Query::FindRoleByName { role_name: "ADMIN".to_string() },
            Query::InsertRole { role_name: "ADMIN".to_string() },
        ]
    );
    assert_eq!(store.execute(&Query::CountUsers), Reply::Count(1));
    assert_eq!(find_user(&mut store, "admin"), None);
    assert_eq!(store.roles().len(), 1);
    assert!(store.assignments().is_empty());
}

#[test]
fn bootstrap_counts_inactive_users_too() {
    let mut store = MemoryStore::new();
    let clerk = NewUser {
        username: "clerk".to_string(),
        password_hash: "x".to_string(),
        cargo: None,
        email: None,
        store_id: None,
    };
    assert_eq!(store.execute(&Query::InsertUser { user: clerk }), Reply::Inserted(1));
    assert_eq!(store.execute(&Query::SoftDeleteUser { id: 1 }), Reply::Done);

    let mut asked = Vec::new();
    assert!(run_bootstrap(&mut store, &mut asked).is_ok());
    assert_eq!(asked.len(), 3);
    assert_eq!(find_user(&mut store, "admin"), None);
}

#[test]
fn a_run_of_the_bootstrap_is_what_its_steps_amount_to() {
    let mut stepped = MemoryStore::new();
    let mut asked = Vec::new();
    assert!(run_bootstrap(&mut stepped, &mut asked).is_ok());

    let mut ran = MemoryStore::new();
    assert!(ran.run(AuthService::new().initialize_admin()).is_ok());

    assert_eq!(ran.roles(), stepped.roles());
    assert_eq!(ran.assignments(), stepped.assignments());
    assert_eq!(ran.execute(&Query::CountUsers), Reply::Count(1));
    assert_eq!(find_user(&mut ran, "admin").unwrap().id, 1);
}

#[test]
fn bootstrap_fails_when_the_store_fails() {
    let failure = || Reply::Failed(StorageError { message: "disk full".to_string() });

    // The count fails.
    let step = AuthService::new().initialize_admin();
    let Step::Ask(flow) = step else { panic!("bootstrap asks nothing") };
    match flow.resume(failure()) {
        Step::Done(Err(ServiceError::StorageError(error))) => assert_eq!(error.message, "disk full"),
        other => panic!("unexpected step: {:?}", other),
    }

    // The lookup of the role fails.
    let flow = InitializeAdminFlow::FindRole { count: 0 };
    assert!(matches!(flow.resume(failure()), Step::Done(Err(ServiceError::StorageError(_)))));

    // The insert of the role fails.
    let flow = InitializeAdminFlow::CreateRole { count: 0 };
    assert!(matches!(flow.resume(failure()), Step::Done(Err(ServiceError::StorageError(_)))));

    // The insert of the administrator fails.
    let user = NewUser {
        username: "admin".to_string(),
        password_hash: "h".to_string(),
        cargo: None,
        email: None,
        store_id: None,
    };
    let flow = InitializeAdminFlow::CreateUser { role_id: 1, user };
    assert!(matches!(flow.resume(failure()), Step::Done(Err(ServiceError::StorageError(_)))));

    // The assignment fails.
    let flow = InitializeAdminFlow::Assign { user_id: 1, role_id: 1 };
    assert!(matches!(flow.resume(failure()), Step::Done(Err(ServiceError::StorageError(_)))));
}

#[test]
fn bootstrap_steps_in_order() {
    let flow = InitializeAdminFlow::Count;
    assert_eq!(flow.query(), Query::CountUsers);
    let Step::Ask(flow) = flow.resume(Reply::Count(7)) else { panic!("ended early") };
    assert!(matches!(flow, InitializeAdminFlow::FindRole { count: 7 }));
    assert_eq!(flow.query(), Query::FindRoleByName { role_name: "ADMIN".to_string() });

    // With users present and the role found, nothing more is asked.
    let role = pos_core::models::user::Role { id: 4, role_name: "ADMIN".to_string() };
    assert!(matches!(flow.resume(Reply::Role(Some(role))), Step::Done(Ok(()))));

    // With users present and no role, the role is stored and that is all.
    let flow = InitializeAdminFlow::FindRole { count: 7 };
    let Step::Ask(flow) = flow.resume(Reply::Role(None)) else { panic!("ended early") };
    assert!(matches!(flow, InitializeAdminFlow::CreateRole { count: 7 }));
    assert_eq!(flow.query(), Query::InsertRole { role_name: "ADMIN".to_string() });
    assert!(matches!(flow.resume(Reply::Inserted(9)), Step::Done(Ok(()))));

    // With no user and the role found under id 4, the administrator gets role 4.
    let flow = InitializeAdminFlow::FindRole { count: 0 };
    let role = pos_core::models::user::Role { id: 4, role_name: "ADMIN".to_string() };
    let Step::Ask(flow) = flow.resume(Reply::Role(Some(role))) else { panic!("ended early") };
    let Query::InsertUser { user } = flow.query() else { panic!("no insert") };
    assert_eq!(user.username, "admin");
    assert!(bcrypt::verify("root", &user.password_hash).unwrap());
    let Step::Ask(flow) = flow.resume(Reply::Inserted(12)) else { panic!("ended early") };
    assert_eq!(flow.query(), Query::AssignRole { user_id: 12, role_id: 4 });
    assert!(matches!(flow.resume(Reply::Done), Step::Done(Ok(()))));
}

#[test]
fn bootstrap_rejects_a_reply_of_the_wrong_kind() {
    let flow = InitializeAdminFlow::Count;
    match flow.resume(Reply::Done) {
        Step::Done(Err(ServiceError::StorageError(error))) => {
            assert_eq!(error.message, "unexpected reply from storage")
        }
        other => panic!("unexpected step: {:?}", other),
    }
}

#[test]
fn login_as_admin_after_fresh_bootstrap() {
    let mut store = MemoryStore::new();
    let mut asked = Vec::new();
    assert!(run_bootstrap(&mut store, &mut asked).is_ok());
    let user = store.run(AuthService::new().login("admin", "root")).unwrap();
    assert_eq!(user.username, "admin");
    assert_eq!(user.id, 1);
}
