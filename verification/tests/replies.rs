use pos_core::errors::{pass_through, ServiceError, StorageError};
use pos_core::models::inventory::Category;
use pos_core::models::store::Store;
use pos_core::models::user::{Role, User};
use pos_core::storage::reply::Reply;

fn user() -> User {
    User {
        id: 1,
        username: "ana".to_string(),
        password_hash: "h".to_string(),
        cargo: None,
        email: None,
        store_id: None,
        is_active: true,
        created_at: None,
    }
}

fn failed(text: &str) -> Reply {
    Reply::Failed(StorageError { message: text.to_string() })
}

fn unexpected() -> StorageError {
    StorageError { message: "unexpected reply from storage".to_string() }
}

#[test]
fn each_reader_takes_its_own_kind() {
    assert_eq!(Reply::Done.into_done(), Ok(()));
    assert_eq!(Reply::Inserted(7).into_inserted(), Ok(7));
    assert_eq!(Reply::Count(3).into_count(), Ok(3));
    assert_eq!(Reply::User(None).into_user(), Ok(None));
    assert_eq!(Reply::User(Some(user())).into_user(), Ok(Some(user())));
    assert_eq!(Reply::Users(vec![user()]).into_users(), Ok(vec![user()]));
    let role = || Role { id: 2, role_name: "ADMIN".to_string() };
    assert_eq!(Reply::Role(Some(role())).into_role(), Ok(Some(role())));
    let store = || Store {
        id: 1,
        name: "Centro".to_string(),
        code: None,
        address: None,
        is_active: true,
        created_at: None,
    };
    assert_eq!(Reply::Stores(vec![store()]).into_stores(), Ok(vec![store()]));
    let category = || Category { id: 1, name: "Drinks".to_string() };
    assert_eq!(Reply::Categories(vec![category()]).into_categories(), Ok(vec![category()]));
    assert_eq!(Reply::Products(vec![]).into_products(), Ok(vec![]));
}

#[test]
fn a_failure_comes_through_every_reader_with_its_text() {
    let error = || StorageError { message: "disk I/O error".to_string() };
    assert_eq!(failed("disk I/O error").into_done(), Err(error()));
    assert_eq!(failed("disk I/O error").into_inserted(), Err(error()));
    assert_eq!(failed("disk I/O error").into_count(), Err(error()));
    assert_eq!(failed("disk I/O error").into_user(), Err(error()));
    assert_eq!(failed("disk I/O error").into_users(), Err(error()));
    assert_eq!(failed("disk I/O error").into_role(), Err(error()));
    assert_eq!(failed("disk I/O error").into_stores(), Err(error()));
    assert_eq!(failed("disk I/O error").into_categories(), Err(error()));
    assert_eq!(failed("disk I/O error").into_products(), Err(error()));
}

#[test]
fn a_reply_of_another_kind_is_a_failure() {
    assert_eq!(Reply::Inserted(1).into_done(), Err(unexpected()));
    assert_eq!(Reply::Done.into_inserted(), Err(unexpected()));
    assert_eq!(Reply::Inserted(1).into_count(), Err(unexpected()));
    assert_eq!(Reply::Role(None).into_user(), Err(unexpected()));
    assert_eq!(Reply::User(None).into_users(), Err(unexpected()));
    assert_eq!(Reply::User(None).into_role(), Err(unexpected()));
    assert_eq!(Reply::Users(vec![]).into_stores(), Err(unexpected()));
    assert_eq!(Reply::Stores(vec![]).into_categories(), Err(unexpected()));
    assert_eq!(Reply::Categories(vec![]).into_products(), Err(unexpected()));
    assert_eq!(StorageError::unexpected_reply(), unexpected());
}

#[test]
fn pass_through_keeps_values_and_wraps_failures() {
    assert_eq!(pass_through(Ok::<i64, StorageError>(5)).unwrap(), 5);
    match pass_through(Err::<i64, StorageError>(StorageError { message: "x".to_string() })) {
        Err(ServiceError::StorageError(error)) => assert_eq!(error.message, "x"),
        other => panic!("unexpected result: {:?}", other),
    }
}
