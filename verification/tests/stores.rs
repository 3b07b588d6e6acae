use pos_core::commands::store::{create_store, delete_store, get_stores, update_store};
use pos_core::errors::{ServiceError, StorageError};
use pos_core::flow::{Flow, Step};
use pos_core::models::store::{Store, StoreFields};
use pos_core::repositories::store_repo::StoreRepository;
use pos_core::storage::memory::MemoryStore;
use pos_core::storage::query::Query;
use pos_core::storage::reply::Reply;

fn fields(name: &str, address: Option<&str>, code: Option<&str>) -> StoreFields {
    StoreFields {
        name: name.to_string(),
        address: address.map(|text| text.to_string()),
        code: code.map(|text| text.to_string()),
    }
}

fn create(store: &mut MemoryStore, name: &str, address: Option<&str>, code: Option<&str>) -> Store {
    store.run(create_store(name, address, code)).unwrap()
}

fn listed(store: &mut MemoryStore) -> Vec<Store> {
    store.run(get_stores()).unwrap()
}

#[test]
fn create_returns_the_populated_record() {
    let mut store = MemoryStore::new();
    let created = create(&mut store, "Centro", Some("Main St 1"), Some("C01"));
    assert_eq!(
        created,
        Store {
            id: 1,
            name: "Centro".to_string(),
            code: Some("C01".to_string()),
            address: Some("Main St 1".to_string()),
            is_active: true,
            created_at: None,
        }
    );
    let second = create(&mut store, "Norte", None, None);
    assert_eq!(second.id, 2);
    assert_eq!(second.address, None);
    assert_eq!(second.code, None);
    assert_eq!(listed(&mut store), vec![created, second]);
}

#[test]
fn created_reads_failures() {
    let repo = StoreRepository::new();
    let failed = Reply::Failed(StorageError { message: "full".to_string() });
    assert_eq!(
        repo.created(fields("Centro", None, None), failed),
        Err(StorageError { message: "full".to_string() })
    );
    assert_eq!(
        repo.created(fields("Centro", None, None), Reply::Count(1)),
        Err(StorageError { message: "unexpected reply from storage".to_string() })
    );
}

#[test]
fn update_overwrites_name_address_and_code() {
    let mut store = MemoryStore::new();
    let repo = StoreRepository::new();
    create(&mut store, "Centro", Some("Main St 1"), Some("C01"));
    create(&mut store, "Norte", None, None);

    assert!(store.run(update_store(1, "Centro 2", None, Some("C02"))).is_ok());
    let stores = listed(&mut store);
    assert_eq!(stores[0].name, "Centro 2");
    assert_eq!(stores[0].address, None);
    assert_eq!(stores[0].code, Some("C02".to_string()));
    assert_eq!(stores[1].name, "Norte");

    // An id that no store has: no error, no change.
    assert!(store.run(update_store(9, "Ghost", None, None)).is_ok());
    assert_eq!(store.execute(&repo.update(9, "Ghost", None, None)), Reply::Done);
    assert_eq!(listed(&mut store), stores);
}

#[test]
fn soft_deleted_store_is_no_longer_listed() {
    let mut store = MemoryStore::new();
    let repo = StoreRepository::new();
    create(&mut store, "Centro", None, None);
    create(&mut store, "Norte", None, None);
    assert!(store.run(delete_store(1)).is_ok());
    let stores = listed(&mut store);
    assert_eq!(stores.len(), 1);
    assert_eq!(stores[0].name, "Norte");
    // The row stays: the next store does not get its id.
    assert_eq!(create(&mut store, "Sur", None, None).id, 3);
    // Deleting again, or what is not there, is no error.
    assert_eq!(store.execute(&repo.soft_delete(1)), Reply::Done);
    assert_eq!(store.execute(&repo.soft_delete(50)), Reply::Done);
    assert_eq!(listed(&mut store).len(), 2);
}

#[test]
fn store_commands_ask_their_own_queries() {
    let Step::Ask(flow) = get_stores() else { panic!("no flow") };
    assert_eq!(flow.query(), Query::FindAllStores);
    let Step::Ask(flow) = create_store("Centro", None, Some("C")) else { panic!("no flow") };
    assert_eq!(flow.query(), Query::InsertStore { store: fields("Centro", None, Some("C")) });
    let Step::Ask(flow) = update_store(2, "Centro", Some("A"), None) else { panic!("no flow") };
    assert_eq!(flow.query(), Query::UpdateStore { id: 2, store: fields("Centro", Some("A"), None) });
    let Step::Ask(flow) = delete_store(2) else { panic!("no flow") };
    assert_eq!(flow.query(), Query::SoftDeleteStore { id: 2 });
}

#[test]
fn store_commands_pass_storage_failures_on() {
    let failure = || Reply::Failed(StorageError { message: "locked".to_string() });
    fn is_locked<F, T>(step: Step<F, T>) -> bool {
        match step {
            Step::Done(Err(ServiceError::StorageError(error))) => error.message == "locked",
            _ => false,
        }
    }
    let Step::Ask(flow) = get_stores() else { panic!("no flow") };
    assert!(is_locked(flow.resume(failure())));
    let Step::Ask(flow) = create_store("Centro", None, None) else { panic!("no flow") };
    assert!(is_locked(flow.resume(failure())));
    let Step::Ask(flow) = update_store(1, "Centro", None, None) else { panic!("no flow") };
    assert!(is_locked(flow.resume(failure())));
    let Step::Ask(flow) = delete_store(1) else { panic!("no flow") };
    assert!(is_locked(flow.resume(failure())));
}

#[test]
fn store_queries() {
    let repo = StoreRepository::new();
    assert_eq!(repo.find_all(), Query::FindAllStores);
    assert_eq!(
        repo.create("Centro", Some("Main St 1"), None),
        Query::InsertStore { store: fields("Centro", Some("Main St 1"), None) }
    );
    assert_eq!(
        repo.update(4, "Centro", None, Some("C")),
        Query::UpdateStore { id: 4, store: fields("Centro", None, Some("C")) }
    );
    assert_eq!(repo.soft_delete(4), Query::SoftDeleteStore { id: 4 });
}
