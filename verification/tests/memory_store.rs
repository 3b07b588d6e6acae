use pos_core::models::inventory::{Amount, ProductFields};
use pos_core::models::store::StoreFields;
use pos_core::models::user::{NewUser, User};
use pos_core::storage::memory::MemoryStore;
use pos_core::storage::query::Query;
use pos_core::storage::reply::Reply;

fn new_user(username: &str) -> NewUser {
    NewUser {
        username: username.to_string(),
        password_hash: "h".to_string(),
        cargo: None,
        email: None,
        store_id: None,
    }
}

#[test]
fn an_empty_store_answers_with_nothing() {
    let mut store = MemoryStore::new();
    assert_eq!(store.execute(&Query::CountUsers), Reply::Count(0));
    assert_eq!(store.execute(&Query::FindAllUsers), Reply::Users(vec![]));
    assert_eq!(store.execute(&Query::FindAllStores), Reply::Stores(vec![]));
    assert_eq!(store.execute(&Query::FindAllCategories), Reply::Categories(vec![]));
    assert_eq!(store.execute(&Query::FindAllProducts), Reply::Products(vec![]));
    assert_eq!(store.execute(&Query::FindUserById { id: 1 }), Reply::User(None));
    assert_eq!(
        store.execute(&Query::FindUserByUsername { username: "a".to_string() }),
        Reply::User(None)
    );
    assert_eq!(
        store.execute(&Query::FindRoleByName { role_name: "a".to_string() }),
        Reply::Role(None)
    );
    assert!(store.roles().is_empty());
    assert!(store.assignments().is_empty());
    assert_eq!(store.product(1), None);
}

#[test]
fn ids_count_up_from_one_in_each_table() {
    let mut store = MemoryStore::new();
    assert_eq!(store.execute(&Query::InsertUser { user: new_user("a") }), Reply::Inserted(1));
    assert_eq!(store.execute(&Query::InsertUser { user: new_user("b") }), Reply::Inserted(2));
    assert_eq!(store.execute(&Query::InsertUser { user: new_user("c") }), Reply::Inserted(3));
    assert_eq!(
        store.execute(&Query::InsertRole { role_name: "r".to_string() }),
        Reply::Inserted(1)
    );
    let fields = StoreFields { name: "s".to_string(), address: None, code: None };
    assert_eq!(store.execute(&Query::InsertStore { store: fields }), Reply::Inserted(1));
    assert_eq!(
        store.execute(&Query::InsertCategory { name: "c".to_string() }),
        Reply::Inserted(1)
    );
    let product = ProductFields {
        code: None,
        name: "p".to_string(),
        category_id: None,
        price: Amount { bits: 0 },
        cost: Amount { bits: 0 },
        stock: 0,
        unit: None,
        image_url: None,
    };
    assert_eq!(store.execute(&Query::InsertProduct { product }), Reply::Inserted(1));
    assert_eq!(store.execute(&Query::CountUsers), Reply::Count(3));
}

#[test]
fn a_new_row_gets_the_highest_id_plus_one() {
    let mut store = MemoryStore::new();
    for name in ["a", "b", "c"] {
        store.execute(&Query::InsertCategory { name: name.to_string() });
    }
    // Category 2 goes: the highest id is still 3.
    assert_eq!(store.execute(&Query::DeleteCategory { id: 2 }), Reply::Done);
    assert_eq!(
        store.execute(&Query::InsertCategory { name: "d".to_string() }),
        Reply::Inserted(4)
    );
    // Categories 3 and 4 go: the highest id is 1.
    assert_eq!(store.execute(&Query::DeleteCategory { id: 4 }), Reply::Done);
    assert_eq!(store.execute(&Query::DeleteCategory { id: 3 }), Reply::Done);
    assert_eq!(
        store.execute(&Query::InsertCategory { name: "e".to_string() }),
        Reply::Inserted(2)
    );
}

#[test]
fn a_lookup_by_name_returns_the_first_row_with_it() {
    let mut store = MemoryStore::new();
    store.execute(&Query::InsertUser { user: new_user("ana") });
    store.execute(&Query::InsertUser { user: new_user("bob") });
    store.execute(&Query::InsertUser { user: new_user("ana") });
    let found = store.execute(&Query::FindUserByUsername { username: "ana".to_string() });
    assert_eq!(
        found,
        Reply::User(Some(User {
            id: 1,
            username: "ana".to_string(),
            password_hash: "h".to_string(),
            cargo: None,
            email: None,
            store_id: None,
            is_active: true,
            created_at: None,
        }))
    );
    let Reply::User(Some(third)) = store.execute(&Query::FindUserById { id: 3 }) else {
        panic!("no user")
    };
    assert_eq!(third.username, "ana");
    assert_eq!(store.execute(&Query::FindUserById { id: 4 }), Reply::User(None));
}

#[test]
fn a_listing_keeps_the_order_of_the_table() {
    let mut store = MemoryStore::new();
    for name in ["zoe", "ana", "moe"] {
        store.execute(&Query::InsertUser { user: new_user(name) });
    }
    let Reply::Users(users) = store.execute(&Query::FindAllUsers) else { panic!("no users") };
    let names: Vec<&str> = users.iter().map(|user| user.username.as_str()).collect();
    assert_eq!(names, vec!["zoe", "ana", "moe"]);
}
