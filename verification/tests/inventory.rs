use pos_core::errors::{ServiceError, StorageError};
use pos_core::flow::{Flow, Step};
use pos_core::models::inventory::{Amount, Category, ProductFields, ProductWithCategory};
use pos_core::services::inventory_service::{CreateProductFlow, InventoryService};
use pos_core::storage::memory::MemoryStore;
use pos_core::storage::query::Query;
use pos_core::storage::reply::Reply;

fn run<F: Flow>(store: &mut MemoryStore, step: Step<F, F::Output>) -> Result<F::Output, ServiceError> {
    store.run(step)
}

fn money(value: f64) -> Amount {
    Amount { bits: value.to_bits() }
}

fn add_category(store: &mut MemoryStore, name: &str) -> Category {
    run(store, InventoryService::new().create_category(name)).unwrap()
}

fn add_product(store: &mut MemoryStore, name: &str, category_id: Option<i64>) -> i64 {
    let step = InventoryService::new().create_product(
        Some("P-1"),
        name,
        category_id,
        money(12.5),
        money(7.25),
        40,
        Some("unit"),
        None,
    );
    run(store, step).unwrap()
}

fn products(store: &mut MemoryStore) -> Vec<ProductWithCategory> {
    run(store, InventoryService::new().get_products()).unwrap()
}

fn categories(store: &mut MemoryStore) -> Vec<Category> {
    run(store, InventoryService::new().get_categories()).unwrap()
}

#[test]
fn categories_are_created_renamed_and_removed() {
    let mut store = MemoryStore::new();
    let service = InventoryService::new();
    assert_eq!(add_category(&mut store, "Drinks"), Category { id: 1, name: "Drinks".to_string() });
    assert_eq!(add_category(&mut store, "Snacks"), Category { id: 2, name: "Snacks".to_string() });

    assert!(run(&mut store, service.update_category(1, "Beverages")).is_ok());
    assert_eq!(
        categories(&mut store),
        vec![
            Category { id: 1, name: "Beverages".to_string() },
            Category { id: 2, name: "Snacks".to_string() },
        ]
    );

    // A category is removed for good.
    assert!(run(&mut store, service.delete_category(1)).is_ok());
    assert_eq!(categories(&mut store), vec![Category { id: 2, name: "Snacks".to_string() }]);

    // Renaming or removing what is not there succeeds and changes nothing.
    assert!(run(&mut store, service.update_category(1, "Ghost")).is_ok());
    assert!(run(&mut store, service.delete_category(50)).is_ok());
    assert_eq!(categories(&mut store), vec![Category { id: 2, name: "Snacks".to_string() }]);
}

#[test]
fn product_is_listed_with_its_category_name() {
    let mut store = MemoryStore::new();
    add_category(&mut store, "Drinks");
    let snacks = add_category(&mut store, "Snacks");
    let id = add_product(&mut store, "Crisps", Some(snacks.id));
    assert_eq!(id, 1);

    assert_eq!(
        products(&mut store),
        vec![ProductWithCategory {
            id: 1,
            code: Some("P-1".to_string()),
            name: "Crisps".to_string(),
            category_id: Some(2),
            category_name: Some("Snacks".to_string()),
            price: money(12.5),
            cost: money(7.25),
            stock: 40,
            min_stock: None,
            unit: Some("unit".to_string()),
            image_url: None,
            is_active: true,
            created_at: None,
        }]
    );
    let listed = products(&mut store);
    assert_eq!(f64::from_bits(listed[0].price.bits), 12.5);
    assert_eq!(f64::from_bits(listed[0].cost.bits), 7.25);
}

#[test]
fn product_of_a_missing_category_is_listed_without_a_name() {
    let mut store = MemoryStore::new();
    add_category(&mut store, "Drinks");
    let id = add_product(&mut store, "Orphan", Some(999));
    let listed = products(&mut store);
    assert_eq!(listed.len(), 1);
    assert_eq!(listed[0].id, id);
    assert_eq!(listed[0].name, "Orphan");
    assert_eq!(listed[0].category_id, Some(999));
    assert_eq!(listed[0].category_name, None);
}

#[test]
fn product_without_a_category_is_listed_without_a_name() {
    let mut store = MemoryStore::new();
    add_category(&mut store, "Drinks");
    add_product(&mut store, "Loose", None);
    let listed = products(&mut store);
    assert_eq!(listed[0].category_id, None);
    assert_eq!(listed[0].category_name, None);
}

#[test]
fn deleting_a_category_leaves_its_products_listed_without_a_name() {
    let mut store = MemoryStore::new();
    let service = InventoryService::new();
    let drinks = add_category(&mut store, "Drinks");
    add_product(&mut store, "Cola", Some(drinks.id));
    assert_eq!(products(&mut store)[0].category_name, Some("Drinks".to_string()));

    assert!(run(&mut store, service.delete_category(drinks.id)).is_ok());
    let listed = products(&mut store);
    assert_eq!(listed.len(), 1);
    assert_eq!(listed[0].category_id, Some(drinks.id));
    assert_eq!(listed[0].category_name, None);
}

#[test]
fn soft_deleted_product_is_hidden_but_kept() {
    let mut store = MemoryStore::new();
    let service = InventoryService::new();
    let cola = add_product(&mut store, "Cola", None);
    let tea = add_product(&mut store, "Tea", None);

    assert!(run(&mut store, service.delete_product(cola)).is_ok());

    let listed = products(&mut store);
    assert_eq!(listed.len(), 1);
    assert_eq!(listed[0].id, tea);

    let row = store.product(cola).unwrap();
    assert_eq!(row.id, cola);
    assert_eq!(row.name, "Cola");
    assert!(!row.is_active);
    assert!(store.product(tea).unwrap().is_active);
    assert_eq!(store.product(77), None);

    // Deleting again, or updating the row, does not bring it back, and no new
    // product is given its id.
    assert!(run(&mut store, service.delete_product(cola)).is_ok());
    let update =
        service.update_product(cola, None, "Cola Zero", None, money(1.0), money(0.5), 3, None, None);
    assert!(run(&mut store, update).is_ok());
    assert_eq!(add_product(&mut store, "Mate", None), 3);
    let listed = products(&mut store);
    assert_eq!(listed.len(), 2);
    assert!(listed.iter().all(|product| product.id != cola));
    let row = store.product(cola).unwrap();
    assert_eq!(row.name, "Cola Zero");
    assert!(!row.is_active);
}

#[test]
fn update_product_overwrites_the_chosen_fields() {
    let mut store = MemoryStore::new();
    let service = InventoryService::new();
    let id = add_product(&mut store, "Cola", Some(1));
    let update = service.update_product(
        id,
        None,
        "Cola 1L",
        Some(5),
        money(3.0),
        money(1.75),
        -2,
        Some("bottle"),
        Some("http://img/cola.png"),
    );
    assert!(run(&mut store, update).is_ok());

    let row = store.product(id).unwrap();
    assert_eq!(row.code, None);
    assert_eq!(row.name, "Cola 1L");
    assert_eq!(row.category_id, Some(5));
    assert_eq!(row.price, money(3.0));
    assert_eq!(row.cost, money(1.75));
    // Stock may go below zero: no floor is enforced.
    assert_eq!(row.stock, -2);
    assert_eq!(row.unit, Some("bottle".to_string()));
    assert_eq!(row.image_url, Some("http://img/cola.png".to_string()));
    assert!(row.is_active);

    // An id that no product has: nothing changes, and it is no error.
    let update =
        service.update_product(id + 1, None, "Ghost", None, money(0.0), money(0.0), 0, None, None);
    assert!(run(&mut store, update).is_ok());
    assert_eq!(products(&mut store).len(), 1);
    assert_eq!(store.product(id).unwrap().name, "Cola 1L");
}

#[test]
fn each_operation_asks_its_own_query() {
    let service = InventoryService::new();
    let amount = money(2.0);

    let Step::Ask(flow) = service.get_categories() else { panic!("no flow") };
    assert_eq!(flow.query(), Query::FindAllCategories);

    let Step::Ask(flow) = service.create_category("Tea") else { panic!("no flow") };
    assert_eq!(flow.query(), Query::InsertCategory { name: "Tea".to_string() });

    let Step::Ask(flow) = service.update_category(4, "Tea") else { panic!("no flow") };
    assert_eq!(flow.query(), Query::UpdateCategory { id: 4, name: "Tea".to_string() });

    let Step::Ask(flow) = service.delete_category(4) else { panic!("no flow") };
    assert_eq!(flow.query(), Query::DeleteCategory { id: 4 });

    let Step::Ask(flow) = service.get_products() else { panic!("no flow") };
    assert_eq!(flow.query(), Query::FindAllProducts);

    let fields = || ProductFields {
        code: Some("C".to_string()),
        name: "Cola".to_string(),
        category_id: Some(2),
        price: amount,
        cost: amount,
        stock: 9,
        unit: None,
        image_url: Some("u".to_string()),
    };
    let step = service.create_product(Some("C"), "Cola", Some(2), amount, amount, 9, None, Some("u"));
    let Step::Ask(flow) = step else { panic!("no flow") };
    assert_eq!(flow.query(), Query::InsertProduct { product: fields() });
    assert_eq!(flow.query(), service.inventory_repo.create_product(
        Some("C"), "Cola", Some(2), amount, amount, 9, None, Some("u"),
    ));

    let step =
        service.update_product(6, Some("C"), "Cola", Some(2), amount, amount, 9, None, Some("u"));
    let Step::Ask(flow) = step else { panic!("no flow") };
    assert_eq!(flow.query(), Query::UpdateProduct { id: 6, product: fields() });

    let Step::Ask(flow) = service.delete_product(6) else { panic!("no flow") };
    assert_eq!(flow.query(), Query::SoftDeleteProduct { id: 6 });
}

#[test]
fn inventory_operations_pass_storage_failures_on() {
    let service = InventoryService::new();
    let failure = || Reply::Failed(StorageError { message: "io error".to_string() });
    fn is_io_error<F, T>(step: Step<F, T>) -> bool {
        match step {
            Step::Done(Err(ServiceError::StorageError(error))) => error.message == "io error",
            _ => false,
        }
    }
    let Step::Ask(flow) = service.get_categories() else { panic!("no flow") };
    assert!(is_io_error(flow.resume(failure())));
    let Step::Ask(flow) = service.create_category("x") else { panic!("no flow") };
    assert!(is_io_error(flow.resume(failure())));
    let Step::Ask(flow) = service.update_category(1, "x") else { panic!("no flow") };
    assert!(is_io_error(flow.resume(failure())));
    let Step::Ask(flow) = service.delete_category(1) else { panic!("no flow") };
    assert!(is_io_error(flow.resume(failure())));
    let Step::Ask(flow) = service.get_products() else { panic!("no flow") };
    assert!(is_io_error(flow.resume(failure())));
    let Step::Ask(flow) = service.delete_product(1) else { panic!("no flow") };
    assert!(is_io_error(flow.resume(failure())));
    let flow = CreateProductFlow {
        product: ProductFields {
            code: None,
            name: "p".to_string(),
            category_id: None,
            price: money(0.0),
            cost: money(0.0),
            stock: 0,
            unit: None,
            image_url: None,
        },
    };
    assert!(is_io_error(flow.resume(failure())));
}

#[test]
fn inventory_operations_read_each_reply() {
    let service = InventoryService::new();
    let Step::Ask(flow) = service.create_category("Tea") else { panic!("no flow") };
    match flow.resume(Reply::Inserted(3)) {
        Step::Done(Ok(category)) => {
            assert_eq!(category, Category { id: 3, name: "Tea".to_string() })
        }
        other => panic!("unexpected step: {:?}", other),
    }
    let Step::Ask(flow) = service.update_category(3, "Tea") else { panic!("no flow") };
    assert!(matches!(flow.resume(Reply::Done), Step::Done(Ok(()))));
    // A reply of another kind is a failure of the store.
    let Step::Ask(flow) = service.delete_product(3) else { panic!("no flow") };
    match flow.resume(Reply::Inserted(1)) {
        Step::Done(Err(ServiceError::StorageError(error))) => {
            assert_eq!(error.message, "unexpected reply from storage")
        }
        other => panic!("unexpected step: {:?}", other),
    }
    let Step::Ask(flow) = service.get_products() else { panic!("no flow") };
    assert!(matches!(flow.resume(Reply::Categories(vec![])), Step::Done(Err(_))));
}
