use pos_core::db::{database_file, database_url};
use pos_core::models::inventory::Amount;
use pos_core::repositories::inventory_repo::InventoryRepository;
use pos_core::repositories::store_repo::StoreRepository;
use pos_core::repositories::user_repo::UserRepository;
use pos_core::storage::query::Query;
use pos_core::storage::statement::{Param, Shape, Statement};

const USER_COLUMNS: &str =
    "SELECT id, username, password_hash, cargo, email, store_id, is_active, created_at FROM users";

fn text(value: &str) -> Param {
    Param::Text(value.to_string())
}

fn placeholders(sql: &str) -> usize {
    sql.chars().filter(|c| *c == '?').count()
}

#[test]
fn user_statements() {
    let repo = UserRepository::new();

    let statement = repo.find_by_username("ana").statement();
    assert_eq!(statement.sql, format!("{} WHERE username = ?", USER_COLUMNS));
    assert_eq!(statement.params, vec![text("ana")]);
    assert_eq!(statement.shape, Shape::OneUser);

    let statement = repo.create_user("ana", "h", Some("Cashier"), None, Some(3)).statement();
    assert_eq!(
        statement,
        Statement {
            sql: "INSERT INTO users (username, password_hash, cargo, email, store_id, is_active) VALUES (?, ?, ?, ?, ?, ?)".to_string(),
            params: vec![
                text("ana"),
                text("h"),
                text("Cashier"),
                Param::Null,
                Param::Integer(3),
                Param::Bool(true),
            ],
            shape: Shape::InsertedId,
        }
    );

    let statement = repo.count_users().statement();
    assert_eq!(statement.sql, "SELECT COUNT(*) FROM users");
    assert!(statement.params.is_empty());
    assert_eq!(statement.shape, Shape::Count);

    let statement = repo.find_all_users().statement();
    assert_eq!(statement.sql, format!("{} WHERE is_active = 1", USER_COLUMNS));
    assert!(statement.params.is_empty());
    assert_eq!(statement.shape, Shape::Users);

    let statement = repo.find_user_by_id(8).statement();
    assert_eq!(statement.sql, format!("{} WHERE id = ?", USER_COLUMNS));
    assert_eq!(statement.params, vec![Param::Integer(8)]);
    assert_eq!(statement.shape, Shape::OneUser);

    let statement = repo.update_user(8, None, Some("a@b.c"), None).statement();
    assert_eq!(statement.sql, "UPDATE users SET cargo = ?, email = ?, store_id = ? WHERE id = ?");
    assert_eq!(
        statement.params,
        vec![Param::Null, text("a@b.c"), Param::Null, Param::Integer(8)]
    );
    assert_eq!(statement.shape, Shape::Nothing);

    let statement = repo.soft_delete_user(8).statement();
    assert_eq!(statement.sql, "UPDATE users SET is_active = 0 WHERE id = ?");
    assert_eq!(statement.params, vec![Param::Integer(8)]);
    assert_eq!(statement.shape, Shape::Nothing);

    let statement = repo.get_users_by_store(2).statement();
    assert_eq!(statement.sql, format!("{} WHERE store_id = ? AND is_active = 1", USER_COLUMNS));
    assert_eq!(statement.params, vec![Param::Integer(2)]);
    assert_eq!(statement.shape, Shape::Users);
}

#[test]
fn role_statements() {
    let repo = UserRepository::new();

    let statement = repo.find_role_by_name("ADMIN").statement();
    assert_eq!(statement.sql, "SELECT id, role_name FROM roles WHERE role_name = ?");
    assert_eq!(statement.params, vec![text("ADMIN")]);
    assert_eq!(statement.shape, Shape::OneRole);

    let statement = repo.create_role("ADMIN").statement();
    assert_eq!(statement.sql, "INSERT INTO roles (role_name) VALUES (?)");
    assert_eq!(statement.params, vec![text("ADMIN")]);
    assert_eq!(statement.shape, Shape::InsertedId);

    let statement = repo.assign_role(5, 2).statement();
    assert_eq!(
        statement.sql,
        "INSERT OR IGNORE INTO user_roles (user_id, role_id) VALUES (?, ?)"
    );
    assert_eq!(statement.params, vec![Param::Integer(5), Param::Integer(2)]);
    assert_eq!(statement.shape, Shape::Nothing);
}

#[test]
fn store_statements() {
    let repo = StoreRepository::new();

    let statement = repo.find_all().statement();
    assert_eq!(statement.sql, "SELECT * FROM stores WHERE is_active = 1");
    assert!(statement.params.is_empty());
    assert_eq!(statement.shape, Shape::Stores);

    let statement = repo.create("Centro", Some("Main St 1"), None).statement();
    assert_eq!(statement.sql, "INSERT INTO stores (name, address, code) VALUES (?, ?, ?)");
    assert_eq!(statement.params, vec![text("Centro"), text("Main St 1"), Param::Null]);
    assert_eq!(statement.shape, Shape::InsertedId);

    let statement = repo.update(3, "Centro", None, Some("C01")).statement();
    assert_eq!(statement.sql, "UPDATE stores SET name = ?, address = ?, code = ? WHERE id = ?");
    assert_eq!(
        statement.params,
        vec![text("Centro"), Param::Null, text("C01"), Param::Integer(3)]
    );
    assert_eq!(statement.shape, Shape::Nothing);

    let statement = repo.soft_delete(3).statement();
    assert_eq!(statement.sql, "UPDATE stores SET is_active = 0 WHERE id = ?");
    assert_eq!(statement.params, vec![Param::Integer(3)]);
}

#[test]
fn category_statements() {
    let repo = InventoryRepository::new();

    let statement = repo.get_categories().statement();
    assert_eq!(statement.sql, "SELECT * FROM categories ORDER BY name ASC");
    assert!(statement.params.is_empty());
    assert_eq!(statement.shape, Shape::Categories);

    let statement = repo.create_category("Drinks").statement();
    assert_eq!(statement.sql, "INSERT INTO categories (name) VALUES (?)");
    assert_eq!(statement.params, vec![text("Drinks")]);
    assert_eq!(statement.shape, Shape::InsertedId);

    let statement = repo.update_category(4, "Drinks").statement();
    assert_eq!(statement.sql, "UPDATE categories SET name = ? WHERE id = ?");
    assert_eq!(statement.params, vec![text("Drinks"), Param::Integer(4)]);
    assert_eq!(statement.shape, Shape::Nothing);

    let statement = repo.delete_category(4).statement();
    assert_eq!(statement.sql, "DELETE FROM categories WHERE id = ?");
    assert_eq!(statement.params, vec![Param::Integer(4)]);
    assert_eq!(statement.shape, Shape::Nothing);
}

#[test]
fn product_statements() {
    let repo = InventoryRepository::new();
    let price = Amount { bits: 19.99f64.to_bits() };
    let cost = Amount { bits: 11.0f64.to_bits() };

    let statement = repo.get_products().statement();
    assert_eq!(
        statement.sql,
        "SELECT p.id, p.code, p.name, p.category_id, c.name as category_name, p.price, p.cost, \
         p.stock, p.min_stock, p.unit, p.image_url, p.is_active, p.created_at FROM products p \
         LEFT JOIN categories c ON p.category_id = c.id WHERE p.is_active = 1 ORDER BY p.name ASC"
    );
    assert!(statement.params.is_empty());
    assert_eq!(statement.shape, Shape::Products);

    let query = repo.create_product(None, "Cola", Some(2), price, cost, 7, Some("can"), None);
    let statement = query.statement();
    assert_eq!(
        statement.sql,
        "INSERT INTO products (code, name, category_id, price, cost, stock, unit, image_url) VALUES (?, ?, ?, ?, ?, ?, ?, ?)"
    );
    assert_eq!(
        statement.params,
        vec![
            Param::Null,
            text("Cola"),
            Param::Integer(2),
            Param::Real(price),
            Param::Real(cost),
            Param::Integer(7),
            text("can"),
            Param::Null,
        ]
    );
    assert_eq!(statement.shape, Shape::InsertedId);

    let query =
        repo.update_product(6, Some("C-1"), "Cola", None, price, cost, -1, None, Some("u"));
    let statement = query.statement();
    assert_eq!(
        statement.sql,
        "UPDATE products SET code=?, name=?, category_id=?, price=?, cost=?, stock=?, unit=?, image_url=? WHERE id=?"
    );
    assert_eq!(
        statement.params,
        vec![
            text("C-1"),
            text("Cola"),
            Param::Null,
            Param::Real(price),
            Param::Real(cost),
            Param::Integer(-1),
            Param::Null,
            text("u"),
            Param::Integer(6),
        ]
    );
    assert_eq!(statement.shape, Shape::Nothing);

    let statement = repo.soft_delete_product(6).statement();
    assert_eq!(statement.sql, "UPDATE products SET is_active = 0 WHERE id = ?");
    assert_eq!(statement.params, vec![Param::Integer(6)]);
}

#[test]
fn every_statement_has_one_placeholder_for_each_value() {
    let users = UserRepository::new();
    let stores = StoreRepository::new();
    let inventory = InventoryRepository::new();
    let amount = Amount { bits: 1.0f64.to_bits() };
    let queries: Vec<Query> = vec![
        users.find_by_username("a"),
        users.create_user("a", "h", None, None, None),
        users.count_users(),
        users.find_all_users(),
        users.find_role_by_name("r"),
        users.create_role("r"),
        users.assign_role(1, 2),
        users.find_user_by_id(1),
        users.update_user(1, None, None, None),
        users.soft_delete_user(1),
        users.get_users_by_store(1),
        stores.find_all(),
        stores.create("s", None, None),
        stores.update(1, "s", None, None),
        stores.soft_delete(1),
        inventory.get_categories(),
        inventory.create_category("c"),
        inventory.update_category(1, "c"),
        inventory.delete_category(1),
        inventory.get_products(),
        inventory.create_product(None, "p", None, amount, amount, 0, None, None),
        inventory.update_product(1, None, "p", None, amount, amount, 0, None, None),
        inventory.soft_delete_product(1),
    ];
    assert_eq!(queries.len(), 23);
    for query in &queries {
        let statement = query.statement();
        assert_eq!(placeholders(&statement.sql), statement.params.len(), "{}", statement.sql);
        assert_eq!(statement.sql, query.sql());
        assert_eq!(statement.params, query.params());
        assert_eq!(statement.shape, query.shape());
    }
}

#[test]
fn database_address() {
    assert_eq!(database_file(), "pos.db");
    assert_eq!(database_url("/home/ana/.local/share/pos/pos.db"), "sqlite:///home/ana/.local/share/pos/pos.db");
    assert_eq!(database_url(""), "sqlite://");
}
