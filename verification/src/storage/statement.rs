//! The statement that carries a query to a relational store: its text, the
//! values bound to its placeholders in order, and the kind of result to read.

use vstd::prelude::*;

use crate::models::inventory::{Amount, ProductFields, ProductFieldsView};
use crate::models::store::{StoreFields, StoreFieldsView};
use crate::models::user::NewUser;
use crate::storage::query::{Query, QueryView};

verus! {

/// A value bound to a placeholder.
#[derive(Debug, PartialEq)]
pub enum Param {
    Null,
    Integer(i64),
    Real(Amount),
    Text(String),
    Bool(bool),
}

/// What a [`Param`] stands for in contracts.
pub enum ParamView {
    Null,
    Integer(i64),
    Real(Amount),
    Text(Seq<char>),
    Bool(bool),
}

impl View for Param {
    type V = ParamView;

    open spec fn view(&self) -> ParamView {
        match self {
            Param::Null => ParamView::Null,
            Param::Integer(value) => ParamView::Integer(*value),
            Param::Real(value) => ParamView::Real(*value),
            Param::Text(value) => ParamView::Text(value@),
            Param::Bool(value) => ParamView::Bool(*value),
        }
    }
}

impl DeepView for Param {
    type V = ParamView;

    open spec fn deep_view(&self) -> ParamView {
        self@
    }
}

/// What the host reads from the result of a statement, and so which kind of
/// reply it hands back.
#[derive(Debug, Clone, Copy, PartialEq, Eq)]
pub enum Shape {
    /// Nothing: the reply is `Done`.
    Nothing,
    /// The id of the row inserted last: the reply is `Inserted`.
    InsertedId,
    /// One row with one number: the reply is `Count`.
    Count,
    /// At most one account: the reply is `User`.
    OneUser,
    /// Accounts: the reply is `Users`.
    Users,
    /// At most one role: the reply is `Role`.
    OneRole,
    /// Stores: the reply is `Stores`.
    Stores,
    /// Categories: the reply is `Categories`.
    Categories,
    /// Products with their category names: the reply is `Products`.
    Products,
}

/// A statement ready to be run.
#[derive(Debug, PartialEq)]
pub struct Statement {
    pub sql: String,
    pub params: Vec<Param>,
    pub shape: Shape,
}

/// What a [`Statement`] stands for in contracts.
pub struct StatementView {
    pub sql: Seq<char>,
    pub params: Seq<ParamView>,
    pub shape: Shape,
}

impl View for Statement {
    type V = StatementView;

    open spec fn view(&self) -> StatementView {
        StatementView { sql: self.sql@, params: self.params.deep_view(), shape: self.shape }
    }
}

/// An optional text as a bound value.
pub open spec fn text_or_null(value: Option<Seq<char>>) -> ParamView {
    match value {
        Some(text) => ParamView::Text(text),
        None => ParamView::Null,
    }
}

/// An optional number as a bound value.
pub open spec fn integer_or_null(value: Option<i64>) -> ParamView {
    match value {
        Some(number) => ParamView::Integer(number),
        None => ParamView::Null,
    }
}

/// The columns of an account, as every read of accounts names them.
pub open spec fn select_users() -> Seq<char> {
    "SELECT id, username, password_hash, cargo, email, store_id, is_active, created_at FROM users"@
}

/// The text of the statement for a query.
pub open spec fn sql_of(query: QueryView) -> Seq<char> {
    match query {
        QueryView::FindUserByUsername { .. } => select_users() + " WHERE username = ?"@,
        QueryView::InsertUser { .. } =>
            "INSERT INTO users (username, password_hash, cargo, email, store_id, is_active) VALUES (?, ?, ?, ?, ?, ?)"@,
        QueryView::CountUsers => "SELECT COUNT(*) FROM users"@,
        QueryView::FindAllUsers => select_users() + " WHERE is_active = 1"@,
        QueryView::FindRoleByName { .. } => "SELECT id, role_name FROM roles WHERE role_name = ?"@,
        QueryView::InsertRole { .. } => "INSERT INTO roles (role_name) VALUES (?)"@,
        QueryView::AssignRole { .. } =>
            "INSERT OR IGNORE INTO user_roles (user_id, role_id) VALUES (?, ?)"@,
        QueryView::FindUserById { .. } => select_users() + " WHERE id = ?"@,
        QueryView::UpdateUser { .. } =>
            "UPDATE users SET cargo = ?, email = ?, store_id = ? WHERE id = ?"@,
        QueryView::SoftDeleteUser { .. } => "UPDATE users SET is_active = 0 WHERE id = ?"@,
        QueryView::FindUsersByStore { .. } => select_users()
            + " WHERE store_id = ? AND is_active = 1"@,
        QueryView::FindAllStores => "SELECT * FROM stores WHERE is_active = 1"@,
        QueryView::InsertStore { .. } => "INSERT INTO stores (name, address, code) VALUES (?, ?, ?)"@,
        QueryView::UpdateStore { .. } =>
            "UPDATE stores SET name = ?, address = ?, code = ? WHERE id = ?"@,
        QueryView::SoftDeleteStore { .. } => "UPDATE stores SET is_active = 0 WHERE id = ?"@,
        QueryView::FindAllCategories => "SELECT * FROM categories ORDER BY name ASC"@,
        QueryView::InsertCategory { .. } => "INSERT INTO categories (name) VALUES (?)"@,
        QueryView::UpdateCategory { .. } => "UPDATE categories SET name = ? WHERE id = ?"@,
        QueryView::DeleteCategory { .. } => "DELETE FROM categories WHERE id = ?"@,
        QueryView::FindAllProducts =>
            "SELECT p.id, p.code, p.name, p.category_id, c.name as category_name, p.price, p.cost, p.stock, p.min_stock, p.unit, p.image_url, p.is_active, p.created_at FROM products p LEFT JOIN categories c ON p.category_id = c.id WHERE p.is_active = 1 ORDER BY p.name ASC"@,
        QueryView::InsertProduct { .. } =>
            "INSERT INTO products (code, name, category_id, price, cost, stock, unit, image_url) VALUES (?, ?, ?, ?, ?, ?, ?, ?)"@,
        QueryView::UpdateProduct { .. } =>
            "UPDATE products SET code=?, name=?, category_id=?, price=?, cost=?, stock=?, unit=?, image_url=? WHERE id=?"@,
        QueryView::SoftDeleteProduct { .. } => "UPDATE products SET is_active = 0 WHERE id = ?"@,
    }
}

/// The values that a statement about a product binds for the fields that a
/// caller chooses, in the order of the columns.
pub open spec fn product_params(product: ProductFieldsView) -> Seq<ParamView> {
    seq![
        text_or_null(product.code),
        ParamView::Text(product.name),
        integer_or_null(product.category_id),
        ParamView::Real(product.price),
        ParamView::Real(product.cost),
        ParamView::Integer(product.stock),
        text_or_null(product.unit),
        text_or_null(product.image_url),
    ]
}

/// The values that a statement about a store binds for the fields that a
/// caller chooses, in the order of the columns.
pub open spec fn store_params(store: StoreFieldsView) -> Seq<ParamView> {
    seq![ParamView::Text(store.name), text_or_null(store.address), text_or_null(store.code)]
}

/// The values bound to the placeholders of the statement for a query, in
/// order.
pub open spec fn params_of(query: QueryView) -> Seq<ParamView> {
    match query {
        QueryView::FindUserByUsername { username } => seq![ParamView::Text(username)],
        QueryView::InsertUser { user } => seq![
            ParamView::Text(user.username),
            ParamView::Text(user.password_hash),
            text_or_null(user.cargo),
            text_or_null(user.email),
            integer_or_null(user.store_id),
            ParamView::Bool(true),
        ],
        QueryView::CountUsers => seq![],
        QueryView::FindAllUsers => seq![],
        QueryView::FindRoleByName { role_name } => seq![ParamView::Text(role_name)],
        QueryView::InsertRole { role_name } => seq![ParamView::Text(role_name)],
        QueryView::AssignRole { user_id, role_id } => seq![
            ParamView::Integer(user_id),
            ParamView::Integer(role_id),
        ],
        QueryView::FindUserById { id } => seq![ParamView::Integer(id)],
        QueryView::UpdateUser { id, cargo, email, store_id } => seq![
            text_or_null(cargo),
            text_or_null(email),
            integer_or_null(store_id),
            ParamView::Integer(id),
        ],
        QueryView::SoftDeleteUser { id } => seq![ParamView::Integer(id)],
        QueryView::FindUsersByStore { store_id } => seq![ParamView::Integer(store_id)],
        QueryView::FindAllStores => seq![],
        QueryView::InsertStore { store } => store_params(store),
        QueryView::UpdateStore { id, store } => store_params(store).push(ParamView::Integer(id)),
        QueryView::SoftDeleteStore { id } => seq![ParamView::Integer(id)],
        QueryView::FindAllCategories => seq![],
        QueryView::InsertCategory { name } => seq![ParamView::Text(name)],
        QueryView::UpdateCategory { id, name } => seq![
            ParamView::Text(name),
            ParamView::Integer(id),
        ],
        QueryView::DeleteCategory { id } => seq![ParamView::Integer(id)],
        QueryView::FindAllProducts => seq![],
        QueryView::InsertProduct { product } => product_params(product),
        QueryView::UpdateProduct { id, product } => product_params(product).push(
            ParamView::Integer(id),
        ),
        QueryView::SoftDeleteProduct { id } => seq![ParamView::Integer(id)],
    }
}

/// What the host reads from the result of the statement for a query.
pub open spec fn shape_of(query: QueryView) -> Shape {
    match query {
        QueryView::FindUserByUsername { .. } | QueryView::FindUserById { .. } => Shape::OneUser,
        QueryView::FindAllUsers | QueryView::FindUsersByStore { .. } => Shape::Users,
        QueryView::CountUsers => Shape::Count,
        QueryView::FindRoleByName { .. } => Shape::OneRole,
        QueryView::FindAllStores => Shape::Stores,
        QueryView::FindAllCategories => Shape::Categories,
        QueryView::FindAllProducts => Shape::Products,
        QueryView::InsertUser { .. }
        | QueryView::InsertRole { .. }
        | QueryView::InsertStore { .. }
        | QueryView::InsertCategory { .. }
        | QueryView::InsertProduct { .. } => Shape::InsertedId,
        QueryView::AssignRole { .. }
        | QueryView::UpdateUser { .. }
        | QueryView::SoftDeleteUser { .. }
        | QueryView::UpdateStore { .. }
        | QueryView::SoftDeleteStore { .. }
        | QueryView::UpdateCategory { .. }
        | QueryView::DeleteCategory { .. }
        | QueryView::UpdateProduct { .. }
        | QueryView::SoftDeleteProduct { .. } => Shape::Nothing,
    }
}

/// The statement for a query.
pub open spec fn statement_of(query: QueryView) -> StatementView {
    StatementView { sql: sql_of(query), params: params_of(query), shape: shape_of(query) }
}

/// A text as a bound value.
fn text(value: &String) -> (param: Param)
    ensures
        param@ == ParamView::Text(value@),
{
    Param::Text(value.clone())
}

/// An optional text as a bound value: `NULL` where there is none.
fn optional_text(value: &Option<String>) -> (param: Param)
    ensures
        param@ == text_or_null(crate::models::user::opt_text(*value)),
{
    match value {
        Some(text) => Param::Text(text.clone()),
        None => Param::Null,
    }
}

/// An optional number as a bound value: `NULL` where there is none.
fn optional_integer(value: Option<i64>) -> (param: Param)
    ensures
        param@ == integer_or_null(value),
{
    match value {
        Some(number) => Param::Integer(number),
        None => Param::Null,
    }
}

/// The text that every read of accounts starts with, followed by `clause`.
fn users_where(clause: &str) -> (sql: String)
    ensures
        sql@ == select_users() + clause@,
{
    let mut sql =
        "SELECT id, username, password_hash, cargo, email, store_id, is_active, created_at FROM users".to_string();
    sql.append(clause);
    sql
}

/// The bound values for the fields of a product, in the order of the columns.
fn bind_product(product: &ProductFields) -> (params: Vec<Param>)
    ensures
        params.deep_view() == product_params(product@),
{
    let mut params: Vec<Param> = Vec::new();
    params.push(optional_text(&product.code));
    params.push(text(&product.name));
    params.push(optional_integer(product.category_id));
    params.push(Param::Real(product.price));
    params.push(Param::Real(product.cost));
    params.push(Param::Integer(product.stock));
    params.push(optional_text(&product.unit));
    params.push(optional_text(&product.image_url));
    assert(params.deep_view() =~= product_params(product@));
    params
}

/// The bound values for the fields of a store, in the order of the columns.
fn bind_store(store: &StoreFields) -> (params: Vec<Param>)
    ensures
        params.deep_view() == store_params(store@),
{
    let mut params: Vec<Param> = Vec::new();
    params.push(text(&store.name));
    params.push(optional_text(&store.address));
    params.push(optional_text(&store.code));
    assert(params.deep_view() =~= store_params(store@));
    params
}

/// The bound values for a new account, in the order of the columns.
fn bind_user(user: &NewUser) -> (params: Vec<Param>)
    ensures
        params.deep_view() == params_of(QueryView::InsertUser { user: user@ }),
{
    let mut params: Vec<Param> = Vec::new();
    params.push(text(&user.username));
    params.push(text(&user.password_hash));
    params.push(optional_text(&user.cargo));
    params.push(optional_text(&user.email));
    params.push(optional_integer(user.store_id));
    params.push(Param::Bool(true));
    assert(params.deep_view() =~= params_of(QueryView::InsertUser { user: user@ }));
    params
}

/// No bound value.
fn bind_nothing() -> (params: Vec<Param>)
    ensures
        params.deep_view() == Seq::<ParamView>::empty(),
{
    let params: Vec<Param> = Vec::new();
    assert(params.deep_view() =~= Seq::<ParamView>::empty());
    params
}

/// One bound value.
fn bind_one(first: Param) -> (params: Vec<Param>)
    ensures
        params.deep_view() == seq![first@],
{
    let mut params: Vec<Param> = Vec::new();
    params.push(first);
    assert(params.deep_view() =~= seq![first@]);
    params
}

/// `params` with one more bound value at its end.
fn bind_more(params: Vec<Param>, last: Param) -> (more: Vec<Param>)
    ensures
        more.deep_view() == params.deep_view().push(last@),
{
    let mut more = params;
    more.push(last);
    assert(more.deep_view() =~= params.deep_view().push(last@));
    more
}

impl Query {
    /// The values to bind to the placeholders of the statement, in order.
    pub fn params(&self) -> (params: Vec<Param>)
        ensures
            params.deep_view() == params_of(self@),
    {
        let params = match self {
            Query::FindUserByUsername { username } => bind_one(text(username)),
            Query::InsertUser { user } => bind_user(user),
            Query::CountUsers => bind_nothing(),
            Query::FindAllUsers => bind_nothing(),
            Query::FindRoleByName { role_name } => bind_one(text(role_name)),
            Query::InsertRole { role_name } => bind_one(text(role_name)),
            Query::AssignRole { user_id, role_id } => bind_more(
                bind_one(Param::Integer(*user_id)),
                Param::Integer(*role_id),
            ),
            Query::FindUserById { id } => bind_one(Param::Integer(*id)),
            Query::UpdateUser { id, cargo, email, store_id } => bind_more(
                bind_more(
                    bind_more(bind_one(optional_text(cargo)), optional_text(email)),
                    optional_integer(*store_id),
                ),
                Param::Integer(*id),
            ),
            Query::SoftDeleteUser { id } => bind_one(Param::Integer(*id)),
            Query::FindUsersByStore { store_id } => bind_one(Param::Integer(*store_id)),
            Query::FindAllStores => bind_nothing(),
            Query::InsertStore { store } => bind_store(store),
            Query::UpdateStore { id, store } => bind_more(bind_store(store), Param::Integer(*id)),
            Query::SoftDeleteStore { id } => bind_one(Param::Integer(*id)),
            Query::FindAllCategories => bind_nothing(),
            Query::InsertCategory { name } => bind_one(text(name)),
            Query::UpdateCategory { id, name } => bind_more(
                bind_one(text(name)),
                Param::Integer(*id),
            ),
            Query::DeleteCategory { id } => bind_one(Param::Integer(*id)),
            Query::FindAllProducts => bind_nothing(),
            Query::InsertProduct { product } => bind_product(product),
            Query::UpdateProduct { id, product } => bind_more(
                bind_product(product),
                Param::Integer(*id),
            ),
            Query::SoftDeleteProduct { id } => bind_one(Param::Integer(*id)),
        };
        assert(params.deep_view() =~= params_of(self@));
        params
    }

    /// The text of the statement, with one `?` for each bound value.
    pub fn sql(&self) -> (sql: String)
        ensures
            sql@ == sql_of(self@),
    {
        match self {
            Query::FindUserByUsername { .. } => users_where(" WHERE username = ?"),
            Query::InsertUser { .. } =>
                "INSERT INTO users (username, password_hash, cargo, email, store_id, is_active) VALUES (?, ?, ?, ?, ?, ?)".to_string(),
            Query::CountUsers => "SELECT COUNT(*) FROM users".to_string(),
            Query::FindAllUsers => users_where(" WHERE is_active = 1"),
            Query::FindRoleByName { .. } =>
                "SELECT id, role_name FROM roles WHERE role_name = ?".to_string(),
            Query::InsertRole { .. } => "INSERT INTO roles (role_name) VALUES (?)".to_string(),
            Query::AssignRole { .. } =>
                "INSERT OR IGNORE INTO user_roles (user_id, role_id) VALUES (?, ?)".to_string(),
            Query::FindUserById { .. } => users_where(" WHERE id = ?"),
            Query::UpdateUser { .. } =>
                "UPDATE users SET cargo = ?, email = ?, store_id = ? WHERE id = ?".to_string(),
            Query::SoftDeleteUser { .. } =>
                "UPDATE users SET is_active = 0 WHERE id = ?".to_string(),
            Query::FindUsersByStore { .. } => users_where(" WHERE store_id = ? AND is_active = 1"),
            Query::FindAllStores => "SELECT * FROM stores WHERE is_active = 1".to_string(),
            Query::InsertStore { .. } =>
                "INSERT INTO stores (name, address, code) VALUES (?, ?, ?)".to_string(),
            Query::UpdateStore { .. } =>
                "UPDATE stores SET name = ?, address = ?, code = ? WHERE id = ?".to_string(),
            Query::SoftDeleteStore { .. } =>
                "UPDATE stores SET is_active = 0 WHERE id = ?".to_string(),
            Query::FindAllCategories => "SELECT * FROM categories ORDER BY name ASC".to_string(),
            Query::InsertCategory { .. } => "INSERT INTO categories (name) VALUES (?)".to_string(),
            Query::UpdateCategory { .. } =>
                "UPDATE categories SET name = ? WHERE id = ?".to_string(),
            Query::DeleteCategory { .. } => "DELETE FROM categories WHERE id = ?".to_string(),
            Query::FindAllProducts =>
                "SELECT p.id, p.code, p.name, p.category_id, c.name as category_name, p.price, p.cost, p.stock, p.min_stock, p.unit, p.image_url, p.is_active, p.created_at FROM products p LEFT JOIN categories c ON p.category_id = c.id WHERE p.is_active = 1 ORDER BY p.name ASC".to_string(),
            Query::InsertProduct { .. } =>
                "INSERT INTO products (code, name, category_id, price, cost, stock, unit, image_url) VALUES (?, ?, ?, ?, ?, ?, ?, ?)".to_string(),
            Query::UpdateProduct { .. } =>
                "UPDATE products SET code=?, name=?, category_id=?, price=?, cost=?, stock=?, unit=?, image_url=? WHERE id=?".to_string(),
            Query::SoftDeleteProduct { .. } =>
                "UPDATE products SET is_active = 0 WHERE id = ?".to_string(),
        }
    }

    /// What the host is to read from the result of the statement.
    pub fn shape(&self) -> (shape: Shape)
        ensures
            shape == shape_of(self@),
    {
        match self {
            Query::FindUserByUsername { .. } | Query::FindUserById { .. } => Shape::OneUser,
            Query::FindAllUsers | Query::FindUsersByStore { .. } => Shape::Users,
            Query::CountUsers => Shape::Count,
            Query::FindRoleByName { .. } => Shape::OneRole,
            Query::FindAllStores => Shape::Stores,
            Query::FindAllCategories => Shape::Categories,
            Query::FindAllProducts => Shape::Products,
            Query::InsertUser { .. }
            | Query::InsertRole { .. }
            | Query::InsertStore { .. }
            | Query::InsertCategory { .. }
            | Query::InsertProduct { .. } => Shape::InsertedId,
            Query::AssignRole { .. }
            | Query::UpdateUser { .. }
            | Query::SoftDeleteUser { .. }
            | Query::UpdateStore { .. }
            | Query::SoftDeleteStore { .. }
            | Query::UpdateCategory { .. }
            | Query::DeleteCategory { .. }
            | Query::UpdateProduct { .. }
            | Query::SoftDeleteProduct { .. } => Shape::Nothing,
        }
    }

    /// The statement that carries this query to a relational store.
    pub fn statement(&self) -> (statement: Statement)
        ensures
            statement@ == statement_of(self@),
    {
        Statement { sql: self.sql(), params: self.params(), shape: self.shape() }
    }
}

} // verus!
