//! What the library asks of the store.

use vstd::prelude::*;

use crate::models::inventory::{ProductFields, ProductFieldsView};
use crate::models::store::{StoreFields, StoreFieldsView};
use crate::models::user::{opt_text, NewUser, NewUserView};

verus! {

/// One request to the store. The host runs it as one statement and hands back
/// one [`crate::storage::reply::Reply`].
#[derive(Debug, PartialEq)]
#[allow(inconsistent_fields)]
pub enum Query {
    /// The account with this username, active or not.
    FindUserByUsername { username: String },
    /// Store a new, active account.
    InsertUser { user: NewUser },
    /// The number of accounts, active or not.
    CountUsers,
    /// The active accounts.
    FindAllUsers,
    /// The role with this name.
    FindRoleByName { role_name: String },
    /// Store a new role.
    InsertRole { role_name: String },
    /// Give the account the role, unless it already holds it.
    AssignRole { user_id: i64, role_id: i64 },
    /// The account with this id, active or not.
    FindUserById { id: i64 },
    /// Overwrite the label, e-mail address and store of the account.
    UpdateUser { id: i64, cargo: Option<String>, email: Option<String>, store_id: Option<i64> },
    /// Mark the account inactive.
    SoftDeleteUser { id: i64 },
    /// The active accounts assigned to the store.
    FindUsersByStore { store_id: i64 },
    /// The active stores.
    FindAllStores,
    /// Store a new, active store.
    InsertStore { store: StoreFields },
    /// Overwrite name, address and code of the store.
    UpdateStore { id: i64, store: StoreFields },
    /// Mark the store inactive.
    SoftDeleteStore { id: i64 },
    /// All categories.
    FindAllCategories,
    /// Store a new category.
    InsertCategory { name: String },
    /// Rename the category.
    UpdateCategory { id: i64, name: String },
    /// Remove the category.
    DeleteCategory { id: i64 },
    /// The active products, each with the name of its category.
    FindAllProducts,
    /// Store a new, active product.
    InsertProduct { product: ProductFields },
    /// Overwrite the fields of the product that a caller chooses.
    UpdateProduct { id: i64, product: ProductFields },
    /// Mark the product inactive.
    SoftDeleteProduct { id: i64 },
}

/// What a [`Query`] stands for in contracts.
#[allow(inconsistent_fields)]
pub enum QueryView {
    FindUserByUsername { username: Seq<char> },
    InsertUser { user: NewUserView },
    CountUsers,
    FindAllUsers,
    FindRoleByName { role_name: Seq<char> },
    InsertRole { role_name: Seq<char> },
    AssignRole { user_id: i64, role_id: i64 },
    FindUserById { id: i64 },
    UpdateUser {
        id: i64,
        cargo: Option<Seq<char>>,
        email: Option<Seq<char>>,
        store_id: Option<i64>,
    },
    SoftDeleteUser { id: i64 },
    FindUsersByStore { store_id: i64 },
    FindAllStores,
    InsertStore { store: StoreFieldsView },
    UpdateStore { id: i64, store: StoreFieldsView },
    SoftDeleteStore { id: i64 },
    FindAllCategories,
    InsertCategory { name: Seq<char> },
    UpdateCategory { id: i64, name: Seq<char> },
    DeleteCategory { id: i64 },
    FindAllProducts,
    InsertProduct { product: ProductFieldsView },
    UpdateProduct { id: i64, product: ProductFieldsView },
    SoftDeleteProduct { id: i64 },
}

impl View for Query {
    type V = QueryView;

    open spec fn view(&self) -> QueryView {
        match self {
            Query::FindUserByUsername { username } => QueryView::FindUserByUsername {
                username: username@,
            },
            Query::InsertUser { user } => QueryView::InsertUser { user: user@ },
            Query::CountUsers => QueryView::CountUsers,
            Query::FindAllUsers => QueryView::FindAllUsers,
            Query::FindRoleByName { role_name } => QueryView::FindRoleByName {
                role_name: role_name@,
            },
            Query::InsertRole { role_name } => QueryView::InsertRole { role_name: role_name@ },
            Query::AssignRole { user_id, role_id } => QueryView::AssignRole {
                user_id: *user_id,
                role_id: *role_id,
            },
            Query::FindUserById { id } => QueryView::FindUserById { id: *id },
            Query::UpdateUser { id, cargo, email, store_id } => QueryView::UpdateUser {
                id: *id,
                cargo: opt_text(*cargo),
                email: opt_text(*email),
                store_id: *store_id,
            },
            Query::SoftDeleteUser { id } => QueryView::SoftDeleteUser { id: *id },
            Query::FindUsersByStore { store_id } => QueryView::FindUsersByStore {
                store_id: *store_id,
            },
            Query::FindAllStores => QueryView::FindAllStores,
            Query::InsertStore { store } => QueryView::InsertStore { store: store@ },
            Query::UpdateStore { id, store } => QueryView::UpdateStore { id: *id, store: store@ },
            Query::SoftDeleteStore { id } => QueryView::SoftDeleteStore { id: *id },
            Query::FindAllCategories => QueryView::FindAllCategories,
            Query::InsertCategory { name } => QueryView::InsertCategory { name: name@ },
            Query::UpdateCategory { id, name } => QueryView::UpdateCategory {
                id: *id,
                name: name@,
            },
            Query::DeleteCategory { id } => QueryView::DeleteCategory { id: *id },
            Query::FindAllProducts => QueryView::FindAllProducts,
            Query::InsertProduct { product } => QueryView::InsertProduct { product: product@ },
            Query::UpdateProduct { id, product } => QueryView::UpdateProduct {
                id: *id,
                product: product@,
            },
            Query::SoftDeleteProduct { id } => QueryView::SoftDeleteProduct { id: *id },
        }
    }
}

impl Clone for Query {
    fn clone(&self) -> (copy: Self)
        ensures
            copy == *self,
    {
        match self {
            Query::FindUserByUsername { username } => Query::FindUserByUsername {
                username: username.clone(),
            },
            Query::InsertUser { user } => Query::InsertUser { user: user.clone() },
            Query::CountUsers => Query::CountUsers,
            Query::FindAllUsers => Query::FindAllUsers,
            Query::FindRoleByName { role_name } => Query::FindRoleByName {
                role_name: role_name.clone(),
            },
            Query::InsertRole { role_name } => Query::InsertRole { role_name: role_name.clone() },
            Query::AssignRole { user_id, role_id } => Query::AssignRole {
                user_id: *user_id,
                role_id: *role_id,
            },
            Query::FindUserById { id } => Query::FindUserById { id: *id },
            Query::UpdateUser { id, cargo, email, store_id } => Query::UpdateUser {
                id: *id,
                cargo: cargo.clone(),
                email: email.clone(),
                store_id: *store_id,
            },
            Query::SoftDeleteUser { id } => Query::SoftDeleteUser { id: *id },
            Query::FindUsersByStore { store_id } => Query::FindUsersByStore { store_id: *store_id },
            Query::FindAllStores => Query::FindAllStores,
            Query::InsertStore { store } => Query::InsertStore { store: store.clone() },
            Query::UpdateStore { id, store } => Query::UpdateStore { id: *id, store: store.clone() },
            Query::SoftDeleteStore { id } => Query::SoftDeleteStore { id: *id },
            Query::FindAllCategories => Query::FindAllCategories,
            Query::InsertCategory { name } => Query::InsertCategory { name: name.clone() },
            Query::UpdateCategory { id, name } => Query::UpdateCategory {
                id: *id,
                name: name.clone(),
            },
            Query::DeleteCategory { id } => Query::DeleteCategory { id: *id },
            Query::FindAllProducts => Query::FindAllProducts,
            Query::InsertProduct { product } => Query::InsertProduct { product: product.clone() },
            Query::UpdateProduct { id, product } => Query::UpdateProduct {
                id: *id,
                product: product.clone(),
            },
            Query::SoftDeleteProduct { id } => Query::SoftDeleteProduct { id: *id },
        }
    }
}

impl QueryView {
    /// Whether the query only reads: a store that honours the contract leaves
    /// every table as it was.
    pub open spec fn reads_only(self) -> bool {
        match self {
            QueryView::FindUserByUsername { .. }
            | QueryView::CountUsers
            | QueryView::FindAllUsers
            | QueryView::FindRoleByName { .. }
            | QueryView::FindUserById { .. }
            | QueryView::FindUsersByStore { .. }
            | QueryView::FindAllStores
            | QueryView::FindAllCategories
            | QueryView::FindAllProducts => true,
            _ => false,
        }
    }
}

} // verus!
