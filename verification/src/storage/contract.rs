//! What a store must do with each query.
//!
//! The tables are modelled as sequences of rows, and [`answers`] says which
//! replies, and which tables afterwards, a store may give to a query. The
//! library is proved against every store that keeps to it. The contract
//! leaves open what the data model leaves to the store: the ids it assigns
//! (only that they are unused), creation times, the defaults of fields that
//! no query sets, the order of a listing, and whether a statement fails.

use vstd::prelude::*;

use crate::models::inventory::{
    CategoryView, ProductFieldsView, ProductView, ProductWithCategoryView,
};
use crate::models::store::{StoreFieldsView, StoreView};
use crate::models::user::{NewUserView, RoleView, UserView};
use crate::storage::query::QueryView;
use crate::storage::reply::ReplyView;

verus! {

/// The rows of the six tables.
pub struct Tables {
    pub users: Seq<UserView>,
    pub roles: Seq<RoleView>,
    /// The assignments of roles to accounts, each a pair of the account's id
    /// and the role's.
    pub user_roles: Seq<(i64, i64)>,
    pub stores: Seq<StoreView>,
    pub categories: Seq<CategoryView>,
    pub products: Seq<ProductView>,
}

impl Tables {
    /// A store that holds nothing.
    pub open spec fn empty() -> Tables {
        Tables {
            users: Seq::empty(),
            roles: Seq::empty(),
            user_roles: Seq::empty(),
            stores: Seq::empty(),
            categories: Seq::empty(),
            products: Seq::empty(),
        }
    }

    /// What the schema guarantees of every state: within a table no id occurs
    /// twice, and no assignment occurs twice.
    pub open spec fn well_formed(self) -> bool {
        &&& forall|i: int, j: int|
            0 <= i < j < self.users.len() ==> (#[trigger] self.users[i]).id != (
            #[trigger] self.users[j]).id
        &&& forall|i: int, j: int|
            0 <= i < j < self.roles.len() ==> (#[trigger] self.roles[i]).id != (
            #[trigger] self.roles[j]).id
        &&& forall|i: int, j: int|
            0 <= i < j < self.stores.len() ==> (#[trigger] self.stores[i]).id != (
            #[trigger] self.stores[j]).id
        &&& forall|i: int, j: int|
            0 <= i < j < self.categories.len() ==> (#[trigger] self.categories[i]).id != (
            #[trigger] self.categories[j]).id
        &&& forall|i: int, j: int|
            0 <= i < j < self.products.len() ==> (#[trigger] self.products[i]).id != (
            #[trigger] self.products[j]).id
        &&& self.user_roles.no_duplicates()
    }

    /// Whether an account, active or not, has the username.
    pub open spec fn has_username(self, username: Seq<char>) -> bool {
        exists|i: int| 0 <= i < self.users.len() && (#[trigger] self.users[i]).username == username
    }

    /// Whether a role has the name.
    pub open spec fn has_role_named(self, role_name: Seq<char>) -> bool {
        exists|i: int| 0 <= i < self.roles.len() && (#[trigger] self.roles[i]).role_name == role_name
    }

    /// Whether a category has the id.
    pub open spec fn has_category(self, id: i64) -> bool {
        exists|i: int| 0 <= i < self.categories.len() && (#[trigger] self.categories[i]).id == id
    }
}

/// Whether `found` is an answer to a lookup of one row: a row of the table
/// that is wanted, or nothing where no row is wanted.
pub open spec fn finds<A>(rows: Seq<A>, wanted: spec_fn(A) -> bool, found: Option<A>) -> bool {
    match found {
        Some(row) => rows.contains(row) && wanted(row),
        None => forall|i: int| 0 <= i < rows.len() ==> !wanted(#[trigger] rows[i]),
    }
}

/// Whether `listed` is an answer to a listing of `rows`: the same rows, each
/// as often, in any order.
pub open spec fn lists<A>(rows: Seq<A>, listed: Seq<A>) -> bool {
    listed.to_multiset() =~= rows.to_multiset()
}

/// Whether `post` is `pre` with one row added at its end.
pub open spec fn appended<A>(pre: Seq<A>, post: Seq<A>) -> bool {
    post.len() == pre.len() + 1 && post.drop_last() =~= pre
}

/// Whether `row` is what an insert of `user` under `id` stores. The creation
/// time is the store's to choose.
pub open spec fn is_new_user(user: NewUserView, id: i64, row: UserView) -> bool {
    row == (UserView { created_at: row.created_at, ..user.stored(id) })
}

/// Whether `row` is what an insert of `store` under `id` stores.
pub open spec fn is_new_store(store: StoreFieldsView, id: i64, row: StoreView) -> bool {
    row == (StoreView { created_at: row.created_at, ..store.stored(id) })
}

/// Whether `row` is what an insert of `product` under `id` stores: active,
/// with the fields given. Minimum stock and creation time are the store's to
/// choose.
pub open spec fn is_new_product(product: ProductFieldsView, id: i64, row: ProductView) -> bool {
    row == (ProductView {
        id,
        code: product.code,
        name: product.name,
        category_id: product.category_id,
        price: product.price,
        cost: product.cost,
        stock: product.stock,
        min_stock: row.min_stock,
        unit: product.unit,
        image_url: product.image_url,
        is_active: true,
        created_at: row.created_at,
    })
}

/// The name of the category with this id: that of the first row with it, or
/// `None` where the product names no category or the table holds none with
/// the id.
pub open spec fn category_name(categories: Seq<CategoryView>, category_id: Option<i64>) -> Option<
    Seq<char>,
>
    decreases categories.len(),
{
    match category_id {
        None => None,
        Some(id) => if categories.len() == 0 {
            None
        } else if categories.first().id == id {
            Some(categories.first().name)
        } else {
            category_name(categories.drop_first(), category_id)
        },
    }
}

/// The rows that a listing of products shows: the active products, each with
/// the name of its category.
pub open spec fn product_listing(tables: Tables) -> Seq<ProductWithCategoryView> {
    tables.products.filter(|row: ProductView| row.is_active).map_values(
        |row: ProductView| row.listed(category_name(tables.categories, row.category_id)),
    )
}

/// An account after an update of its label, e-mail address and store.
pub open spec fn updated_user(
    row: UserView,
    id: i64,
    cargo: Option<Seq<char>>,
    email: Option<Seq<char>>,
    store_id: Option<i64>,
) -> UserView {
    if row.id == id {
        UserView { cargo, email, store_id, ..row }
    } else {
        row
    }
}

/// An account after the soft delete of the account `id`.
pub open spec fn retired_user(row: UserView, id: i64) -> UserView {
    if row.id == id {
        UserView { is_active: false, ..row }
    } else {
        row
    }
}

/// A store after an update of the store `id`.
pub open spec fn updated_store(row: StoreView, id: i64, store: StoreFieldsView) -> StoreView {
    if row.id == id {
        StoreView { name: store.name, address: store.address, code: store.code, ..row }
    } else {
        row
    }
}

/// A store after the soft delete of the store `id`.
pub open spec fn retired_store(row: StoreView, id: i64) -> StoreView {
    if row.id == id {
        StoreView { is_active: false, ..row }
    } else {
        row
    }
}

/// A category after the renaming of the category `id`.
pub open spec fn renamed_category(row: CategoryView, id: i64, name: Seq<char>) -> CategoryView {
    if row.id == id {
        CategoryView { name, ..row }
    } else {
        row
    }
}

/// A product after an update of the product `id`.
pub open spec fn updated_product(row: ProductView, id: i64, product: ProductFieldsView) -> ProductView {
    if row.id == id {
        row.overwritten(product)
    } else {
        row
    }
}

/// A product after the soft delete of the product `id`.
pub open spec fn retired_product(row: ProductView, id: i64) -> ProductView {
    if row.id == id {
        ProductView { is_active: false, ..row }
    } else {
        row
    }
}

/// Whether the store, in state `pre`, may carry out `query` by answering
/// `reply` and going to state `post`.
pub open spec fn carries_out(pre: Tables, query: QueryView, reply: ReplyView, post: Tables) -> bool {
    match query {
        QueryView::FindUserByUsername { username } => {
            &&& post == pre
            &&& reply matches ReplyView::User(found)
            &&& finds(pre.users, |row: UserView| row.username == username, found)
        },
        QueryView::InsertUser { user } => {
            &&& reply matches ReplyView::Inserted(id)
            &&& forall|i: int| 0 <= i < pre.users.len() ==> (#[trigger] pre.users[i]).id != id
            &&& appended(pre.users, post.users)
            &&& is_new_user(user, id, post.users.last())
            &&& post == (Tables { users: post.users, ..pre })
        },
        QueryView::CountUsers => {
            &&& post == pre
            &&& reply matches ReplyView::Count(count)
            &&& count == pre.users.len()
        },
        QueryView::FindAllUsers => {
            &&& post == pre
            &&& reply matches ReplyView::Users(listed)
            &&& lists(pre.users.filter(|row: UserView| row.is_active), listed)
        },
        QueryView::FindRoleByName { role_name } => {
            &&& post == pre
            &&& reply matches ReplyView::Role(found)
            &&& finds(pre.roles, |row: RoleView| row.role_name == role_name, found)
        },
        QueryView::InsertRole { role_name } => {
            &&& reply matches ReplyView::Inserted(id)
            &&& forall|i: int| 0 <= i < pre.roles.len() ==> (#[trigger] pre.roles[i]).id != id
            &&& post == (Tables { roles: pre.roles.push(RoleView { id, role_name }), ..pre })
        },
        QueryView::AssignRole { user_id, role_id } => {
            &&& reply == ReplyView::Done
            &&& post == (Tables {
                user_roles: if pre.user_roles.contains((user_id, role_id)) {
                    pre.user_roles
                } else {
                    pre.user_roles.push((user_id, role_id))
                },
                ..pre
            })
        },
        QueryView::FindUserById { id } => {
            &&& post == pre
            &&& reply matches ReplyView::User(found)
            &&& finds(pre.users, |row: UserView| row.id == id, found)
        },
        QueryView::UpdateUser { id, cargo, email, store_id } => {
            &&& reply == ReplyView::Done
            &&& post == (Tables {
                users: pre.users.map_values(
                    |row: UserView| updated_user(row, id, cargo, email, store_id),
                ),
                ..pre
            })
        },
        QueryView::SoftDeleteUser { id } => {
            &&& reply == ReplyView::Done
            &&& post == (Tables {
                users: pre.users.map_values(|row: UserView| retired_user(row, id)),
                ..pre
            })
        },
        QueryView::FindUsersByStore { store_id } => {
            &&& post == pre
            &&& reply matches ReplyView::Users(listed)
            &&& lists(
                pre.users.filter(
                    |row: UserView| row.is_active && row.store_id == Some(store_id),
                ),
                listed,
            )
        },
        QueryView::FindAllStores => {
            &&& post == pre
            &&& reply matches ReplyView::Stores(listed)
            &&& lists(pre.stores.filter(|row: StoreView| row.is_active), listed)
        },
        QueryView::InsertStore { store } => {
            &&& reply matches ReplyView::Inserted(id)
            &&& forall|i: int| 0 <= i < pre.stores.len() ==> (#[trigger] pre.stores[i]).id != id
            &&& appended(pre.stores, post.stores)
            &&& is_new_store(store, id, post.stores.last())
            &&& post == (Tables { stores: post.stores, ..pre })
        },
        QueryView::UpdateStore { id, store } => {
            &&& reply == ReplyView::Done
            &&& post == (Tables {
                stores: pre.stores.map_values(|row: StoreView| updated_store(row, id, store)),
                ..pre
            })
        },
        QueryView::SoftDeleteStore { id } => {
            &&& reply == ReplyView::Done
            &&& post == (Tables {
                stores: pre.stores.map_values(|row: StoreView| retired_store(row, id)),
                ..pre
            })
        },
        QueryView::FindAllCategories => {
            &&& post == pre
            &&& reply matches ReplyView::Categories(listed)
            &&& lists(pre.categories, listed)
        },
        QueryView::InsertCategory { name } => {
            &&& reply matches ReplyView::Inserted(id)
            &&& forall|i: int|
                0 <= i < pre.categories.len() ==> (#[trigger] pre.categories[i]).id != id
            &&& post == (Tables {
                categories: pre.categories.push(CategoryView { id, name }),
                ..pre
            })
        },
        QueryView::UpdateCategory { id, name } => {
            &&& reply == ReplyView::Done
            &&& post == (Tables {
                categories: pre.categories.map_values(
                    |row: CategoryView| renamed_category(row, id, name),
                ),
                ..pre
            })
        },
        QueryView::DeleteCategory { id } => {
            &&& reply == ReplyView::Done
            &&& post == (Tables {
                categories: pre.categories.filter(|row: CategoryView| row.id != id),
                ..pre
            })
        },
        QueryView::FindAllProducts => {
            &&& post == pre
            &&& reply matches ReplyView::Products(listed)
            &&& lists(product_listing(pre), listed)
        },
        QueryView::InsertProduct { product } => {
            &&& reply matches ReplyView::Inserted(id)
            &&& forall|i: int| 0 <= i < pre.products.len() ==> (#[trigger] pre.products[i]).id != id
            &&& appended(pre.products, post.products)
            &&& is_new_product(product, id, post.products.last())
            &&& post == (Tables { products: post.products, ..pre })
        },
        QueryView::UpdateProduct { id, product } => {
            &&& reply == ReplyView::Done
            &&& post == (Tables {
                products: pre.products.map_values(
                    |row: ProductView| updated_product(row, id, product),
                ),
                ..pre
            })
        },
        QueryView::SoftDeleteProduct { id } => {
            &&& reply == ReplyView::Done
            &&& post == (Tables {
                products: pre.products.map_values(|row: ProductView| retired_product(row, id)),
                ..pre
            })
        },
    }
}

/// The contract of the store: in state `pre` it may answer `query` with
/// `reply` and go to state `post`. A statement either fails and changes
/// nothing, or is carried out whole.
pub open spec fn answers(pre: Tables, query: QueryView, reply: ReplyView, post: Tables) -> bool {
    match reply {
        ReplyView::Failed(_) => post == pre,
        _ => carries_out(pre, query, reply, post),
    }
}

/// A query and the store's reply to it.
pub struct Exchange {
    pub query: QueryView,
    pub reply: ReplyView,
}

/// Whether the store went through `states` while it answered the exchanges
/// of `log`, one after the other: exchange `i` took it from `states[i]` to
/// `states[i + 1]`.
pub open spec fn history(states: Seq<Tables>, log: Seq<Exchange>) -> bool {
    &&& states.len() == log.len() + 1
    &&& forall|i: int|
        0 <= i < log.len() ==> answers(
            states[i],
            (#[trigger] log[i]).query,
            log[i].reply,
            states[i + 1],
        )
}

} // verus!
