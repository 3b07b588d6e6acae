//! A store in memory that keeps to the contract: the reference against which
//! a real store can be held, and a store for hosts and tests that have no
//! database.
//!
//! Where the contract leaves the store a choice, this one takes the plainest:
//! a new row gets the highest id of its table plus one (the first gets 1), no
//! creation time and no minimum stock; a lookup returns the first row that
//! fits; a listing keeps the order of the table. It fails only where ids or
//! counts no longer fit their type.

use vstd::prelude::*;

use crate::errors::{ServiceError, StorageError};
use crate::flow::{Flow, Step};
use crate::models::inventory::{
    Category, CategoryView, Product, ProductFields, ProductView, ProductWithCategory,
};
use crate::models::store::{Store, StoreFields, StoreView};
use crate::models::user::{opt_text, Role, RoleView, User, UserView};
use crate::storage::contract::{
    answers, category_name, history, product_listing, renamed_category, retired_product,
    retired_store, retired_user, updated_product, updated_store, updated_user, Exchange, Tables,
};
use crate::storage::query::{Query, QueryView};
use crate::storage::reply::{Reply, ReplyView};

verus! {

/// The first row that is wanted, if any.
pub open spec fn first_where<A>(rows: Seq<A>, wanted: spec_fn(A) -> bool) -> Option<A>
    decreases rows.len(),
{
    if rows.len() == 0 {
        None
    } else if wanted(rows.first()) {
        Some(rows.first())
    } else {
        first_where(rows.drop_first(), wanted)
    }
}

/// The highest of the ids, and at least 0.
pub open spec fn highest(ids: Seq<i64>) -> int
    decreases ids.len(),
{
    if ids.len() == 0 {
        0
    } else {
        let rest = highest(ids.drop_last());
        if ids.last() > rest {
            ids.last() as int
        } else {
            rest
        }
    }
}

/// The id for the next row of a table that holds rows with these ids: one
/// more than the highest, or `None` where that is no `i64`.
pub open spec fn next_id(ids: Seq<i64>) -> Option<i64> {
    if highest(ids) < i64::MAX {
        Some((highest(ids) + 1) as i64)
    } else {
        None
    }
}

/// The text of the failure of an insert into a table whose ids are used up.
pub open spec fn no_id_left_text() -> Seq<char> {
    "no id left"@
}

/// The text of the failure of a count that does not fit its type.
pub open spec fn count_too_large_text() -> Seq<char> {
    "count too large"@
}

/// The ids of accounts.
pub open spec fn user_ids(rows: Seq<UserView>) -> Seq<i64> {
    rows.map_values(|row: UserView| row.id)
}

/// The ids of roles.
pub open spec fn role_ids(rows: Seq<RoleView>) -> Seq<i64> {
    rows.map_values(|row: RoleView| row.id)
}

/// The ids of stores.
pub open spec fn store_ids(rows: Seq<StoreView>) -> Seq<i64> {
    rows.map_values(|row: StoreView| row.id)
}

/// The ids of categories.
pub open spec fn category_ids(rows: Seq<CategoryView>) -> Seq<i64> {
    rows.map_values(|row: CategoryView| row.id)
}

/// The ids of products.
pub open spec fn product_ids(rows: Seq<ProductView>) -> Seq<i64> {
    rows.map_values(|row: ProductView| row.id)
}

/// What an insert answers, and leaves: the row under the next id, or a
/// failure where no id is left.
pub open spec fn inserted(tables: Tables, id: Option<i64>, with_row: spec_fn(i64) -> Tables) -> (
    Tables,
    ReplyView,
) {
    match id {
        Some(id) => (with_row(id), ReplyView::Inserted(id)),
        None => (tables, ReplyView::Failed(no_id_left_text())),
    }
}

/// What the store in memory answers to a query in a given state, and the
/// state it is in afterwards.
pub open spec fn respond(tables: Tables, query: QueryView) -> (Tables, ReplyView) {
    match query {
        QueryView::FindUserByUsername { username } => (
            tables,
            ReplyView::User(first_where(tables.users, |row: UserView| row.username == username)),
        ),
        QueryView::InsertUser { user } => inserted(
            tables,
            next_id(user_ids(tables.users)),
            |id: i64| Tables { users: tables.users.push(user.stored(id)), ..tables },
        ),
        QueryView::CountUsers => if tables.users.len() <= i64::MAX {
            (tables, ReplyView::Count(tables.users.len() as i64))
        } else {
            (tables, ReplyView::Failed(count_too_large_text()))
        },
        QueryView::FindAllUsers => (
            tables,
            ReplyView::Users(tables.users.filter(|row: UserView| row.is_active)),
        ),
        QueryView::FindRoleByName { role_name } => (
            tables,
            ReplyView::Role(first_where(tables.roles, |row: RoleView| row.role_name == role_name)),
        ),
        QueryView::InsertRole { role_name } => inserted(
            tables,
            next_id(role_ids(tables.roles)),
            |id: i64| Tables { roles: tables.roles.push(RoleView { id, role_name }), ..tables },
        ),
        QueryView::AssignRole { user_id, role_id } => (
            Tables {
                user_roles: if tables.user_roles.contains((user_id, role_id)) {
                    tables.user_roles
                } else {
                    tables.user_roles.push((user_id, role_id))
                },
                ..tables
            },
            ReplyView::Done,
        ),
        QueryView::FindUserById { id } => (
            tables,
            ReplyView::User(first_where(tables.users, |row: UserView| row.id == id)),
        ),
        QueryView::UpdateUser { id, cargo, email, store_id } => (
            Tables {
                users: tables.users.map_values(
                    |row: UserView| updated_user(row, id, cargo, email, store_id),
                ),
                ..tables
            },
            ReplyView::Done,
        ),
        QueryView::SoftDeleteUser { id } => (
            Tables {
                users: tables.users.map_values(|row: UserView| retired_user(row, id)),
                ..tables
            },
            ReplyView::Done,
        ),
        QueryView::FindUsersByStore { store_id } => (
            tables,
            ReplyView::Users(
                tables.users.filter(
                    |row: UserView| row.is_active && row.store_id == Some(store_id),
                ),
            ),
        ),
        QueryView::FindAllStores => (
            tables,
            ReplyView::Stores(tables.stores.filter(|row: StoreView| row.is_active)),
        ),
        QueryView::InsertStore { store } => inserted(
            tables,
            next_id(store_ids(tables.stores)),
            |id: i64| Tables { stores: tables.stores.push(store.stored(id)), ..tables },
        ),
        QueryView::UpdateStore { id, store } => (
            Tables {
                stores: tables.stores.map_values(|row: StoreView| updated_store(row, id, store)),
                ..tables
            },
            ReplyView::Done,
        ),
        QueryView::SoftDeleteStore { id } => (
            Tables {
                stores: tables.stores.map_values(|row: StoreView| retired_store(row, id)),
                ..tables
            },
            ReplyView::Done,
        ),
        QueryView::FindAllCategories => (tables, ReplyView::Categories(tables.categories)),
        QueryView::InsertCategory { name } => inserted(
            tables,
            next_id(category_ids(tables.categories)),
            |id: i64|
                Tables { categories: tables.categories.push(CategoryView { id, name }), ..tables },
        ),
        QueryView::UpdateCategory { id, name } => (
            Tables {
                categories: tables.categories.map_values(
                    |row: CategoryView| renamed_category(row, id, name),
                ),
                ..tables
            },
            ReplyView::Done,
        ),
        QueryView::DeleteCategory { id } => (
            Tables {
                categories: tables.categories.filter(|row: CategoryView| row.id != id),
                ..tables
            },
            ReplyView::Done,
        ),
        QueryView::FindAllProducts => (tables, ReplyView::Products(product_listing(tables))),
        QueryView::InsertProduct { product } => inserted(
            tables,
            next_id(product_ids(tables.products)),
            |id: i64| Tables { products: tables.products.push(product.stored(id)), ..tables },
        ),
        QueryView::UpdateProduct { id, product } => (
            Tables {
                products: tables.products.map_values(
                    |row: ProductView| updated_product(row, id, product),
                ),
                ..tables
            },
            ReplyView::Done,
        ),
        QueryView::SoftDeleteProduct { id } => (
            Tables {
                products: tables.products.map_values(|row: ProductView| retired_product(row, id)),
                ..tables
            },
            ReplyView::Done,
        ),
    }
}

/// A lookup that has found no wanted row among the first `from` rows finds
/// what a lookup among the others finds.
proof fn first_where_skips<A>(rows: Seq<A>, wanted: spec_fn(A) -> bool, from: int)
    requires
        0 <= from <= rows.len(),
        forall|i: int| 0 <= i < from ==> !wanted(#[trigger] rows[i]),
    ensures
        first_where(rows, wanted) == first_where(rows.skip(from), wanted),
    decreases from,
{
    if from == 0 {
        assert(rows.skip(0) =~= rows);
    } else {
        first_where_skips(rows, wanted, from - 1);
        let rest = rows.skip(from - 1);
        assert(rest.first() == rows[from - 1]);
        assert(rest.drop_first() =~= rows.skip(from));
    }
}

/// The highest id of one more row.
proof fn highest_of_next(ids: Seq<i64>, upto: int)
    requires
        0 <= upto < ids.len(),
    ensures
        highest(ids.take(upto + 1)) == if ids[upto] > highest(ids.take(upto)) {
            ids[upto] as int
        } else {
            highest(ids.take(upto))
        },
{
    assert(ids.take(upto + 1).drop_last() =~= ids.take(upto));
    assert(ids.take(upto + 1).last() == ids[upto]);
}

/// No id is above the highest.
proof fn highest_bounds(ids: Seq<i64>)
    ensures
        forall|i: int| 0 <= i < ids.len() ==> #[trigger] ids[i] <= highest(ids),
        highest(ids) >= 0,
    decreases ids.len(),
{
    if ids.len() > 0 {
        highest_bounds(ids.drop_last());
        assert forall|i: int| 0 <= i < ids.len() implies #[trigger] ids[i] <= highest(ids) by {
            if i < ids.len() - 1 {
                assert(ids.drop_last()[i] == ids[i]);
            }
        }
    }
}

/// What a lookup by the reference store returns is an answer to the lookup.
proof fn first_where_finds<A>(rows: Seq<A>, wanted: spec_fn(A) -> bool)
    ensures
        crate::storage::contract::finds(rows, wanted, first_where(rows, wanted)),
    decreases rows.len(),
{
    if rows.len() > 0 {
        let rest = rows.drop_first();
        first_where_finds(rest, wanted);
        if wanted(rows.first()) {
            assert(rows[0] == rows.first());
        } else {
            match first_where(rest, wanted) {
                Some(row) => {
                    let at = choose|at: int| 0 <= at < rest.len() && rest[at] == row;
                    assert(rows[at + 1] == row);
                },
                None => {
                    assert forall|i: int| 0 <= i < rows.len() implies !wanted(#[trigger] rows[i]) by {
                        if i > 0 {
                            assert(rest[i - 1] == rows[i]);
                        }
                    }
                },
            }
        }
    }
}

/// The store in memory keeps to the contract: what it answers to a query, and
/// the state it goes to, is one of the answers that the contract allows.
pub proof fn memory_store_keeps_contract(tables: Tables, query: QueryView)
    ensures
        crate::storage::contract::answers(
            tables,
            query,
            respond(tables, query).1,
            respond(tables, query).0,
        ),
{
    let (post, reply) = respond(tables, query);
    match query {
        QueryView::FindUserByUsername { username } => {
            first_where_finds(tables.users, |row: UserView| row.username == username);
        },
        QueryView::FindUserById { id } => {
            first_where_finds(tables.users, |row: UserView| row.id == id);
        },
        QueryView::FindRoleByName { role_name } => {
            first_where_finds(tables.roles, |row: RoleView| row.role_name == role_name);
        },
        QueryView::InsertUser { .. } => {
            let ids = user_ids(tables.users);
            highest_bounds(ids);
            assert forall|i: int| 0 <= i < tables.users.len() implies (#[trigger] tables.users[i]).id
                <= highest(ids) by {
                assert(ids[i] == tables.users[i].id);
            }
            if reply is Inserted {
                assert(post.users.drop_last() =~= tables.users);
            }
        },
        QueryView::InsertRole { .. } => {
            let ids = role_ids(tables.roles);
            highest_bounds(ids);
            assert forall|i: int| 0 <= i < tables.roles.len() implies (#[trigger] tables.roles[i]).id
                <= highest(ids) by {
                assert(ids[i] == tables.roles[i].id);
            }
        },
        QueryView::InsertStore { .. } => {
            let ids = store_ids(tables.stores);
            highest_bounds(ids);
            assert forall|i: int| 0 <= i < tables.stores.len() implies (
            #[trigger] tables.stores[i]).id <= highest(ids) by {
                assert(ids[i] == tables.stores[i].id);
            }
            if reply is Inserted {
                assert(post.stores.drop_last() =~= tables.stores);
            }
        },
        QueryView::InsertCategory { .. } => {
            let ids = category_ids(tables.categories);
            highest_bounds(ids);
            assert forall|i: int| 0 <= i < tables.categories.len() implies (
            #[trigger] tables.categories[i]).id <= highest(ids) by {
                assert(ids[i] == tables.categories[i].id);
            }
        },
        QueryView::InsertProduct { .. } => {
            let ids = product_ids(tables.products);
            highest_bounds(ids);
            assert forall|i: int| 0 <= i < tables.products.len() implies (
            #[trigger] tables.products[i]).id <= highest(ids) by {
                assert(ids[i] == tables.products[i].id);
            }
            if reply is Inserted {
                assert(post.products.drop_last() =~= tables.products);
            }
        },
        _ => {},
    }
}

/// The exchanges that an operation at `step` may still need, and one more
/// while it has not ended.
pub open spec fn steps_ahead<F: Flow>(step: Step<F, F::Output>) -> nat {
    match step {
        Step::Ask(flow) => flow.steps_left() + 1,
        Step::Done(_) => 0,
    }
}

/// Whether an operation at `step`, run against the store in memory in state
/// `tables`, may leave the store in state `end` and return `result`: each
/// query is answered as [`respond`] says, and each step is one that the
/// operation allows after the reply.
pub open spec fn runs<F: Flow>(
    tables: Tables,
    step: Step<F, F::Output>,
    end: Tables,
    result: Result<F::Output, ServiceError>,
) -> bool
    decreases steps_ahead(step),
{
    match step {
        Step::Done(ended) => end == tables && result == ended,
        Step::Ask(flow) => exists|next: Step<F, F::Output>|
            #[trigger] flow.allows(respond(tables, flow.asks()).1, next) && steps_ahead(next)
                <= flow.steps_left() && runs(
                respond(tables, flow.asks()).0,
                next,
                end,
                result,
            ),
    }
}

/// A run is a history. Whatever an operation does when it is run against the
/// store in memory, the store has gone from the first state to the last by
/// exchanges that the contract allows: the states and the exchanges returned
/// are such a history. So what is proved of every history by the contract
/// holds of every run.
pub proof fn a_run_is_a_history<F: Flow>(
    tables: Tables,
    step: Step<F, F::Output>,
    end: Tables,
    result: Result<F::Output, ServiceError>,
) -> (passed: (Seq<Tables>, Seq<Exchange>))
    requires
        runs(tables, step, end, result),
    ensures
        history(passed.0, passed.1),
        passed.0.first() == tables,
        passed.0.last() == end,
        passed.1.len() <= steps_ahead(step),
    decreases steps_ahead(step),
{
    match step {
        Step::Done(_) => (seq![tables], Seq::empty()),
        Step::Ask(flow) => {
            let query = flow.asks();
            let (then, reply) = respond(tables, query);
            let next = choose|next: Step<F, F::Output>|
                #[trigger] flow.allows(reply, next) && steps_ahead(next) <= flow.steps_left()
                    && runs(then, next, end, result);
            let (later, rest) = a_run_is_a_history(then, next, end, result);
            let states = seq![tables] + later;
            let log = seq![Exchange { query, reply }] + rest;
            memory_store_keeps_contract(tables, query);
            assert forall|i: int| 0 <= i < log.len() implies answers(
                states[i],
                (#[trigger] log[i]).query,
                log[i].reply,
                states[i + 1],
            ) by {
                if i > 0 {
                    assert(log[i] == rest[i - 1]);
                    assert(states[i] == later[i - 1]);
                    assert(states[i + 1] == later[i]);
                } else {
                    assert(states[1] == later[0]);
                }
            }
            (states, log)
        },
    }
}

/// A store in memory. It starts empty and answers one query at a time.
#[derive(Debug)]
pub struct MemoryStore {
    users: Vec<User>,
    roles: Vec<Role>,
    user_roles: Vec<(i64, i64)>,
    stores: Vec<Store>,
    categories: Vec<Category>,
    products: Vec<Product>,
}

impl View for MemoryStore {
    type V = Tables;

    closed spec fn view(&self) -> Tables {
        Tables {
            users: self.users.deep_view(),
            roles: self.roles.deep_view(),
            user_roles: self.user_roles@,
            stores: self.stores.deep_view(),
            categories: self.categories.deep_view(),
            products: self.products.deep_view(),
        }
    }
}

/// The failure of an insert into a table whose ids are used up.
fn no_id_left() -> (reply: Reply)
    ensures
        reply@ == ReplyView::Failed(no_id_left_text()),
{
    Reply::Failed(StorageError { message: "no id left".to_string() })
}

/// The id after `highest`, where there is one.
fn id_after(highest: i64) -> (id: Option<i64>)
    ensures
        id == if highest < i64::MAX {
            Some((highest + 1) as i64)
        } else {
            None
        },
{
    if highest < i64::MAX {
        Some(highest + 1)
    } else {
        None
    }
}

/// The first account with the username.
fn find_user_by_username(rows: &Vec<User>, username: &String) -> (found: Option<User>)
    ensures
        found.deep_view() == first_where(
            rows.deep_view(),
            |row: UserView| row.username == username@,
        ),
{
    let ghost all = rows.deep_view();
    let ghost wanted = |row: UserView| row.username == username@;
    let mut i: usize = 0;
    while i < rows.len()
        invariant
            i <= rows.len(),
            all == rows.deep_view(),
            wanted == |row: UserView| row.username == username@,
            forall|j: int| 0 <= j < i ==> !wanted(#[trigger] all[j]),
        decreases rows.len() - i,
    {
        if rows[i].username == *username {
            proof {
                first_where_skips(all, wanted, i as int);
                assert(all.skip(i as int).first() == rows[i as int]@);
            }
            return Some(rows[i].clone());
        }
        i += 1;
    }
    proof {
        first_where_skips(all, wanted, rows.len() as int);
    }
    None
}

/// The first account with the id.
fn find_user_by_id(rows: &Vec<User>, id: i64) -> (found: Option<User>)
    ensures
        found.deep_view() == first_where(rows.deep_view(), |row: UserView| row.id == id),
{
    let ghost all = rows.deep_view();
    let ghost wanted = |row: UserView| row.id == id;
    let mut i: usize = 0;
    while i < rows.len()
        invariant
            i <= rows.len(),
            all == rows.deep_view(),
            wanted == |row: UserView| row.id == id,
            forall|j: int| 0 <= j < i ==> !wanted(#[trigger] all[j]),
        decreases rows.len() - i,
    {
        if rows[i].id == id {
            proof {
                first_where_skips(all, wanted, i as int);
                assert(all.skip(i as int).first() == rows[i as int]@);
            }
            return Some(rows[i].clone());
        }
        i += 1;
    }
    proof {
        first_where_skips(all, wanted, rows.len() as int);
    }
    None
}

/// The first role with the name.
fn find_role_by_name(rows: &Vec<Role>, role_name: &String) -> (found: Option<Role>)
    ensures
        found.deep_view() == first_where(
            rows.deep_view(),
            |row: RoleView| row.role_name == role_name@,
        ),
{
    let ghost all = rows.deep_view();
    let ghost wanted = |row: RoleView| row.role_name == role_name@;
    let mut i: usize = 0;
    while i < rows.len()
        invariant
            i <= rows.len(),
            all == rows.deep_view(),
            wanted == |row: RoleView| row.role_name == role_name@,
            forall|j: int| 0 <= j < i ==> !wanted(#[trigger] all[j]),
        decreases rows.len() - i,
    {
        if rows[i].role_name == *role_name {
            proof {
                first_where_skips(all, wanted, i as int);
                assert(all.skip(i as int).first() == rows[i as int]@);
            }
            return Some(rows[i].clone());
        }
        i += 1;
    }
    proof {
        first_where_skips(all, wanted, rows.len() as int);
    }
    None
}

/// The first product with the id.
fn find_product_by_id(rows: &Vec<Product>, id: i64) -> (found: Option<Product>)
    ensures
        found.deep_view() == first_where(rows.deep_view(), |row: ProductView| row.id == id),
{
    let ghost all = rows.deep_view();
    let ghost wanted = |row: ProductView| row.id == id;
    let mut i: usize = 0;
    while i < rows.len()
        invariant
            i <= rows.len(),
            all == rows.deep_view(),
            wanted == |row: ProductView| row.id == id,
            forall|j: int| 0 <= j < i ==> !wanted(#[trigger] all[j]),
        decreases rows.len() - i,
    {
        if rows[i].id == id {
            proof {
                first_where_skips(all, wanted, i as int);
                assert(all.skip(i as int).first() == rows[i as int]@);
            }
            return Some(rows[i].clone());
        }
        i += 1;
    }
    proof {
        first_where_skips(all, wanted, rows.len() as int);
    }
    None
}

/// The name of the first category with the id.
fn find_category_name(rows: &Vec<Category>, category_id: Option<i64>) -> (name: Option<String>)
    ensures
        opt_text(name) == category_name(rows.deep_view(), category_id),
{
    let id = match category_id {
        Some(id) => id,
        None => {
            return None;
        },
    };
    let ghost all = rows.deep_view();
    let mut i: usize = 0;
    proof {
        assert(all.skip(0) =~= all);
    }
    while i < rows.len()
        invariant
            i <= rows.len(),
            all == rows.deep_view(),
            category_id == Some(id),
            category_name(all, category_id) == category_name(all.skip(i as int), category_id),
        decreases rows.len() - i,
    {
        proof {
            let rest = all.skip(i as int);
            assert(rest.first() == rows[i as int]@);
            assert(rest.drop_first() =~= all.skip(i + 1));
        }
        if rows[i].id == id {
            return Some(rows[i].name.clone());
        }
        i += 1;
    }
    None
}

/// The active accounts, in the order of the table.
fn active_users(rows: &Vec<User>) -> (listed: Vec<User>)
    ensures
        listed.deep_view() == rows.deep_view().filter(|row: UserView| row.is_active),
{
    let ghost all = rows.deep_view();
    let ghost wanted = |row: UserView| row.is_active;
    let mut listed: Vec<User> = Vec::new();
    let mut i: usize = 0;
    proof {
        reveal(Seq::filter);
        assert(listed.deep_view() =~= all.take(0).filter(wanted));
    }
    while i < rows.len()
        invariant
            i <= rows.len(),
            all == rows.deep_view(),
            wanted == |row: UserView| row.is_active,
            listed.deep_view() == all.take(i as int).filter(wanted),
        decreases rows.len() - i,
    {
        proof {
            assert(all.take(i + 1) =~= all.take(i as int).push(all[i as int]));
            all.take(i as int).lemma_filter_push(all[i as int], wanted);
        }
        if rows[i].is_active {
            let ghost before = listed.deep_view();
            listed.push(rows[i].clone());
            assert(listed.deep_view() =~= before.push(all[i as int]));
        }
        i += 1;
    }
    proof {
        assert(all.take(rows.len() as int) =~= all);
    }
    listed
}

/// The active accounts assigned to the store, in the order of the table.
fn users_of_store(rows: &Vec<User>, store_id: i64) -> (listed: Vec<User>)
    ensures
        listed.deep_view() == rows.deep_view().filter(
            |row: UserView| row.is_active && row.store_id == Some(store_id),
        ),
{
    let ghost all = rows.deep_view();
    let ghost wanted = |row: UserView| row.is_active && row.store_id == Some(store_id);
    let mut listed: Vec<User> = Vec::new();
    let mut i: usize = 0;
    proof {
        reveal(Seq::filter);
        assert(listed.deep_view() =~= all.take(0).filter(wanted));
    }
    while i < rows.len()
        invariant
            i <= rows.len(),
            all == rows.deep_view(),
            wanted == |row: UserView| row.is_active && row.store_id == Some(store_id),
            listed.deep_view() == all.take(i as int).filter(wanted),
        decreases rows.len() - i,
    {
        proof {
            assert(all.take(i + 1) =~= all.take(i as int).push(all[i as int]));
            all.take(i as int).lemma_filter_push(all[i as int], wanted);
        }
        let assigned = match rows[i].store_id {
            Some(of) => of == store_id,
            None => false,
        };
        if rows[i].is_active && assigned {
            let ghost before = listed.deep_view();
            listed.push(rows[i].clone());
            assert(listed.deep_view() =~= before.push(all[i as int]));
        }
        i += 1;
    }
    proof {
        assert(all.take(rows.len() as int) =~= all);
    }
    listed
}

/// The active stores, in the order of the table.
fn active_stores(rows: &Vec<Store>) -> (listed: Vec<Store>)
    ensures
        listed.deep_view() == rows.deep_view().filter(|row: StoreView| row.is_active),
{
    let ghost all = rows.deep_view();
    let ghost wanted = |row: StoreView| row.is_active;
    let mut listed: Vec<Store> = Vec::new();
    let mut i: usize = 0;
    proof {
        reveal(Seq::filter);
        assert(listed.deep_view() =~= all.take(0).filter(wanted));
    }
    while i < rows.len()
        invariant
            i <= rows.len(),
            all == rows.deep_view(),
            wanted == |row: StoreView| row.is_active,
            listed.deep_view() == all.take(i as int).filter(wanted),
        decreases rows.len() - i,
    {
        proof {
            assert(all.take(i + 1) =~= all.take(i as int).push(all[i as int]));
            all.take(i as int).lemma_filter_push(all[i as int], wanted);
        }
        if rows[i].is_active {
            let ghost before = listed.deep_view();
            listed.push(rows[i].clone());
            assert(listed.deep_view() =~= before.push(all[i as int]));
        }
        i += 1;
    }
    proof {
        assert(all.take(rows.len() as int) =~= all);
    }
    listed
}

/// All categories, in the order of the table.
fn all_categories(rows: &Vec<Category>) -> (listed: Vec<Category>)
    ensures
        listed.deep_view() == rows.deep_view(),
{
    let mut listed: Vec<Category> = Vec::new();
    let mut i: usize = 0;
    while i < rows.len()
        invariant
            i <= rows.len(),
            listed.deep_view() =~= rows.deep_view().take(i as int),
        decreases rows.len() - i,
    {
        let ghost before = listed.deep_view();
        listed.push(rows[i].clone());
        proof {
            assert(listed.deep_view() =~= before.push(rows[i as int]@));
            assert(rows.deep_view().take(i + 1) =~= rows.deep_view().take(i as int).push(
                rows[i as int]@,
            ));
        }
        i += 1;
    }
    proof {
        assert(rows.deep_view().take(rows.len() as int) =~= rows.deep_view());
    }
    listed
}

/// The categories but the one with the id, in the order of the table.
fn categories_without(rows: &Vec<Category>, id: i64) -> (kept: Vec<Category>)
    ensures
        kept.deep_view() == rows.deep_view().filter(|row: CategoryView| row.id != id),
{
    let ghost all = rows.deep_view();
    let ghost wanted = |row: CategoryView| row.id != id;
    let mut kept: Vec<Category> = Vec::new();
    let mut i: usize = 0;
    proof {
        reveal(Seq::filter);
        assert(kept.deep_view() =~= all.take(0).filter(wanted));
    }
    while i < rows.len()
        invariant
            i <= rows.len(),
            all == rows.deep_view(),
            wanted == |row: CategoryView| row.id != id,
            kept.deep_view() == all.take(i as int).filter(wanted),
        decreases rows.len() - i,
    {
        proof {
            assert(all.take(i + 1) =~= all.take(i as int).push(all[i as int]));
            all.take(i as int).lemma_filter_push(all[i as int], wanted);
        }
        if rows[i].id != id {
            let ghost before = kept.deep_view();
            kept.push(rows[i].clone());
            assert(kept.deep_view() =~= before.push(all[i as int]));
        }
        i += 1;
    }
    proof {
        assert(all.take(rows.len() as int) =~= all);
    }
    kept
}

/// The rows that a listing of the products of `rows` shows, given all
/// categories.
fn listed_products(rows: &Vec<Product>, categories: &Vec<Category>) -> (listed: Vec<
    ProductWithCategory,
>)
    ensures
        listed.deep_view() == rows.deep_view().filter(|row: ProductView| row.is_active).map_values(
            |row: ProductView|
                row.listed(category_name(categories.deep_view(), row.category_id)),
        ),
{
    let ghost all = rows.deep_view();
    let ghost names = categories.deep_view();
    let ghost wanted = |row: ProductView| row.is_active;
    let ghost shown = |row: ProductView| row.listed(category_name(names, row.category_id));
    let mut listed: Vec<ProductWithCategory> = Vec::new();
    let mut i: usize = 0;
    proof {
        reveal(Seq::filter);
        assert(listed.deep_view() =~= all.take(0).filter(wanted).map_values(shown));
    }
    while i < rows.len()
        invariant
            i <= rows.len(),
            all == rows.deep_view(),
            names == categories.deep_view(),
            wanted == |row: ProductView| row.is_active,
            shown == |row: ProductView| row.listed(category_name(names, row.category_id)),
            listed.deep_view() == all.take(i as int).filter(wanted).map_values(shown),
        decreases rows.len() - i,
    {
        proof {
            assert(all.take(i + 1) =~= all.take(i as int).push(all[i as int]));
            all.take(i as int).lemma_filter_push(all[i as int], wanted);
        }
        if rows[i].is_active {
            let ghost before = listed.deep_view();
            let name = find_category_name(categories, rows[i].category_id);
            listed.push(rows[i].listed(name));
            assert(listed.deep_view() =~= before.push(shown(all[i as int])));
            assert(all.take(i as int).filter(wanted).push(all[i as int]).map_values(shown)
                =~= before.push(shown(all[i as int])));
        }
        i += 1;
    }
    proof {
        assert(all.take(rows.len() as int) =~= all);
    }
    listed
}

/// The id for the next account.
fn next_user_id(rows: &Vec<User>) -> (id: Option<i64>)
    ensures
        id == next_id(user_ids(rows.deep_view())),
{
    let ghost ids = user_ids(rows.deep_view());
    let mut top: i64 = 0;
    let mut i: usize = 0;
    while i < rows.len()
        invariant
            i <= rows.len(),
            ids == user_ids(rows.deep_view()),
            top == highest(ids.take(i as int)),
        decreases rows.len() - i,
    {
        proof {
            highest_of_next(ids, i as int);
        }
        if rows[i].id > top {
            top = rows[i].id;
        }
        i += 1;
    }
    proof {
        assert(ids.take(rows.len() as int) =~= ids);
    }
    id_after(top)
}

/// The id for the next role.
fn next_role_id(rows: &Vec<Role>) -> (id: Option<i64>)
    ensures
        id == next_id(role_ids(rows.deep_view())),
{
    let ghost ids = role_ids(rows.deep_view());
    let mut top: i64 = 0;
    let mut i: usize = 0;
    while i < rows.len()
        invariant
            i <= rows.len(),
            ids == role_ids(rows.deep_view()),
            top == highest(ids.take(i as int)),
        decreases rows.len() - i,
    {
        proof {
            highest_of_next(ids, i as int);
        }
        if rows[i].id > top {
            top = rows[i].id;
        }
        i += 1;
    }
    proof {
        assert(ids.take(rows.len() as int) =~= ids);
    }
    id_after(top)
}

/// The id for the next store.
fn next_store_id(rows: &Vec<Store>) -> (id: Option<i64>)
    ensures
        id == next_id(store_ids(rows.deep_view())),
{
    let ghost ids = store_ids(rows.deep_view());
    let mut top: i64 = 0;
    let mut i: usize = 0;
    while i < rows.len()
        invariant
            i <= rows.len(),
            ids == store_ids(rows.deep_view()),
            top == highest(ids.take(i as int)),
        decreases rows.len() - i,
    {
        proof {
            highest_of_next(ids, i as int);
        }
        if rows[i].id > top {
            top = rows[i].id;
        }
        i += 1;
    }
    proof {
        assert(ids.take(rows.len() as int) =~= ids);
    }
    id_after(top)
}

/// The id for the next category.
fn next_category_id(rows: &Vec<Category>) -> (id: Option<i64>)
    ensures
        id == next_id(category_ids(rows.deep_view())),
{
    let ghost ids = category_ids(rows.deep_view());
    let mut top: i64 = 0;
    let mut i: usize = 0;
    while i < rows.len()
        invariant
            i <= rows.len(),
            ids == category_ids(rows.deep_view()),
            top == highest(ids.take(i as int)),
        decreases rows.len() - i,
    {
        proof {
            highest_of_next(ids, i as int);
        }
        if rows[i].id > top {
            top = rows[i].id;
        }
        i += 1;
    }
    proof {
        assert(ids.take(rows.len() as int) =~= ids);
    }
    id_after(top)
}

/// The id for the next product.
fn next_product_id(rows: &Vec<Product>) -> (id: Option<i64>)
    ensures
        id == next_id(product_ids(rows.deep_view())),
{
    let ghost ids = product_ids(rows.deep_view());
    let mut top: i64 = 0;
    let mut i: usize = 0;
    while i < rows.len()
        invariant
            i <= rows.len(),
            ids == product_ids(rows.deep_view()),
            top == highest(ids.take(i as int)),
        decreases rows.len() - i,
    {
        proof {
            highest_of_next(ids, i as int);
        }
        if rows[i].id > top {
            top = rows[i].id;
        }
        i += 1;
    }
    proof {
        assert(ids.take(rows.len() as int) =~= ids);
    }
    id_after(top)
}

/// Whether the account holds the role.
fn holds_role(rows: &Vec<(i64, i64)>, user_id: i64, role_id: i64) -> (held: bool)
    ensures
        held == rows@.contains((user_id, role_id)),
{
    let mut i: usize = 0;
    while i < rows.len()
        invariant
            i <= rows.len(),
            forall|j: int| 0 <= j < i ==> rows@[j] != (user_id, role_id),
        decreases rows.len() - i,
    {
        if rows[i].0 == user_id && rows[i].1 == role_id {
            assert(rows@[i as int] == (user_id, role_id));
            return true;
        }
        i += 1;
    }
    false
}

/// The accounts after an update of the account `id`.
fn users_updated(
    rows: &Vec<User>,
    id: i64,
    cargo: &Option<String>,
    email: &Option<String>,
    store_id: Option<i64>,
) -> (updated: Vec<User>)
    ensures
        updated.deep_view() == rows.deep_view().map_values(
            |row: UserView| updated_user(row, id, opt_text(*cargo), opt_text(*email), store_id),
        ),
{
    let ghost all = rows.deep_view();
    let ghost change = |row: UserView|
        updated_user(row, id, opt_text(*cargo), opt_text(*email), store_id);
    let mut updated: Vec<User> = Vec::new();
    let mut i: usize = 0;
    while i < rows.len()
        invariant
            i <= rows.len(),
            all == rows.deep_view(),
            change == |row: UserView|
                updated_user(row, id, opt_text(*cargo), opt_text(*email), store_id),
            updated.deep_view() =~= all.take(i as int).map_values(change),
        decreases rows.len() - i,
    {
        let ghost before = updated.deep_view();
        let row = &rows[i];
        if row.id == id {
            updated.push(
                User {
                    id: row.id,
                    username: row.username.clone(),
                    password_hash: row.password_hash.clone(),
                    cargo: cargo.clone(),
                    email: email.clone(),
                    store_id,
                    is_active: row.is_active,
                    created_at: row.created_at,
                },
            );
        } else {
            updated.push(row.clone());
        }
        proof {
            assert(updated.deep_view() =~= before.push(change(all[i as int])));
            assert(all.take(i + 1).map_values(change) =~= all.take(i as int).map_values(
                change,
            ).push(change(all[i as int])));
        }
        i += 1;
    }
    proof {
        assert(all.take(rows.len() as int) =~= all);
    }
    updated
}

/// The accounts after the soft delete of the account `id`.
fn users_retired(rows: &Vec<User>, id: i64) -> (retired: Vec<User>)
    ensures
        retired.deep_view() == rows.deep_view().map_values(|row: UserView| retired_user(row, id)),
{
    let ghost all = rows.deep_view();
    let ghost change = |row: UserView| retired_user(row, id);
    let mut retired: Vec<User> = Vec::new();
    let mut i: usize = 0;
    while i < rows.len()
        invariant
            i <= rows.len(),
            all == rows.deep_view(),
            change == |row: UserView| retired_user(row, id),
            retired.deep_view() =~= all.take(i as int).map_values(change),
        decreases rows.len() - i,
    {
        let ghost before = retired.deep_view();
        let mut row = rows[i].clone();
        if row.id == id {
            row.is_active = false;
        }
        retired.push(row);
        proof {
            assert(retired.deep_view() =~= before.push(change(all[i as int])));
            assert(all.take(i + 1).map_values(change) =~= all.take(i as int).map_values(
                change,
            ).push(change(all[i as int])));
        }
        i += 1;
    }
    proof {
        assert(all.take(rows.len() as int) =~= all);
    }
    retired
}

/// The stores after an update of the store `id`.
fn stores_updated(rows: &Vec<Store>, id: i64, store: &StoreFields) -> (updated: Vec<Store>)
    ensures
        updated.deep_view() == rows.deep_view().map_values(
            |row: StoreView| updated_store(row, id, store@),
        ),
{
    let ghost all = rows.deep_view();
    let ghost change = |row: StoreView| updated_store(row, id, store@);
    let mut updated: Vec<Store> = Vec::new();
    let mut i: usize = 0;
    while i < rows.len()
        invariant
            i <= rows.len(),
            all == rows.deep_view(),
            change == |row: StoreView| updated_store(row, id, store@),
            updated.deep_view() =~= all.take(i as int).map_values(change),
        decreases rows.len() - i,
    {
        let ghost before = updated.deep_view();
        let row = &rows[i];
        if row.id == id {
            updated.push(
                Store {
                    id: row.id,
                    name: store.name.clone(),
                    code: store.code.clone(),
                    address: store.address.clone(),
                    is_active: row.is_active,
                    created_at: row.created_at,
                },
            );
        } else {
            updated.push(row.clone());
        }
        proof {
            assert(updated.deep_view() =~= before.push(change(all[i as int])));
            assert(all.take(i + 1).map_values(change) =~= all.take(i as int).map_values(
                change,
            ).push(change(all[i as int])));
        }
        i += 1;
    }
    proof {
        assert(all.take(rows.len() as int) =~= all);
    }
    updated
}

/// The stores after the soft delete of the store `id`.
fn stores_retired(rows: &Vec<Store>, id: i64) -> (retired: Vec<Store>)
    ensures
        retired.deep_view() == rows.deep_view().map_values(
            |row: StoreView| retired_store(row, id),
        ),
{
    let ghost all = rows.deep_view();
    let ghost change = |row: StoreView| retired_store(row, id);
    let mut retired: Vec<Store> = Vec::new();
    let mut i: usize = 0;
    while i < rows.len()
        invariant
            i <= rows.len(),
            all == rows.deep_view(),
            change == |row: StoreView| retired_store(row, id),
            retired.deep_view() =~= all.take(i as int).map_values(change),
        decreases rows.len() - i,
    {
        let ghost before = retired.deep_view();
        let mut row = rows[i].clone();
        if row.id == id {
            row.is_active = false;
        }
        retired.push(row);
        proof {
            assert(retired.deep_view() =~= before.push(change(all[i as int])));
            assert(all.take(i + 1).map_values(change) =~= all.take(i as int).map_values(
                change,
            ).push(change(all[i as int])));
        }
        i += 1;
    }
    proof {
        assert(all.take(rows.len() as int) =~= all);
    }
    retired
}

/// The categories after the renaming of the category `id`.
fn categories_renamed(rows: &Vec<Category>, id: i64, name: &String) -> (renamed: Vec<Category>)
    ensures
        renamed.deep_view() == rows.deep_view().map_values(
            |row: CategoryView| renamed_category(row, id, name@),
        ),
{
    let ghost all = rows.deep_view();
    let ghost change = |row: CategoryView| renamed_category(row, id, name@);
    let mut renamed: Vec<Category> = Vec::new();
    let mut i: usize = 0;
    while i < rows.len()
        invariant
            i <= rows.len(),
            all == rows.deep_view(),
            change == |row: CategoryView| renamed_category(row, id, name@),
            renamed.deep_view() =~= all.take(i as int).map_values(change),
        decreases rows.len() - i,
    {
        let ghost before = renamed.deep_view();
        let row = &rows[i];
        if row.id == id {
            renamed.push(Category { id: row.id, name: name.clone() });
        } else {
            renamed.push(row.clone());
        }
        proof {
            assert(renamed.deep_view() =~= before.push(change(all[i as int])));
            assert(all.take(i + 1).map_values(change) =~= all.take(i as int).map_values(
                change,
            ).push(change(all[i as int])));
        }
        i += 1;
    }
    proof {
        assert(all.take(rows.len() as int) =~= all);
    }
    renamed
}

/// The products after an update of the product `id`.
fn products_updated(rows: &Vec<Product>, id: i64, product: &ProductFields) -> (updated: Vec<
    Product,
>)
    ensures
        updated.deep_view() == rows.deep_view().map_values(
            |row: ProductView| updated_product(row, id, product@),
        ),
{
    let ghost all = rows.deep_view();
    let ghost change = |row: ProductView| updated_product(row, id, product@);
    let mut updated: Vec<Product> = Vec::new();
    let mut i: usize = 0;
    while i < rows.len()
        invariant
            i <= rows.len(),
            all == rows.deep_view(),
            change == |row: ProductView| updated_product(row, id, product@),
            updated.deep_view() =~= all.take(i as int).map_values(change),
        decreases rows.len() - i,
    {
        let ghost before = updated.deep_view();
        let row = &rows[i];
        if row.id == id {
            updated.push(
                Product {
                    id: row.id,
                    code: product.code.clone(),
                    name: product.name.clone(),
                    category_id: product.category_id,
                    price: product.price,
                    cost: product.cost,
                    stock: product.stock,
                    min_stock: row.min_stock,
                    unit: product.unit.clone(),
                    image_url: product.image_url.clone(),
                    is_active: row.is_active,
                    created_at: row.created_at,
                },
            );
        } else {
            updated.push(row.clone());
        }
        proof {
            assert(updated.deep_view() =~= before.push(change(all[i as int])));
            assert(all.take(i + 1).map_values(change) =~= all.take(i as int).map_values(
                change,
            ).push(change(all[i as int])));
        }
        i += 1;
    }
    proof {
        assert(all.take(rows.len() as int) =~= all);
    }
    updated
}

/// The products after the soft delete of the product `id`.
fn products_retired(rows: &Vec<Product>, id: i64) -> (retired: Vec<Product>)
    ensures
        retired.deep_view() == rows.deep_view().map_values(
            |row: ProductView| retired_product(row, id),
        ),
{
    let ghost all = rows.deep_view();
    let ghost change = |row: ProductView| retired_product(row, id);
    let mut retired: Vec<Product> = Vec::new();
    let mut i: usize = 0;
    while i < rows.len()
        invariant
            i <= rows.len(),
            all == rows.deep_view(),
            change == |row: ProductView| retired_product(row, id),
            retired.deep_view() =~= all.take(i as int).map_values(change),
        decreases rows.len() - i,
    {
        let ghost before = retired.deep_view();
        let mut row = rows[i].clone();
        if row.id == id {
            row.is_active = false;
        }
        retired.push(row);
        proof {
            assert(retired.deep_view() =~= before.push(change(all[i as int])));
            assert(all.take(i + 1).map_values(change) =~= all.take(i as int).map_values(
                change,
            ).push(change(all[i as int])));
        }
        i += 1;
    }
    proof {
        assert(all.take(rows.len() as int) =~= all);
    }
    retired
}

/// All roles, in the order of the table.
fn all_roles(rows: &Vec<Role>) -> (listed: Vec<Role>)
    ensures
        listed.deep_view() == rows.deep_view(),
{
    let mut listed: Vec<Role> = Vec::new();
    let mut i: usize = 0;
    while i < rows.len()
        invariant
            i <= rows.len(),
            listed.deep_view() =~= rows.deep_view().take(i as int),
        decreases rows.len() - i,
    {
        let ghost before = listed.deep_view();
        listed.push(rows[i].clone());
        proof {
            assert(listed.deep_view() =~= before.push(rows[i as int]@));
            assert(rows.deep_view().take(i + 1) =~= rows.deep_view().take(i as int).push(
                rows[i as int]@,
            ));
        }
        i += 1;
    }
    proof {
        assert(rows.deep_view().take(rows.len() as int) =~= rows.deep_view());
    }
    listed
}

/// All assignments, in the order of the table.
fn all_assignments(rows: &Vec<(i64, i64)>) -> (listed: Vec<(i64, i64)>)
    ensures
        listed@ == rows@,
{
    let mut listed: Vec<(i64, i64)> = Vec::new();
    let mut i: usize = 0;
    while i < rows.len()
        invariant
            i <= rows.len(),
            listed@ =~= rows@.take(i as int),
        decreases rows.len() - i,
    {
        listed.push((rows[i].0, rows[i].1));
        i += 1;
    }
    proof {
        assert(rows@.take(rows.len() as int) =~= rows@);
    }
    listed
}

impl MemoryStore {
    /// A store that holds nothing.
    pub fn new() -> (store: MemoryStore)
        ensures
            store@ == Tables::empty(),
    {
        let store = MemoryStore {
            users: Vec::new(),
            roles: Vec::new(),
            user_roles: Vec::new(),
            stores: Vec::new(),
            categories: Vec::new(),
            products: Vec::new(),
        };
        proof {
            assert(store.users.deep_view() =~= Seq::<UserView>::empty());
            assert(store.roles.deep_view() =~= Seq::<RoleView>::empty());
            assert(store.user_roles@ =~= Seq::<(i64, i64)>::empty());
            assert(store.stores.deep_view() =~= Seq::<StoreView>::empty());
            assert(store.categories.deep_view() =~= Seq::<CategoryView>::empty());
            assert(store.products.deep_view() =~= Seq::<ProductView>::empty());
        }
        store
    }

    /// Answers one query: the reply, and the state afterwards, are those of
    /// [`respond`].
    pub fn execute(&mut self, query: &Query) -> (reply: Reply)
        ensures
            (final(self)@, reply@) == respond(old(self)@, query@),
    {
        let ghost before = self@;
        let reply = match query {
            Query::FindUserByUsername { username } => Reply::User(
                find_user_by_username(&self.users, username),
            ),
            Query::InsertUser { user } => match next_user_id(&self.users) {
                Some(id) => {
                    self.users.push(user.clone().stored(id));
                    assert(self.users.deep_view() =~= before.users.push(user@.stored(id)));
                    Reply::Inserted(id)
                },
                None => no_id_left(),
            },
            Query::CountUsers => {
                let count = self.users.len();
                assert(count == before.users.len());
                if count as u64 <= i64::MAX as u64 {
                    Reply::Count(count as i64)
                } else {
                    Reply::Failed(StorageError { message: "count too large".to_string() })
                }
            },
            Query::FindAllUsers => Reply::Users(active_users(&self.users)),
            Query::FindRoleByName { role_name } => Reply::Role(
                find_role_by_name(&self.roles, role_name),
            ),
            Query::InsertRole { role_name } => match next_role_id(&self.roles) {
                Some(id) => {
                    self.roles.push(Role { id, role_name: role_name.clone() });
                    assert(self.roles.deep_view() =~= before.roles.push(
                        RoleView { id, role_name: role_name@ },
                    ));
                    Reply::Inserted(id)
                },
                None => no_id_left(),
            },
            Query::AssignRole { user_id, role_id } => {
                if !holds_role(&self.user_roles, *user_id, *role_id) {
                    self.user_roles.push((*user_id, *role_id));
                }
                Reply::Done
            },
            Query::FindUserById { id } => Reply::User(find_user_by_id(&self.users, *id)),
            Query::UpdateUser { id, cargo, email, store_id } => {
                let updated = users_updated(&self.users, *id, cargo, email, *store_id);
                self.users = updated;
                Reply::Done
            },
            Query::SoftDeleteUser { id } => {
                let retired = users_retired(&self.users, *id);
                self.users = retired;
                Reply::Done
            },
            Query::FindUsersByStore { store_id } => Reply::Users(
                users_of_store(&self.users, *store_id),
            ),
            Query::FindAllStores => Reply::Stores(active_stores(&self.stores)),
            Query::InsertStore { store } => match next_store_id(&self.stores) {
                Some(id) => {
                    self.stores.push(store.clone().stored(id));
                    assert(self.stores.deep_view() =~= before.stores.push(store@.stored(id)));
                    Reply::Inserted(id)
                },
                None => no_id_left(),
            },
            Query::UpdateStore { id, store } => {
                let updated = stores_updated(&self.stores, *id, store);
                self.stores = updated;
                Reply::Done
            },
            Query::SoftDeleteStore { id } => {
                let retired = stores_retired(&self.stores, *id);
                self.stores = retired;
                Reply::Done
            },
            Query::FindAllCategories => Reply::Categories(all_categories(&self.categories)),
            Query::InsertCategory { name } => match next_category_id(&self.categories) {
                Some(id) => {
                    self.categories.push(Category { id, name: name.clone() });
                    assert(self.categories.deep_view() =~= before.categories.push(
                        CategoryView { id, name: name@ },
                    ));
                    Reply::Inserted(id)
                },
                None => no_id_left(),
            },
            Query::UpdateCategory { id, name } => {
                let renamed = categories_renamed(&self.categories, *id, name);
                self.categories = renamed;
                Reply::Done
            },
            Query::DeleteCategory { id } => {
                let kept = categories_without(&self.categories, *id);
                self.categories = kept;
                Reply::Done
            },
            Query::FindAllProducts => Reply::Products(
                listed_products(&self.products, &self.categories),
            ),
            Query::InsertProduct { product } => match next_product_id(&self.products) {
                Some(id) => {
                    self.products.push(product.clone().stored(id));
                    assert(self.products.deep_view() =~= before.products.push(
                        product@.stored(id),
                    ));
                    Reply::Inserted(id)
                },
                None => no_id_left(),
            },
            Query::UpdateProduct { id, product } => {
                let updated = products_updated(&self.products, *id, product);
                self.products = updated;
                Reply::Done
            },
            Query::SoftDeleteProduct { id } => {
                let retired = products_retired(&self.products, *id);
                self.products = retired;
                Reply::Done
            },
        };
        reply
    }

    /// Runs an operation to its end: answers what it asks, one query after
    /// the other, and returns what it ends with. The result, and the state
    /// afterwards, are among those of [`runs`].
    pub fn run<F: Flow>(&mut self, step: Step<F, F::Output>) -> (result: Result<
        F::Output,
        ServiceError,
    >)
        ensures
            runs(old(self)@, step, final(self)@, result),
    {
        let mut current = step;
        loop
            invariant
                forall|end: Tables, result: Result<F::Output, ServiceError>|
                    runs(self@, current, end, result) ==> runs(old(self)@, step, end, result),
            decreases steps_ahead(current),
        {
            match current {
                Step::Ask(flow) => {
                    let ghost before = self@;
                    let query = flow.query();
                    let reply = self.execute(&query);
                    let next = flow.resume(reply);
                    proof {
                        assert forall|end: Tables, result: Result<F::Output, ServiceError>|
                            runs(self@, next, end, result) implies runs(
                            before,
                            Step::<F, F::Output>::Ask(flow),
                            end,
                            result,
                        ) by {
                            assert(flow.allows(respond(before, flow.asks()).1, next));
                        }
                    }
                    current = next;
                },
                Step::Done(result) => {
                    proof {
                        assert(runs(self@, Step::<F, F::Output>::Done(result), self@, result));
                    }
                    return result;
                },
            }
        }
    }

    /// All roles, in the order in which they were stored.
    pub fn roles(&self) -> (rows: Vec<Role>)
        ensures
            rows.deep_view() == self@.roles,
    {
        all_roles(&self.roles)
    }

    /// All assignments of roles to accounts, each a pair of the account's id
    /// and the role's, in the order in which they were stored.
    pub fn assignments(&self) -> (rows: Vec<(i64, i64)>)
        ensures
            rows@ == self@.user_roles,
    {
        all_assignments(&self.user_roles)
    }

    /// The row of the product with this id, active or not.
    pub fn product(&self, id: i64) -> (found: Option<Product>)
        ensures
            found.deep_view() == first_where(self@.products, |row: ProductView| row.id == id),
    {
        find_product_by_id(&self.products, id)
    }
}

} // verus!
