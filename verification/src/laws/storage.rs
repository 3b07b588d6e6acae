//! Laws of the storage contract itself: what no exchange undoes, and what a
//! soft delete, an assignment and a listing amount to.

use vstd::prelude::*;

use crate::models::inventory::{CategoryView, ProductFieldsView, ProductView};
use crate::models::store::StoreView;
use crate::models::user::UserView;
use crate::storage::contract::{
    answers, category_name, history, lists, product_listing, Exchange, Tables,
};
use crate::storage::query::QueryView;
use crate::storage::reply::ReplyView;

verus! {

/// A query that only reads leaves every table as it was.
pub proof fn reads_change_nothing(pre: Tables, query: QueryView, reply: ReplyView, post: Tables)
    requires
        answers(pre, query, reply, post),
        query.reads_only(),
    ensures
        post == pre,
{
}

/// Every row of a filtered table is a row of the table, and rows keep their
/// order: ids that are distinct in the table are distinct in what is kept.
proof fn kept_categories_are_distinct(rows: Seq<CategoryView>, wanted: spec_fn(CategoryView) -> bool)
    requires
        forall|i: int, j: int|
            0 <= i < j < rows.len() ==> (#[trigger] rows[i]).id != (#[trigger] rows[j]).id,
    ensures
        forall|i: int, j: int|
            0 <= i < j < rows.filter(wanted).len() ==> (#[trigger] rows.filter(wanted)[i]).id != (
            #[trigger] rows.filter(wanted)[j]).id,
        forall|i: int| 0 <= i < rows.filter(wanted).len() ==> rows.contains(#[trigger] rows.filter(wanted)[i]),
    decreases rows.len(),
{
    reveal(Seq::filter);
    if rows.len() > 0 {
        let rest = rows.drop_last();
        kept_categories_are_distinct(rest, wanted);
        let kept = rows.filter(wanted);
        assert forall|i: int| 0 <= i < kept.len() implies rows.contains(#[trigger] kept[i]) by {
            if i < rest.filter(wanted).len() {
                let row = rest.filter(wanted)[i];
                assert(rest.contains(row));
                let at = choose|at: int| 0 <= at < rest.len() && rest[at] == row;
                assert(rows[at] == row);
            } else {
                assert(kept[i] == rows[rows.len() - 1]);
            }
        }
        assert forall|i: int, j: int| 0 <= i < j < kept.len() implies (#[trigger] kept[i]).id != (
        #[trigger] kept[j]).id by {
            if j >= rest.filter(wanted).len() {
                let row = rest.filter(wanted)[i];
                assert(rest.contains(row));
                let at = choose|at: int| 0 <= at < rest.len() && rest[at] == row;
                assert(rows[at] == row);
                assert(kept[j] == rows[rows.len() - 1]);
            }
        }
    }
}

/// What the schema guarantees of one state, it guarantees of the next: an
/// exchange by the contract leaves ids distinct within each table, and
/// assignments without duplicates.
pub proof fn well_formed_is_kept(pre: Tables, query: QueryView, reply: ReplyView, post: Tables)
    requires
        pre.well_formed(),
        answers(pre, query, reply, post),
    ensures
        post.well_formed(),
{
    if !(reply is Failed) {
        match query {
            QueryView::InsertUser { .. } => {
                assert forall|i: int, j: int| 0 <= i < j < post.users.len() implies (
                #[trigger] post.users[i]).id != (#[trigger] post.users[j]).id by {
                    assert(post.users.drop_last()[i] == pre.users[i]);
                    if j < pre.users.len() {
                        assert(post.users.drop_last()[j] == pre.users[j]);
                    }
                }
            },
            QueryView::InsertStore { .. } => {
                assert forall|i: int, j: int| 0 <= i < j < post.stores.len() implies (
                #[trigger] post.stores[i]).id != (#[trigger] post.stores[j]).id by {
                    assert(post.stores.drop_last()[i] == pre.stores[i]);
                    if j < pre.stores.len() {
                        assert(post.stores.drop_last()[j] == pre.stores[j]);
                    }
                }
            },
            QueryView::InsertProduct { .. } => {
                assert forall|i: int, j: int| 0 <= i < j < post.products.len() implies (
                #[trigger] post.products[i]).id != (#[trigger] post.products[j]).id by {
                    assert(post.products.drop_last()[i] == pre.products[i]);
                    if j < pre.products.len() {
                        assert(post.products.drop_last()[j] == pre.products[j]);
                    }
                }
            },
            QueryView::DeleteCategory { id } => {
                kept_categories_are_distinct(pre.categories, |row: CategoryView| row.id != id);
            },
            _ => {},
        }
    }
}

/// No exchange removes an account or changes its username: a username that
/// an account has, active or not, is had by an account ever after.
pub proof fn usernames_persist(
    pre: Tables,
    query: QueryView,
    reply: ReplyView,
    post: Tables,
    username: Seq<char>,
)
    requires
        answers(pre, query, reply, post),
        pre.has_username(username),
    ensures
        post.has_username(username),
{
    let at = choose|i: int| 0 <= i < pre.users.len() && (#[trigger] pre.users[i]).username == username;
    if !(reply is Failed) {
        match query {
            QueryView::InsertUser { .. } => {
                assert(post.users.drop_last()[at] == pre.users[at]);
            },
            _ => {},
        }
    }
    assert(post.users[at].username == username);
}

/// A username that an account has at some time is had by an account after
/// any number of further exchanges.
pub proof fn usernames_persist_through(states: Seq<Tables>, log: Seq<Exchange>, username: Seq<char>)
    requires
        history(states, log),
        states.first().has_username(username),
    ensures
        states.last().has_username(username),
    decreases log.len(),
{
    if log.len() > 0 {
        let earlier = states.drop_last();
        let before = log.drop_last();
        assert(history(earlier, before)) by {
            assert forall|i: int| 0 <= i < before.len() implies answers(
                earlier[i],
                (#[trigger] before[i]).query,
                before[i].reply,
                earlier[i + 1],
            ) by {
                assert(before[i] == log[i]);
            }
        }
        usernames_persist_through(earlier, before, username);
        let last = log.len() - 1;
        assert(answers(states[last], log[last].query, log[last].reply, states[last + 1]));
        usernames_persist(
            states[last],
            log[last].query,
            log[last].reply,
            states[last + 1],
            username,
        );
    }
}

/// No exchange removes a role or renames it.
pub proof fn roles_persist(
    pre: Tables,
    query: QueryView,
    reply: ReplyView,
    post: Tables,
    role_name: Seq<char>,
)
    requires
        answers(pre, query, reply, post),
        pre.has_role_named(role_name),
    ensures
        post.has_role_named(role_name),
{
    let at = choose|i: int|
        0 <= i < pre.roles.len() && (#[trigger] pre.roles[i]).role_name == role_name;
    assert(post.roles[at].role_name == role_name);
}

/// Accounts are never removed: an exchange leaves as many or one more.
pub proof fn accounts_are_kept(pre: Tables, query: QueryView, reply: ReplyView, post: Tables)
    requires
        answers(pre, query, reply, post),
    ensures
        post.users.len() >= pre.users.len(),
{
}

/// A soft delete is final. No exchange removes a product's row, gives it
/// another id, or makes an inactive product active again.
pub proof fn inactive_products_stay_inactive(
    pre: Tables,
    query: QueryView,
    reply: ReplyView,
    post: Tables,
    at: int,
)
    requires
        answers(pre, query, reply, post),
        0 <= at < pre.products.len(),
    ensures
        at < post.products.len(),
        post.products[at].id == pre.products[at].id,
        !pre.products[at].is_active ==> !post.products[at].is_active,
{
    if !(reply is Failed) {
        match query {
            QueryView::InsertProduct { .. } => {
                assert(post.products.drop_last()[at] == pre.products[at]);
            },
            _ => {},
        }
    }
}

/// A soft delete is final for accounts too.
pub proof fn inactive_users_stay_inactive(
    pre: Tables,
    query: QueryView,
    reply: ReplyView,
    post: Tables,
    at: int,
)
    requires
        answers(pre, query, reply, post),
        0 <= at < pre.users.len(),
    ensures
        at < post.users.len(),
        post.users[at].id == pre.users[at].id,
        post.users[at].username == pre.users[at].username,
        !pre.users[at].is_active ==> !post.users[at].is_active,
{
    if !(reply is Failed) {
        match query {
            QueryView::InsertUser { .. } => {
                assert(post.users.drop_last()[at] == pre.users[at]);
            },
            _ => {},
        }
    }
}

/// A soft delete is final for stores too.
pub proof fn inactive_stores_stay_inactive(
    pre: Tables,
    query: QueryView,
    reply: ReplyView,
    post: Tables,
    at: int,
)
    requires
        answers(pre, query, reply, post),
        0 <= at < pre.stores.len(),
    ensures
        at < post.stores.len(),
        post.stores[at].id == pre.stores[at].id,
        !pre.stores[at].is_active ==> !post.stores[at].is_active,
{
    if !(reply is Failed) {
        match query {
            QueryView::InsertStore { .. } => {
                assert(post.stores.drop_last()[at] == pre.stores[at]);
            },
            _ => {},
        }
    }
}

/// Every row of a listing of products comes from an active product with the
/// same id.
pub proof fn listed_products_are_active(tables: Tables, at: int)
    requires
        0 <= at < product_listing(tables).len(),
    ensures
        exists|from: int|
            0 <= from < tables.products.len() && (#[trigger] tables.products[from]).is_active
                && tables.products[from].id == product_listing(tables)[at].id,
{
    let active = |row: ProductView| row.is_active;
    let kept = tables.products.filter(active);
    assert(active(kept[at])) by {
        tables.products.lemma_filter_pred(active, at);
    }
    assert(tables.products.contains(kept[at])) by {
        assert(kept.contains(kept[at]));
        tables.products.lemma_filter_contains_rev(active, kept[at]);
    }
    let from = choose|from: int| 0 <= from < tables.products.len() && tables.products[from] == kept[at];
    assert(tables.products[from].is_active);
}

/// A soft-deleted product is hidden and kept. Once the store has carried out
/// the soft delete of product `id`, no listing shows a product with that id;
/// yet every row is still there, those with the id inactive and otherwise as
/// they were, all others untouched.
pub proof fn soft_deleted_product_is_hidden_and_kept(
    before: Tables,
    id: i64,
    deleted: Tables,
    listed: Seq<crate::models::inventory::ProductWithCategoryView>,
    after: Tables,
)
    requires
        answers(before, QueryView::SoftDeleteProduct { id }, ReplyView::Done, deleted),
        answers(deleted, QueryView::FindAllProducts, ReplyView::Products(listed), after),
    ensures
        forall|k: int| 0 <= k < listed.len() ==> (#[trigger] listed[k]).id != id,
        deleted.products.len() == before.products.len(),
        forall|i: int|
            0 <= i < before.products.len() ==> (#[trigger] deleted.products[i]) == (if before.products[i].id
                == id {
                ProductView { is_active: false, ..before.products[i] }
            } else {
                before.products[i]
            }),
        after == deleted,
{
    let shown = product_listing(deleted);
    assert forall|k: int| 0 <= k < listed.len() implies (#[trigger] listed[k]).id != id by {
        let row = listed[k];
        assert(listed.contains(row));
        listed.to_multiset_ensures();
        shown.to_multiset_ensures();
        assert(listed.to_multiset().count(row) > 0);
        assert(shown.to_multiset().count(row) > 0);
        assert(shown.contains(row));
        let at = choose|at: int| 0 <= at < shown.len() && shown[at] == row;
        listed_products_are_active(deleted, at);
    }
}

/// Assigning a role twice is assigning it once. After the store has carried
/// out the same assignment twice, the second has changed nothing, and the
/// table holds the pair exactly once.
pub proof fn assignment_is_idempotent(
    before: Tables,
    user_id: i64,
    role_id: i64,
    once: Tables,
    twice: Tables,
)
    requires
        before.well_formed(),
        answers(before, QueryView::AssignRole { user_id, role_id }, ReplyView::Done, once),
        answers(once, QueryView::AssignRole { user_id, role_id }, ReplyView::Done, twice),
    ensures
        twice == once,
        twice.user_roles.contains((user_id, role_id)),
        twice.user_roles.no_duplicates(),
        twice.user_roles.filter(|pair: (i64, i64)| pair == (user_id, role_id)).len() == 1,
{
    let pair = (user_id, role_id);
    if !before.user_roles.contains(pair) {
        assert(once.user_roles.last() == pair);
    }
    assert(once.user_roles.contains(pair));
    well_formed_is_kept(before, QueryView::AssignRole { user_id, role_id }, ReplyView::Done, once);
    occurs_once(once.user_roles, pair);
}

/// In a sequence without duplicates an element that occurs, occurs once.
proof fn occurs_once(rows: Seq<(i64, i64)>, pair: (i64, i64))
    requires
        rows.no_duplicates(),
        rows.contains(pair),
    ensures
        rows.filter(|row: (i64, i64)| row == pair).len() == 1,
    decreases rows.len(),
{
    reveal(Seq::filter);
    let same = |row: (i64, i64)| row == pair;
    let rest = rows.drop_last();
    let at = choose|at: int| 0 <= at < rows.len() && rows[at] == pair;
    if rows.last() == pair {
        occurs_never(rest, pair);
    } else {
        assert(rest[at] == pair);
        occurs_once(rest, pair);
    }
}

/// An element that does not occur in a sequence is not kept by a filter for
/// it.
proof fn occurs_never(rows: Seq<(i64, i64)>, pair: (i64, i64))
    requires
        !rows.contains(pair),
    ensures
        rows.filter(|row: (i64, i64)| row == pair).len() == 0,
    decreases rows.len(),
{
    reveal(Seq::filter);
    if rows.len() > 0 {
        let rest = rows.drop_last();
        assert(rows[rows.len() - 1] != pair);
        assert forall|i: int| 0 <= i < rest.len() implies rest[i] != pair by {
            assert(rows[i] == rest[i]);
        }
        occurs_never(rest, pair);
    }
}

/// A product whose category does not exist is listed without a category
/// name.
pub proof fn missing_category_has_no_name(categories: Seq<CategoryView>, id: i64)
    requires
        forall|i: int| 0 <= i < categories.len() ==> (#[trigger] categories[i]).id != id,
    ensures
        category_name(categories, Some(id)) is None,
    decreases categories.len(),
{
    if categories.len() > 0 {
        let rest = categories.drop_first();
        assert(categories[0].id != id);
        assert forall|i: int| 0 <= i < rest.len() implies (#[trigger] rest[i]).id != id by {
            assert(rest[i] == categories[i + 1]);
        }
        missing_category_has_no_name(rest, id);
    }
}

/// A product may name a category that does not exist. The insert is carried
/// out without a look at the categories, and once it is, every listing shows
/// the product, active and with the fields given, under the id that the
/// store assigned and without a category name.
pub proof fn product_of_missing_category_is_listed(
    before: Tables,
    product: ProductFieldsView,
    category_id: i64,
    id: i64,
    inserted: Tables,
    listed: Seq<crate::models::inventory::ProductWithCategoryView>,
    after: Tables,
)
    requires
        product.category_id == Some(category_id),
        !before.has_category(category_id),
        answers(before, QueryView::InsertProduct { product }, ReplyView::Inserted(id), inserted),
        answers(inserted, QueryView::FindAllProducts, ReplyView::Products(listed), after),
    ensures
        exists|k: int|
            0 <= k < listed.len() && (#[trigger] listed[k]).id == id && listed[k].category_id
                == Some(category_id) && listed[k].category_name is None && listed[k].name
                == product.name && listed[k].is_active,
{
    let active = |row: ProductView| row.is_active;
    let shown = product_listing(inserted);
    let stored = inserted.products.last();
    let kept = inserted.products.filter(active);
    assert(kept.contains(stored)) by {
        inserted.products.lemma_filter_contains(active, inserted.products.len() - 1);
    }
    let at = choose|at: int| 0 <= at < kept.len() && kept[at] == stored;
    assert(category_name(inserted.categories, stored.category_id) is None) by {
        assert forall|i: int| 0 <= i < before.categories.len() implies (
        #[trigger] before.categories[i]).id != category_id by {}
        missing_category_has_no_name(inserted.categories, category_id);
    }
    let row = shown[at];
    assert(row == stored.listed(None));
    assert(shown.contains(row));
    listed.to_multiset_ensures();
    shown.to_multiset_ensures();
    assert(shown.to_multiset().count(row) > 0);
    assert(listed.to_multiset().count(row) > 0);
    assert(listed.contains(row));
    let k = choose|k: int| 0 <= k < listed.len() && listed[k] == row;
    assert(listed[k].id == id);
}

/// What the schema guarantees of the first state, it guarantees of the last.
pub proof fn well_formed_is_kept_through(states: Seq<Tables>, log: Seq<Exchange>)
    requires
        history(states, log),
        states.first().well_formed(),
    ensures
        states.last().well_formed(),
    decreases log.len(),
{
    if log.len() > 0 {
        let earlier = states.drop_last();
        let before = log.drop_last();
        assert(history(earlier, before)) by {
            assert forall|i: int| 0 <= i < before.len() implies answers(
                earlier[i],
                (#[trigger] before[i]).query,
                before[i].reply,
                earlier[i + 1],
            ) by {
                assert(before[i] == log[i]);
            }
        }
        well_formed_is_kept_through(earlier, before);
        let last = log.len() - 1;
        assert(answers(states[last], log[last].query, log[last].reply, states[last + 1]));
        well_formed_is_kept(states[last], log[last].query, log[last].reply, states[last + 1]);
    }
}

/// What a listing holds. An answer to a listing of the wanted rows of a table
/// holds only wanted rows of the table, holds every wanted row of the table,
/// and is as long as there are wanted rows.
pub proof fn listing_holds_the_wanted_rows<A>(
    rows: Seq<A>,
    wanted: spec_fn(A) -> bool,
    listed: Seq<A>,
)
    requires
        lists(rows.filter(wanted), listed),
    ensures
        forall|k: int|
            0 <= k < listed.len() ==> wanted(#[trigger] listed[k]) && rows.contains(listed[k]),
        forall|i: int| 0 <= i < rows.len() && wanted(#[trigger] rows[i]) ==> listed.contains(rows[i]),
        listed.len() == rows.filter(wanted).len(),
{
    let kept = rows.filter(wanted);
    listed.to_multiset_ensures();
    kept.to_multiset_ensures();
    assert forall|k: int| 0 <= k < listed.len() implies wanted(#[trigger] listed[k])
        && rows.contains(listed[k]) by {
        let row = listed[k];
        assert(listed.contains(row));
        assert(listed.to_multiset().count(row) > 0);
        assert(kept.to_multiset().count(row) > 0);
        assert(kept.contains(row));
        let at = choose|at: int| 0 <= at < kept.len() && kept[at] == row;
        rows.lemma_filter_pred(wanted, at);
        rows.lemma_filter_contains_rev(wanted, row);
    }
    assert forall|i: int| 0 <= i < rows.len() && wanted(#[trigger] rows[i]) implies listed.contains(
        rows[i],
    ) by {
        rows.lemma_filter_contains(wanted, i);
        assert(kept.to_multiset().count(rows[i]) > 0);
        assert(listed.to_multiset().count(rows[i]) > 0);
    }
}

/// A listing of accounts shows the active accounts and no others.
pub proof fn listed_users_are_the_active_ones(tables: Tables, listed: Seq<UserView>, after: Tables)
    requires
        answers(tables, QueryView::FindAllUsers, ReplyView::Users(listed), after),
    ensures
        forall|k: int|
            0 <= k < listed.len() ==> (#[trigger] listed[k]).is_active && tables.users.contains(
                listed[k],
            ),
        forall|i: int|
            0 <= i < tables.users.len() && (#[trigger] tables.users[i]).is_active
                ==> listed.contains(tables.users[i]),
{
    let active = |row: UserView| row.is_active;
    listing_holds_the_wanted_rows(tables.users, active, listed);
    assert forall|k: int| 0 <= k < listed.len() implies (#[trigger] listed[k]).is_active
        && tables.users.contains(listed[k]) by {
        assert(active(listed[k]));
    }
    assert forall|i: int|
        0 <= i < tables.users.len() && (#[trigger] tables.users[i]).is_active implies listed.contains(
        tables.users[i],
    ) by {
        assert(active(tables.users[i]));
    }
}

/// A listing of the accounts of a store shows the active accounts assigned to
/// it and no others.
pub proof fn listed_users_of_a_store_are_its_active_ones(
    tables: Tables,
    store_id: i64,
    listed: Seq<UserView>,
    after: Tables,
)
    requires
        answers(tables, QueryView::FindUsersByStore { store_id }, ReplyView::Users(listed), after),
    ensures
        forall|k: int|
            0 <= k < listed.len() ==> (#[trigger] listed[k]).is_active && listed[k].store_id
                == Some(store_id) && tables.users.contains(listed[k]),
        forall|i: int|
            0 <= i < tables.users.len() && (#[trigger] tables.users[i]).is_active
                && tables.users[i].store_id == Some(store_id) ==> listed.contains(tables.users[i]),
{
    let of_store = |row: UserView| row.is_active && row.store_id == Some(store_id);
    listing_holds_the_wanted_rows(tables.users, of_store, listed);
    assert forall|k: int| 0 <= k < listed.len() implies (#[trigger] listed[k]).is_active
        && listed[k].store_id == Some(store_id) && tables.users.contains(listed[k]) by {
        assert(of_store(listed[k]));
    }
    assert forall|i: int|
        0 <= i < tables.users.len() && (#[trigger] tables.users[i]).is_active
            && tables.users[i].store_id == Some(store_id) implies listed.contains(
        tables.users[i],
    ) by {
        assert(of_store(tables.users[i]));
    }
}

/// A listing of stores shows the active stores and no others.
pub proof fn listed_stores_are_the_active_ones(tables: Tables, listed: Seq<StoreView>, after: Tables)
    requires
        answers(tables, QueryView::FindAllStores, ReplyView::Stores(listed), after),
    ensures
        forall|k: int|
            0 <= k < listed.len() ==> (#[trigger] listed[k]).is_active && tables.stores.contains(
                listed[k],
            ),
        forall|i: int|
            0 <= i < tables.stores.len() && (#[trigger] tables.stores[i]).is_active
                ==> listed.contains(tables.stores[i]),
{
    let active = |row: StoreView| row.is_active;
    listing_holds_the_wanted_rows(tables.stores, active, listed);
    assert forall|k: int| 0 <= k < listed.len() implies (#[trigger] listed[k]).is_active
        && tables.stores.contains(listed[k]) by {
        assert(active(listed[k]));
    }
    assert forall|i: int|
        0 <= i < tables.stores.len() && (#[trigger] tables.stores[i]).is_active implies listed.contains(
        tables.stores[i],
    ) by {
        assert(active(tables.stores[i]));
    }
}

/// A filter that every row passes keeps the table as it is.
proof fn filter_keeps_all<A>(rows: Seq<A>, wanted: spec_fn(A) -> bool)
    requires
        forall|i: int| 0 <= i < rows.len() ==> wanted(#[trigger] rows[i]),
    ensures
        rows.filter(wanted) == rows,
    decreases rows.len(),
{
    reveal(Seq::filter);
    if rows.len() > 0 {
        let rest = rows.drop_last();
        assert forall|i: int| 0 <= i < rest.len() implies wanted(#[trigger] rest[i]) by {
            assert(rest[i] == rows[i]);
        }
        filter_keeps_all(rest, wanted);
        assert(wanted(rows[rows.len() - 1]));
        assert(rest.push(rows.last()) =~= rows);
    }
}

/// Whether the query changes or removes the rows of one table that have one
/// id, and nothing else.
pub open spec fn changes_rows_by_id(query: QueryView) -> bool {
    query is UpdateUser || query is SoftDeleteUser || query is UpdateStore
        || query is SoftDeleteStore || query is UpdateCategory || query is DeleteCategory
        || query is UpdateProduct || query is SoftDeleteProduct
}

/// Whether the table that the query is about holds a row with the query's id.
pub open spec fn row_exists(tables: Tables, query: QueryView) -> bool {
    match query {
        QueryView::UpdateUser { id, .. } | QueryView::SoftDeleteUser { id } => exists|i: int|
            0 <= i < tables.users.len() && (#[trigger] tables.users[i]).id == id,
        QueryView::UpdateStore { id, .. } | QueryView::SoftDeleteStore { id } => exists|i: int|
            0 <= i < tables.stores.len() && (#[trigger] tables.stores[i]).id == id,
        QueryView::UpdateCategory { id, .. } | QueryView::DeleteCategory { id } => exists|i: int|
            0 <= i < tables.categories.len() && (#[trigger] tables.categories[i]).id == id,
        QueryView::UpdateProduct { id, .. } | QueryView::SoftDeleteProduct { id } => exists|i: int|
            0 <= i < tables.products.len() && (#[trigger] tables.products[i]).id == id,
        _ => true,
    }
}

/// An update or a delete of a row that is not there is carried out all the
/// same: the store answers that it is done, and nothing has changed.
pub proof fn change_of_a_missing_row_changes_nothing(
    pre: Tables,
    query: QueryView,
    reply: ReplyView,
    post: Tables,
)
    requires
        changes_rows_by_id(query),
        !row_exists(pre, query),
        answers(pre, query, reply, post),
    ensures
        post == pre,
        !(reply is Failed) ==> reply == ReplyView::Done,
{
    if !(reply is Failed) {
        match query {
            QueryView::UpdateUser { .. } | QueryView::SoftDeleteUser { .. } => {
                assert(post.users =~= pre.users);
            },
            QueryView::UpdateStore { .. } | QueryView::SoftDeleteStore { .. } => {
                assert(post.stores =~= pre.stores);
            },
            QueryView::UpdateCategory { .. } => {
                assert(post.categories =~= pre.categories);
            },
            QueryView::DeleteCategory { id } => {
                filter_keeps_all(pre.categories, |row: CategoryView| row.id != id);
            },
            QueryView::UpdateProduct { .. } | QueryView::SoftDeleteProduct { .. } => {
                assert(post.products =~= pre.products);
            },
            _ => {},
        }
    }
}

/// The delete of a category does not cascade. It removes the rows with the
/// id, keeps every other category, and leaves the products as they are,
/// those that name the category included.
pub proof fn deleting_a_category_leaves_the_products(pre: Tables, id: i64, post: Tables)
    requires
        answers(pre, QueryView::DeleteCategory { id }, ReplyView::Done, post),
    ensures
        post.products == pre.products,
        !post.has_category(id),
        forall|i: int|
            0 <= i < pre.categories.len() && (#[trigger] pre.categories[i]).id != id
                ==> post.categories.contains(pre.categories[i]),
        forall|k: int|
            0 <= k < post.categories.len() ==> pre.categories.contains(#[trigger] post.categories[k]),
{
    let others = |row: CategoryView| row.id != id;
    assert(lists(pre.categories.filter(others), post.categories));
    listing_holds_the_wanted_rows(pre.categories, others, post.categories);
    assert forall|k: int| 0 <= k < post.categories.len() implies (#[trigger] post.categories[k]).id
        != id by {
        assert(others(post.categories[k]));
    }
    assert forall|i: int|
        0 <= i < pre.categories.len() && (#[trigger] pre.categories[i]).id
            != id implies post.categories.contains(pre.categories[i]) by {
        assert(others(pre.categories[i]));
    }
}

/// Whether the product `id` is in the table, at row `at`, and no row with the
/// id is active.
pub open spec fn is_retired(tables: Tables, id: i64, at: int) -> bool {
    &&& 0 <= at < tables.products.len()
    &&& tables.products[at].id == id
    &&& forall|i: int|
        0 <= i < tables.products.len() && (#[trigger] tables.products[i]).id == id
            ==> !tables.products[i].is_active
}

/// No exchange brings a soft-deleted product back: no update makes it active,
/// and no insert is given its id.
pub proof fn retired_product_stays_retired(
    pre: Tables,
    query: QueryView,
    reply: ReplyView,
    post: Tables,
    id: i64,
    at: int,
)
    requires
        answers(pre, query, reply, post),
        is_retired(pre, id, at),
    ensures
        is_retired(post, id, at),
{
    if !(reply is Failed) {
        match query {
            QueryView::InsertProduct { .. } => {
                assert forall|i: int|
                    0 <= i < post.products.len() && (#[trigger] post.products[i]).id
                        == id implies !post.products[i].is_active by {
                    if i < pre.products.len() {
                        assert(post.products.drop_last()[i] == pre.products[i]);
                    } else {
                        assert(pre.products[at].id == id);
                    }
                }
                assert(post.products.drop_last()[at] == pre.products[at]);
            },
            _ => {},
        }
    }
}

/// A soft-deleted product stays retired through any number of exchanges.
pub proof fn retired_product_stays_retired_through(
    states: Seq<Tables>,
    log: Seq<Exchange>,
    id: i64,
    at: int,
)
    requires
        history(states, log),
        is_retired(states.first(), id, at),
    ensures
        is_retired(states.last(), id, at),
    decreases log.len(),
{
    if log.len() > 0 {
        let earlier = states.drop_last();
        let before = log.drop_last();
        assert(history(earlier, before)) by {
            assert forall|i: int| 0 <= i < before.len() implies answers(
                earlier[i],
                (#[trigger] before[i]).query,
                before[i].reply,
                earlier[i + 1],
            ) by {
                assert(before[i] == log[i]);
            }
        }
        retired_product_stays_retired_through(earlier, before, id, at);
        let last = log.len() - 1;
        assert(answers(states[last], log[last].query, log[last].reply, states[last + 1]));
        retired_product_stays_retired(
            states[last],
            log[last].query,
            log[last].reply,
            states[last + 1],
            id,
            at,
        );
    }
}

/// A soft delete is for good. Once the store has carried out the soft delete
/// of a product that it holds, no listing shows a product with that id ever
/// again, whatever is asked of the store in between; its row stays where it
/// was.
pub proof fn soft_deleted_product_stays_hidden(
    before: Tables,
    id: i64,
    at: int,
    states: Seq<Tables>,
    log: Seq<Exchange>,
    listed: Seq<crate::models::inventory::ProductWithCategoryView>,
    after: Tables,
)
    requires
        0 <= at < before.products.len(),
        before.products[at].id == id,
        answers(before, QueryView::SoftDeleteProduct { id }, ReplyView::Done, states.first()),
        history(states, log),
        answers(states.last(), QueryView::FindAllProducts, ReplyView::Products(listed), after),
    ensures
        forall|k: int| 0 <= k < listed.len() ==> (#[trigger] listed[k]).id != id,
        at < states.last().products.len(),
        states.last().products[at].id == id,
        !states.last().products[at].is_active,
{
    assert(is_retired(states.first(), id, at));
    retired_product_stays_retired_through(states, log, id, at);
    let now = states.last();
    let shown = product_listing(now);
    assert forall|k: int| 0 <= k < listed.len() implies (#[trigger] listed[k]).id != id by {
        let row = listed[k];
        assert(listed.contains(row));
        listed.to_multiset_ensures();
        shown.to_multiset_ensures();
        assert(listed.to_multiset().count(row) > 0);
        assert(shown.to_multiset().count(row) > 0);
        assert(shown.contains(row));
        let from = choose|from: int| 0 <= from < shown.len() && shown[from] == row;
        listed_products_are_active(now, from);
    }
}

} // verus!
