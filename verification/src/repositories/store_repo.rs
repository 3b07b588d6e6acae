use vstd::prelude::*;

use crate::errors::{result_view, StorageError};
use crate::models::store::{Store, StoreFields, StoreFieldsView, StoreView};
use crate::repositories::user_repo::{opt_str_text, owned_text};
use crate::storage::query::{Query, QueryView};
use crate::storage::reply::Reply;

verus! {

/// What the caller holds after an insert of a store.
pub open spec fn store_created_view(
    store: StoreFieldsView,
    inserted: Result<i64, Seq<char>>,
) -> Result<StoreView, Seq<char>> {
    match inserted {
        Ok(id) => Ok(store.stored(id)),
        Err(text) => Err(text),
    }
}

/// The points of sale.
#[derive(Debug, Clone, Copy)]
pub struct StoreRepository {}

impl StoreRepository {
    /// The repository. It holds nothing: the store is the host's.
    pub fn new() -> Self {
        StoreRepository {  }
    }

    /// The active stores.
    pub fn find_all(&self) -> (query: Query)
        ensures
            query@ == QueryView::FindAllStores,
    {
        Query::FindAllStores
    }

    /// A new store with these fields. The store makes it active and gives it
    /// an id.
    pub fn create(&self, name: &str, address: Option<&str>, code: Option<&str>) -> (query: Query)
        ensures
            query@ == (QueryView::InsertStore {
                store: StoreFieldsView {
                    name: name@,
                    address: opt_str_text(address),
                    code: opt_str_text(code),
                },
            }),
    {
        Query::InsertStore {
            store: StoreFields {
                name: name.to_string(),
                address: owned_text(address),
                code: owned_text(code),
            },
        }
    }

    /// The created store, from the fields that were sent and the store's
    /// answer to the insert.
    pub fn created(&self, store: StoreFields, reply: Reply) -> (created: Result<Store, StorageError>)
        ensures
            result_view(created) == store_created_view(store@, reply@.as_inserted()),
    {
        match reply.into_inserted() {
            Ok(id) => Ok(store.stored(id)),
            Err(error) => Err(error),
        }
    }

    /// Name, address and code of the store are overwritten. An id that no
    /// store has changes nothing and is no error.
    pub fn update(&self, id: i64, name: &str, address: Option<&str>, code: Option<&str>) -> (query:
        Query)
        ensures
            query@ == (QueryView::UpdateStore {
                id,
                store: StoreFieldsView {
                    name: name@,
                    address: opt_str_text(address),
                    code: opt_str_text(code),
                },
            }),
    {
        Query::UpdateStore {
            id,
            store: StoreFields {
                name: name.to_string(),
                address: owned_text(address),
                code: owned_text(code),
            },
        }
    }

    /// The store is marked inactive. Its row stays.
    pub fn soft_delete(&self, id: i64) -> (query: Query)
        ensures
            query@ == (QueryView::SoftDeleteStore { id }),
    {
        Query::SoftDeleteStore { id }
    }
}

} // verus!
