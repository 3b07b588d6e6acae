//! Management of stores: listing, creation, update and soft delete.

use vstd::prelude::*;

use crate::errors::pass_through;
use crate::flow::{done_with, ChangeFlow, ChangeView, Flow, Step, StepView};
use crate::models::store::{Store, StoreFields, StoreFieldsView, StoreView};
use crate::repositories::store_repo::{store_created_view, StoreRepository};
use crate::repositories::user_repo::{opt_str_text, owned_text};
use crate::storage::query::{Query, QueryView};
use crate::storage::reply::{Reply, ReplyView};

verus! {

/// A listing of the active stores that waits for the store.
#[derive(Debug)]
pub struct ListStoresFlow {}

/// What a [`ListStoresFlow`] stands for in contracts.
pub struct ListStoresView {}

impl View for ListStoresFlow {
    type V = ListStoresView;

    open spec fn view(&self) -> ListStoresView {
        ListStoresView {  }
    }
}

impl ListStoresView {
    /// An upper bound on the exchanges that the operation still needs.
    pub open spec fn steps_left(self) -> nat {
        1
    }

    /// The query that the flow waits on.
    pub open spec fn pending(self) -> QueryView {
        QueryView::FindAllStores
    }

    /// The step that follows the store's reply: the stores it listed.
    pub open spec fn after(self, reply: ReplyView) -> StepView<ListStoresView, Seq<StoreView>> {
        done_with(reply.as_stores())
    }
}

impl Flow for ListStoresFlow {
    type Output = Vec<Store>;

    open spec fn steps_left(&self) -> nat {
        self@.steps_left()
    }

    open spec fn asks(&self) -> QueryView {
        self@.pending()
    }

    open spec fn allows(&self, reply: ReplyView, step: Step<ListStoresFlow, Vec<Store>>) -> bool {
        step@ == self@.after(reply)
    }

    /// The query to send to the store.
    fn query(&self) -> (query: Query)
        ensures
            query@ == self@.pending(),
    {
        StoreRepository::new().find_all()
    }

    /// Takes the store's reply and ends the operation.
    fn resume(self, reply: Reply) -> (step: Step<ListStoresFlow, Vec<Store>>)
        ensures
            step@ == self@.after(reply@),
    {
        Step::Done(pass_through(reply.into_stores()))
    }
}

/// The creation of a store that waits for the store.
#[derive(Debug)]
pub struct CreateStoreFlow {
    pub store: StoreFields,
}

/// What a [`CreateStoreFlow`] stands for in contracts.
pub struct CreateStoreView {
    pub store: StoreFieldsView,
}

impl View for CreateStoreFlow {
    type V = CreateStoreView;

    open spec fn view(&self) -> CreateStoreView {
        CreateStoreView { store: self.store@ }
    }
}

impl CreateStoreView {
    /// An upper bound on the exchanges that the operation still needs.
    pub open spec fn steps_left(self) -> nat {
        1
    }

    /// The query that the flow waits on.
    pub open spec fn pending(self) -> QueryView {
        QueryView::InsertStore { store: self.store }
    }

    /// The step that follows the store's reply: the created record, active
    /// and under the id that the store assigned.
    pub open spec fn after(self, reply: ReplyView) -> StepView<CreateStoreView, StoreView> {
        done_with(store_created_view(self.store, reply.as_inserted()))
    }
}

impl Flow for CreateStoreFlow {
    type Output = Store;

    open spec fn steps_left(&self) -> nat {
        self@.steps_left()
    }

    open spec fn asks(&self) -> QueryView {
        self@.pending()
    }

    open spec fn allows(&self, reply: ReplyView, step: Step<CreateStoreFlow, Store>) -> bool {
        step@ == self@.after(reply)
    }

    /// The query to send to the store.
    fn query(&self) -> (query: Query)
        ensures
            query@ == self@.pending(),
    {
        Query::InsertStore { store: self.store.clone() }
    }

    /// Takes the store's reply and ends the operation.
    fn resume(self, reply: Reply) -> (step: Step<CreateStoreFlow, Store>)
        ensures
            step@ == self@.after(reply@),
    {
        Step::Done(pass_through(StoreRepository::new().created(self.store, reply)))
    }
}

/// Starts a listing of the active stores.
pub fn get_stores() -> (step: Step<ListStoresFlow, Vec<Store>>)
    ensures
        step@ == StepView::<ListStoresView, Seq<StoreView>>::Ask(ListStoresView {  }),
{
    Step::Ask(ListStoresFlow {  })
}

/// Starts the creation of a store.
pub fn create_store(name: &str, address: Option<&str>, code: Option<&str>) -> (step: Step<
    CreateStoreFlow,
    Store,
>)
    ensures
        step@ == StepView::<CreateStoreView, StoreView>::Ask(
            CreateStoreView {
                store: StoreFieldsView {
                    name: name@,
                    address: opt_str_text(address),
                    code: opt_str_text(code),
                },
            },
        ),
{
    Step::Ask(
        CreateStoreFlow {
            store: StoreFields {
                name: name.to_string(),
                address: owned_text(address),
                code: owned_text(code),
            },
        },
    )
}

/// Starts the overwrite of name, address and code of a store. An id that no
/// store has changes nothing and is no error.
pub fn update_store(id: i64, name: &str, address: Option<&str>, code: Option<&str>) -> (step: Step<
    ChangeFlow,
    (),
>)
    ensures
        step@ == StepView::<ChangeView, ()>::Ask(
            ChangeView {
                query: QueryView::UpdateStore {
                    id,
                    store: StoreFieldsView {
                        name: name@,
                        address: opt_str_text(address),
                        code: opt_str_text(code),
                    },
                },
            },
        ),
{
    Step::Ask(ChangeFlow { query: StoreRepository::new().update(id, name, address, code) })
}

/// Starts the soft delete of a store: it is marked inactive, and its row
/// stays.
pub fn delete_store(id: i64) -> (step: Step<ChangeFlow, ()>)
    ensures
        step@ == StepView::<ChangeView, ()>::Ask(
            ChangeView { query: QueryView::SoftDeleteStore { id } },
        ),
{
    Step::Ask(ChangeFlow { query: StoreRepository::new().soft_delete(id) })
}

} // verus!
