use vstd::prelude::*;

use crate::models::user::opt_text;

verus! {

/// A point of sale.
#[derive(Debug, PartialEq)]
pub struct Store {
    pub id: i64,
    pub name: String,
    pub code: Option<String>,
    pub address: Option<String>,
    pub is_active: bool,
    pub created_at: Option<chrono::NaiveDateTime>,
}

/// What a [`Store`] stands for in contracts.
pub struct StoreView {
    pub id: i64,
    pub name: Seq<char>,
    pub code: Option<Seq<char>>,
    pub address: Option<Seq<char>>,
    pub is_active: bool,
    pub created_at: Option<chrono::NaiveDateTime>,
}

impl View for Store {
    type V = StoreView;

    open spec fn view(&self) -> StoreView {
        StoreView {
            id: self.id,
            name: self.name@,
            code: opt_text(self.code),
            address: opt_text(self.address),
            is_active: self.is_active,
            created_at: self.created_at,
        }
    }
}

impl DeepView for Store {
    type V = StoreView;

    open spec fn deep_view(&self) -> StoreView {
        self@
    }
}

impl Clone for Store {
    fn clone(&self) -> (copy: Self)
        ensures
            copy == *self,
    {
        Store {
            id: self.id,
            name: self.name.clone(),
            code: self.code.clone(),
            address: self.address.clone(),
            is_active: self.is_active,
            created_at: self.created_at,
        }
    }
}

/// The fields of a store that the caller chooses, on creation and on update.
#[derive(Debug, PartialEq)]
pub struct StoreFields {
    pub name: String,
    pub address: Option<String>,
    pub code: Option<String>,
}

/// What a [`StoreFields`] stands for in contracts.
pub struct StoreFieldsView {
    pub name: Seq<char>,
    pub address: Option<Seq<char>>,
    pub code: Option<Seq<char>>,
}

impl StoreFieldsView {
    /// The record that the caller holds once the store has answered with `id`.
    pub open spec fn stored(self, id: i64) -> StoreView {
        StoreView {
            id,
            name: self.name,
            code: self.code,
            address: self.address,
            is_active: true,
            created_at: None,
        }
    }
}

impl View for StoreFields {
    type V = StoreFieldsView;

    open spec fn view(&self) -> StoreFieldsView {
        StoreFieldsView {
            name: self.name@,
            address: opt_text(self.address),
            code: opt_text(self.code),
        }
    }
}

impl Clone for StoreFields {
    fn clone(&self) -> (copy: Self)
        ensures
            copy == *self,
    {
        StoreFields {
            name: self.name.clone(),
            address: self.address.clone(),
            code: self.code.clone(),
        }
    }
}

impl StoreFields {
    /// The created record, given the id that the store assigned.
    pub fn stored(self, id: i64) -> (store: Store)
        ensures
            store@ == self@.stored(id),
    {
        Store {
            id,
            name: self.name,
            code: self.code,
            address: self.address,
            is_active: true,
            created_at: None,
        }
    }
}

} // verus!
