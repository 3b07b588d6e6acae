//! What the store answers.

use vstd::prelude::*;

use crate::errors::{result_view, unexpected_reply_text, StorageError};
use crate::models::inventory::{Category, CategoryView, ProductWithCategory, ProductWithCategoryView};
use crate::models::store::{Store, StoreView};
use crate::models::user::{Role, RoleView, User, UserView};

verus! {

/// The store's answer to one [`crate::storage::query::Query`].
#[derive(Debug, PartialEq)]
pub enum Reply {
    /// The statement failed; nothing was changed.
    Failed(StorageError),
    /// An update, a delete or a role assignment was carried out.
    Done,
    /// A row was inserted under this id.
    Inserted(i64),
    /// The number of rows counted.
    Count(i64),
    /// The account found, if any.
    User(Option<User>),
    /// The accounts listed.
    Users(Vec<User>),
    /// The role found, if any.
    Role(Option<Role>),
    /// The stores listed.
    Stores(Vec<Store>),
    /// The categories listed.
    Categories(Vec<Category>),
    /// The products listed.
    Products(Vec<ProductWithCategory>),
}

/// What a [`Reply`] stands for in contracts.
pub enum ReplyView {
    Failed(Seq<char>),
    Done,
    Inserted(i64),
    Count(i64),
    User(Option<UserView>),
    Users(Seq<UserView>),
    Role(Option<RoleView>),
    Stores(Seq<StoreView>),
    Categories(Seq<CategoryView>),
    Products(Seq<ProductWithCategoryView>),
}

impl View for Reply {
    type V = ReplyView;

    open spec fn view(&self) -> ReplyView {
        match self {
            Reply::Failed(error) => ReplyView::Failed(error@),
            Reply::Done => ReplyView::Done,
            Reply::Inserted(id) => ReplyView::Inserted(*id),
            Reply::Count(count) => ReplyView::Count(*count),
            Reply::User(found) => ReplyView::User(found.deep_view()),
            Reply::Users(rows) => ReplyView::Users(rows.deep_view()),
            Reply::Role(found) => ReplyView::Role(found.deep_view()),
            Reply::Stores(rows) => ReplyView::Stores(rows.deep_view()),
            Reply::Categories(rows) => ReplyView::Categories(rows.deep_view()),
            Reply::Products(rows) => ReplyView::Products(rows.deep_view()),
        }
    }
}

impl ReplyView {
    /// The failure that this reply stands for when a reply of another kind
    /// was expected: its own text if the store failed, else the text for an
    /// unexpected reply.
    pub open spec fn failure(self) -> Seq<char> {
        match self {
            ReplyView::Failed(text) => text,
            _ => unexpected_reply_text(),
        }
    }

    /// Read as the answer to an update, a delete or a role assignment.
    pub open spec fn as_done(self) -> Result<(), Seq<char>> {
        match self {
            ReplyView::Done => Ok(()),
            _ => Err(self.failure()),
        }
    }

    /// Read as the answer to an insert: the new row's id.
    pub open spec fn as_inserted(self) -> Result<i64, Seq<char>> {
        match self {
            ReplyView::Inserted(id) => Ok(id),
            _ => Err(self.failure()),
        }
    }

    /// Read as the answer to a count.
    pub open spec fn as_count(self) -> Result<i64, Seq<char>> {
        match self {
            ReplyView::Count(count) => Ok(count),
            _ => Err(self.failure()),
        }
    }

    /// Read as the answer to a lookup of one account.
    pub open spec fn as_user(self) -> Result<Option<UserView>, Seq<char>> {
        match self {
            ReplyView::User(found) => Ok(found),
            _ => Err(self.failure()),
        }
    }

    /// Read as the answer to a listing of accounts.
    pub open spec fn as_users(self) -> Result<Seq<UserView>, Seq<char>> {
        match self {
            ReplyView::Users(rows) => Ok(rows),
            _ => Err(self.failure()),
        }
    }

    /// Read as the answer to a lookup of one role.
    pub open spec fn as_role(self) -> Result<Option<RoleView>, Seq<char>> {
        match self {
            ReplyView::Role(found) => Ok(found),
            _ => Err(self.failure()),
        }
    }

    /// Read as the answer to a listing of stores.
    pub open spec fn as_stores(self) -> Result<Seq<StoreView>, Seq<char>> {
        match self {
            ReplyView::Stores(rows) => Ok(rows),
            _ => Err(self.failure()),
        }
    }

    /// Read as the answer to a listing of categories.
    pub open spec fn as_categories(self) -> Result<Seq<CategoryView>, Seq<char>> {
        match self {
            ReplyView::Categories(rows) => Ok(rows),
            _ => Err(self.failure()),
        }
    }

    /// Read as the answer to a listing of products.
    pub open spec fn as_products(self) -> Result<Seq<ProductWithCategoryView>, Seq<char>> {
        match self {
            ReplyView::Products(rows) => Ok(rows),
            _ => Err(self.failure()),
        }
    }
}

impl Reply {
    /// The failure that this reply stands for when a reply of another kind
    /// was expected.
    fn into_failure(self) -> (error: StorageError)
        ensures
            error@ == self@.failure(),
    {
        match self {
            Reply::Failed(error) => error,
            _ => StorageError::unexpected_reply(),
        }
    }

    /// Reads the answer to an update, a delete or a role assignment.
    pub fn into_done(self) -> (read: Result<(), StorageError>)
        ensures
            result_view(read) == self@.as_done(),
    {
        match self {
            Reply::Done => Ok(()),
            other => Err(other.into_failure()),
        }
    }

    /// Reads the answer to an insert: the new row's id.
    pub fn into_inserted(self) -> (read: Result<i64, StorageError>)
        ensures
            result_view(read) == self@.as_inserted(),
    {
        match self {
            Reply::Inserted(id) => Ok(id),
            other => Err(other.into_failure()),
        }
    }

    /// Reads the answer to a count.
    pub fn into_count(self) -> (read: Result<i64, StorageError>)
        ensures
            result_view(read) == self@.as_count(),
    {
        match self {
            Reply::Count(count) => Ok(count),
            other => Err(other.into_failure()),
        }
    }

    /// Reads the answer to a lookup of one account.
    pub fn into_user(self) -> (read: Result<Option<User>, StorageError>)
        ensures
            result_view(read) == self@.as_user(),
    {
        match self {
            Reply::User(found) => Ok(found),
            other => Err(other.into_failure()),
        }
    }

    /// Reads the answer to a listing of accounts.
    pub fn into_users(self) -> (read: Result<Vec<User>, StorageError>)
        ensures
            result_view(read) == self@.as_users(),
    {
        match self {
            Reply::Users(rows) => Ok(rows),
            other => Err(other.into_failure()),
        }
    }

    /// Reads the answer to a lookup of one role.
    pub fn into_role(self) -> (read: Result<Option<Role>, StorageError>)
        ensures
            result_view(read) == self@.as_role(),
    {
        match self {
            Reply::Role(found) => Ok(found),
            other => Err(other.into_failure()),
        }
    }

    /// Reads the answer to a listing of stores.
    pub fn into_stores(self) -> (read: Result<Vec<Store>, StorageError>)
        ensures
            result_view(read) == self@.as_stores(),
    {
        match self {
            Reply::Stores(rows) => Ok(rows),
            other => Err(other.into_failure()),
        }
    }

    /// Reads the answer to a listing of categories.
    pub fn into_categories(self) -> (read: Result<Vec<Category>, StorageError>)
        ensures
            result_view(read) == self@.as_categories(),
    {
        match self {
            Reply::Categories(rows) => Ok(rows),
            other => Err(other.into_failure()),
        }
    }

    /// Reads the answer to a listing of products.
    pub fn into_products(self) -> (read: Result<Vec<ProductWithCategory>, StorageError>)
        ensures
            result_view(read) == self@.as_products(),
    {
        match self {
            Reply::Products(rows) => Ok(rows),
            other => Err(other.into_failure()),
        }
    }
}

} // verus!
