use vstd::prelude::*;

use crate::errors::{result_view, StorageError};
use crate::models::user::{NewUser, NewUserView, Role, RoleView, User, UserView};
use crate::storage::query::{Query, QueryView};
use crate::storage::reply::Reply;

verus! {

/// The characters of an optional borrowed text, or `None`.
pub open spec fn opt_str_text(value: Option<&str>) -> Option<Seq<char>> {
    match value {
        Some(text) => Some(text@),
        None => None,
    }
}

/// An owned copy of an optional borrowed text.
pub fn owned_text(value: Option<&str>) -> (owned: Option<String>)
    ensures
        crate::models::user::opt_text(owned) == opt_str_text(value),
{
    match value {
        Some(text) => Some(text.to_string()),
        None => None,
    }
}

/// What the caller holds after an insert of an account: the record built from
/// the fields it sent and the id in the store's answer, or the store's
/// failure.
pub open spec fn user_created_view(user: NewUserView, inserted: Result<i64, Seq<char>>) -> Result<
    UserView,
    Seq<char>,
> {
    match inserted {
        Ok(id) => Ok(user.stored(id)),
        Err(text) => Err(text),
    }
}

/// What the caller holds after an insert of a role.
pub open spec fn role_created_view(role_name: Seq<char>, inserted: Result<i64, Seq<char>>) -> Result<
    RoleView,
    Seq<char>,
> {
    match inserted {
        Ok(id) => Ok(RoleView { id, role_name }),
        Err(text) => Err(text),
    }
}

/// Accounts, roles and the assignment of roles to accounts.
#[derive(Debug, Clone, Copy)]
pub struct UserRepository {}

impl UserRepository {
    /// The repository. It holds nothing: the store is the host's.
    pub fn new() -> Self {
        UserRepository {  }
    }

    /// The account with this username, whether active or not.
    pub fn find_by_username(&self, username: &str) -> (query: Query)
        ensures
            query@ == (QueryView::FindUserByUsername { username: username@ }),
    {
        Query::FindUserByUsername { username: username.to_string() }
    }

    /// A new account with these fields. The store makes it active and gives
    /// it an id.
    pub fn create_user(
        &self,
        username: &str,
        password_hash: &str,
        cargo: Option<&str>,
        email: Option<&str>,
        store_id: Option<i64>,
    ) -> (query: Query)
        ensures
            query@ == (QueryView::InsertUser {
                user: NewUserView {
                    username: username@,
                    password_hash: password_hash@,
                    cargo: opt_str_text(cargo),
                    email: opt_str_text(email),
                    store_id,
                },
            }),
    {
        Query::InsertUser {
            user: NewUser {
                username: username.to_string(),
                password_hash: password_hash.to_string(),
                cargo: owned_text(cargo),
                email: owned_text(email),
                store_id,
            },
        }
    }

    /// The created account, from the fields that were sent and the store's
    /// answer to the insert: active, under the id that the store assigned,
    /// and with no creation time.
    pub fn user_created(&self, user: NewUser, reply: Reply) -> (created: Result<User, StorageError>)
        ensures
            result_view(created) == user_created_view(user@, reply@.as_inserted()),
    {
        match reply.into_inserted() {
            Ok(id) => Ok(user.stored(id)),
            Err(error) => Err(error),
        }
    }

    /// The number of accounts, active or not.
    pub fn count_users(&self) -> (query: Query)
        ensures
            query@ == QueryView::CountUsers,
    {
        Query::CountUsers
    }

    /// The active accounts.
    pub fn find_all_users(&self) -> (query: Query)
        ensures
            query@ == QueryView::FindAllUsers,
    {
        Query::FindAllUsers
    }

    /// The role with this name.
    pub fn find_role_by_name(&self, role_name: &str) -> (query: Query)
        ensures
            query@ == (QueryView::FindRoleByName { role_name: role_name@ }),
    {
        Query::FindRoleByName { role_name: role_name.to_string() }
    }

    /// A new role with this name.
    pub fn create_role(&self, role_name: &str) -> (query: Query)
        ensures
            query@ == (QueryView::InsertRole { role_name: role_name@ }),
    {
        Query::InsertRole { role_name: role_name.to_string() }
    }

    /// The created role, from its name and the store's answer to the insert.
    pub fn role_created(&self, role_name: &str, reply: Reply) -> (created: Result<
        Role,
        StorageError,
    >)
        ensures
            result_view(created) == role_created_view(role_name@, reply@.as_inserted()),
    {
        match reply.into_inserted() {
            Ok(id) => Ok(Role { id, role_name: role_name.to_string() }),
            Err(error) => Err(error),
        }
    }

    /// The account is given the role. Asking again for the same pair changes
    /// nothing and is no error.
    pub fn assign_role(&self, user_id: i64, role_id: i64) -> (query: Query)
        ensures
            query@ == (QueryView::AssignRole { user_id, role_id }),
    {
        Query::AssignRole { user_id, role_id }
    }

    /// The account with this id, whether active or not.
    pub fn find_user_by_id(&self, id: i64) -> (query: Query)
        ensures
            query@ == (QueryView::FindUserById { id }),
    {
        Query::FindUserById { id }
    }

    /// The label, e-mail address and store of the account are overwritten,
    /// each with what is given, `None` included. An id that no account has
    /// changes nothing and is no error.
    pub fn update_user(
        &self,
        id: i64,
        cargo: Option<&str>,
        email: Option<&str>,
        store_id: Option<i64>,
    ) -> (query: Query)
        ensures
            query@ == (QueryView::UpdateUser {
                id,
                cargo: opt_str_text(cargo),
                email: opt_str_text(email),
                store_id,
            }),
    {
        Query::UpdateUser { id, cargo: owned_text(cargo), email: owned_text(email), store_id }
    }

    /// The account is marked inactive. Its row stays.
    pub fn soft_delete_user(&self, id: i64) -> (query: Query)
        ensures
            query@ == (QueryView::SoftDeleteUser { id }),
    {
        Query::SoftDeleteUser { id }
    }

    /// The active accounts assigned to the store.
    pub fn get_users_by_store(&self, store_id: i64) -> (query: Query)
        ensures
            query@ == (QueryView::FindUsersByStore { store_id }),
    {
        Query::FindUsersByStore { store_id }
    }
}

} // verus!
