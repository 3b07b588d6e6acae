use vstd::prelude::*;

verus! {

/// `chrono::NaiveDateTime`: the time at which the store created a row.
/// The library carries it and never looks inside.
#[verifier::external_type_specification]
#[verifier::external_body]
pub struct ExNaiveDateTime(chrono::NaiveDateTime);

/// The characters of an optional text, or `None`.
pub open spec fn opt_text(value: Option<String>) -> Option<Seq<char>> {
    match value {
        Some(text) => Some(text@),
        None => None,
    }
}

/// An operator account.
#[derive(Debug, PartialEq)]
pub struct User {
    pub id: i64,
    pub username: String,
    pub password_hash: String,
    pub cargo: Option<String>,
    pub email: Option<String>,
    pub store_id: Option<i64>,
    pub is_active: bool,
    pub created_at: Option<chrono::NaiveDateTime>,
}

/// What a [`User`] stands for in contracts.
pub struct UserView {
    pub id: i64,
    pub username: Seq<char>,
    pub password_hash: Seq<char>,
    pub cargo: Option<Seq<char>>,
    pub email: Option<Seq<char>>,
    pub store_id: Option<i64>,
    pub is_active: bool,
    pub created_at: Option<chrono::NaiveDateTime>,
}

impl View for User {
    type V = UserView;

    open spec fn view(&self) -> UserView {
        UserView {
            id: self.id,
            username: self.username@,
            password_hash: self.password_hash@,
            cargo: opt_text(self.cargo),
            email: opt_text(self.email),
            store_id: self.store_id,
            is_active: self.is_active,
            created_at: self.created_at,
        }
    }
}

impl DeepView for User {
    type V = UserView;

    open spec fn deep_view(&self) -> UserView {
        self@
    }
}

impl Clone for User {
    fn clone(&self) -> (copy: Self)
        ensures
            copy == *self,
    {
        User {
            id: self.id,
            username: self.username.clone(),
            password_hash: self.password_hash.clone(),
            cargo: self.cargo.clone(),
            email: self.email.clone(),
            store_id: self.store_id,
            is_active: self.is_active,
            created_at: self.created_at,
        }
    }
}

/// A formal role. Roles are found or created by name and never deleted.
#[derive(Debug, PartialEq)]
pub struct Role {
    pub id: i64,
    pub role_name: String,
}

/// What a [`Role`] stands for in contracts.
pub struct RoleView {
    pub id: i64,
    pub role_name: Seq<char>,
}

impl View for Role {
    type V = RoleView;

    open spec fn view(&self) -> RoleView {
        RoleView { id: self.id, role_name: self.role_name@ }
    }
}

impl DeepView for Role {
    type V = RoleView;

    open spec fn deep_view(&self) -> RoleView {
        self@
    }
}

impl Clone for Role {
    fn clone(&self) -> (copy: Self)
        ensures
            copy == *self,
    {
        Role { id: self.id, role_name: self.role_name.clone() }
    }
}

/// An account together with the names of the roles it holds.
#[derive(Debug, PartialEq)]
pub struct UserWithRoles {
    pub user: User,
    pub roles: Vec<String>,
}

/// The fields of an account that is about to be stored: all that the caller
/// chooses. The store adds the id and the creation time.
#[derive(Debug, PartialEq)]
pub struct NewUser {
    pub username: String,
    pub password_hash: String,
    pub cargo: Option<String>,
    pub email: Option<String>,
    pub store_id: Option<i64>,
}

/// What a [`NewUser`] stands for in contracts.
pub struct NewUserView {
    pub username: Seq<char>,
    pub password_hash: Seq<char>,
    pub cargo: Option<Seq<char>>,
    pub email: Option<Seq<char>>,
    pub store_id: Option<i64>,
}

impl NewUserView {
    /// The record that the caller holds once the store has answered with `id`:
    /// active, and with no creation time, which only the store knows.
    pub open spec fn stored(self, id: i64) -> UserView {
        UserView {
            id,
            username: self.username,
            password_hash: self.password_hash,
            cargo: self.cargo,
            email: self.email,
            store_id: self.store_id,
            is_active: true,
            created_at: None,
        }
    }
}

impl View for NewUser {
    type V = NewUserView;

    open spec fn view(&self) -> NewUserView {
        NewUserView {
            username: self.username@,
            password_hash: self.password_hash@,
            cargo: opt_text(self.cargo),
            email: opt_text(self.email),
            store_id: self.store_id,
        }
    }
}

impl Clone for NewUser {
    fn clone(&self) -> (copy: Self)
        ensures
            copy == *self,
    {
        NewUser {
            username: self.username.clone(),
            password_hash: self.password_hash.clone(),
            cargo: self.cargo.clone(),
            email: self.email.clone(),
            store_id: self.store_id,
        }
    }
}

impl NewUser {
    /// The created record, given the id that the store assigned.
    pub fn stored(self, id: i64) -> (user: User)
        ensures
            user@ == self@.stored(id),
    {
        User {
            id,
            username: self.username,
            password_hash: self.password_hash,
            cargo: self.cargo,
            email: self.email,
            store_id: self.store_id,
            is_active: true,
            created_at: None,
        }
    }
}

} // verus!
