//! Management of accounts: the creation of staff accounts (an account, its
//! formal role, and the assignment of the one to the other), and the listing,
//! update and soft delete of accounts.

use vstd::prelude::*;

use crate::errors::{ServiceError, ServiceErrorView};
use crate::flow::{ChangeFlow, ChangeView, Flow, Step, StepView};
use crate::models::user::{NewUser, NewUserView, User, UserView};
use crate::password::{hash_of, hash_password, hashed_view};
use crate::repositories::user_repo::{
    opt_str_text, owned_text, user_created_view, UserRepository,
};
use crate::services::auth_service::{ListUsersFlow, ListUsersView};
use crate::storage::query::{Query, QueryView};
use crate::storage::reply::{Reply, ReplyView};

verus! {

/// The role name of a seller.
pub open spec fn seller_role() -> Seq<char> {
    "VENDEDOR"@
}

/// The role name of a manager.
pub open spec fn manager_role() -> Seq<char> {
    "GERENTE"@
}

/// Whether a staff account may be given the role: seller and manager, and
/// no other.
pub open spec fn staff_role_allowed(role_name: Seq<char>) -> bool {
    role_name == seller_role() || role_name == manager_role()
}

/// Whether a staff account may be given the role.
pub fn is_staff_role(role_name: &str) -> (allowed: bool)
    ensures
        allowed == staff_role_allowed(role_name@),
{
    let given = role_name.to_string();
    given == "VENDEDOR".to_string() || given == "GERENTE".to_string()
}

/// The label of a staff account: the one given, or the role's name.
pub open spec fn staff_label(cargo: Option<Seq<char>>, role_name: Seq<char>) -> Seq<char> {
    match cargo {
        Some(label) => label,
        None => role_name,
    }
}

/// The creation of a staff account, between two answers of the store.
#[derive(Debug)]
pub enum CreateStaffUserFlow {
    /// Asks to store the account.
    InsertUser { account: NewUser, role_name: String },
    /// Asks for the role; the account is stored.
    FindRole { user: User, role_name: String },
    /// Asks to store the role; the account is stored.
    CreateRole { user: User, role_name: String },
    /// Asks to give the account the role.
    Assign { user: User, role_id: i64 },
}

/// What a [`CreateStaffUserFlow`] stands for in contracts.
pub enum CreateStaffUserView {
    InsertUser { account: NewUserView, role_name: Seq<char> },
    FindRole { user: UserView, role_name: Seq<char> },
    CreateRole { user: UserView, role_name: Seq<char> },
    Assign { user: UserView, role_id: i64 },
}

impl View for CreateStaffUserFlow {
    type V = CreateStaffUserView;

    open spec fn view(&self) -> CreateStaffUserView {
        match self {
            CreateStaffUserFlow::InsertUser { account, role_name } => CreateStaffUserView::InsertUser {
                account: account@,
                role_name: role_name@,
            },
            CreateStaffUserFlow::FindRole { user, role_name } => CreateStaffUserView::FindRole {
                user: user@,
                role_name: role_name@,
            },
            CreateStaffUserFlow::CreateRole { user, role_name } => CreateStaffUserView::CreateRole {
                user: user@,
                role_name: role_name@,
            },
            CreateStaffUserFlow::Assign { user, role_id } => CreateStaffUserView::Assign {
                user: user@,
                role_id: *role_id,
            },
        }
    }
}

impl CreateStaffUserView {
    /// An upper bound on the exchanges that the operation still needs.
    pub open spec fn steps_left(self) -> nat {
        match self {
            CreateStaffUserView::InsertUser { .. } => 4,
            CreateStaffUserView::FindRole { .. } => 3,
            CreateStaffUserView::CreateRole { .. } => 2,
            CreateStaffUserView::Assign { .. } => 1,
        }
    }

    /// The query that the flow waits on.
    pub open spec fn pending(self) -> QueryView {
        match self {
            CreateStaffUserView::InsertUser { account, .. } => QueryView::InsertUser { user: account },
            CreateStaffUserView::FindRole { role_name, .. } => QueryView::FindRoleByName {
                role_name,
            },
            CreateStaffUserView::CreateRole { role_name, .. } => QueryView::InsertRole {
                role_name,
            },
            CreateStaffUserView::Assign { user, role_id } => QueryView::AssignRole {
                user_id: user.id,
                role_id,
            },
        }
    }

    /// The step that follows the store's reply. Any failure of the store
    /// ends the operation with that failure, whatever was stored before.
    pub open spec fn after(self, reply: ReplyView) -> StepView<CreateStaffUserView, UserView> {
        match self {
            CreateStaffUserView::InsertUser { account, role_name } => match user_created_view(
                account,
                reply.as_inserted(),
            ) {
                Ok(created) => StepView::Ask(
                    CreateStaffUserView::FindRole { user: created, role_name },
                ),
                Err(text) => StepView::Done(Err(ServiceErrorView::StorageError(text))),
            },
            CreateStaffUserView::FindRole { user, role_name } => match reply.as_role() {
                Ok(Some(role)) => StepView::Ask(
                    CreateStaffUserView::Assign { user, role_id: role.id },
                ),
                Ok(None) => StepView::Ask(CreateStaffUserView::CreateRole { user, role_name }),
                Err(text) => StepView::Done(Err(ServiceErrorView::StorageError(text))),
            },
            CreateStaffUserView::CreateRole { user, .. } => match reply.as_inserted() {
                Ok(role_id) => StepView::Ask(CreateStaffUserView::Assign { user, role_id }),
                Err(text) => StepView::Done(Err(ServiceErrorView::StorageError(text))),
            },
            CreateStaffUserView::Assign { user, .. } => match reply.as_done() {
                Ok(()) => StepView::Done(Ok(user)),
                Err(text) => StepView::Done(Err(ServiceErrorView::StorageError(text))),
            },
        }
    }
}

impl Flow for CreateStaffUserFlow {
    type Output = User;

    open spec fn steps_left(&self) -> nat {
        self@.steps_left()
    }

    open spec fn asks(&self) -> QueryView {
        self@.pending()
    }

    open spec fn allows(&self, reply: ReplyView, step: Step<CreateStaffUserFlow, User>) -> bool {
        step@ == self@.after(reply)
    }

    /// The query to send to the store.
    fn query(&self) -> (query: Query)
        ensures
            query@ == self@.pending(),
    {
        let repo = UserRepository::new();
        match self {
            CreateStaffUserFlow::InsertUser { account, .. } => Query::InsertUser {
                user: account.clone(),
            },
            CreateStaffUserFlow::FindRole { role_name, .. } => repo.find_role_by_name(
                role_name.as_str(),
            ),
            CreateStaffUserFlow::CreateRole { role_name, .. } => repo.create_role(
                role_name.as_str(),
            ),
            CreateStaffUserFlow::Assign { user, role_id } => repo.assign_role(user.id, *role_id),
        }
    }

    /// Takes the store's reply to the pending query and decides what comes
    /// next: the account is stored first, then its role is found or, where
    /// there is none of that name, stored, then the account is given the
    /// role. The three writes are separate: a failure after the first leaves
    /// the account stored without the role, and is returned.
    fn resume(self, reply: Reply) -> (step: Step<CreateStaffUserFlow, User>)
        ensures
            step@ == self@.after(reply@),
            self matches CreateStaffUserFlow::Assign { user, .. } ==> (step matches Step::Done(
                Ok(same),
            ) ==> same == user),
            step matches Step::Ask(next) ==> next@.steps_left() < self@.steps_left(),
    {
        let repo = UserRepository::new();
        match self {
            CreateStaffUserFlow::InsertUser { account, role_name } => match repo.user_created(
                account,
                reply,
            ) {
                Ok(created) => Step::Ask(CreateStaffUserFlow::FindRole { user: created, role_name }),
                Err(error) => Step::Done(Err(ServiceError::StorageError(error))),
            },
            CreateStaffUserFlow::FindRole { user, role_name } => match reply.into_role() {
                Ok(Some(role)) => Step::Ask(CreateStaffUserFlow::Assign { user, role_id: role.id }),
                Ok(None) => Step::Ask(CreateStaffUserFlow::CreateRole { user, role_name }),
                Err(error) => Step::Done(Err(ServiceError::StorageError(error))),
            },
            CreateStaffUserFlow::CreateRole { user, .. } => match reply.into_inserted() {
                Ok(role_id) => Step::Ask(CreateStaffUserFlow::Assign { user, role_id }),
                Err(error) => Step::Done(Err(ServiceError::StorageError(error))),
            },
            CreateStaffUserFlow::Assign { user, .. } => match reply.into_done() {
                Ok(()) => Step::Done(Ok(user)),
                Err(error) => Step::Done(Err(ServiceError::StorageError(error))),
            },
        }
    }
}

/// The first step of the creation of a staff account, given what hashing the
/// password gives (`None`: the hasher failed). A role other than seller and
/// manager ends the operation at once; nothing has been asked of the store.
pub open spec fn staff_user_start(
    username: Seq<char>,
    cargo: Option<Seq<char>>,
    email: Option<Seq<char>>,
    store_id: Option<i64>,
    role_name: Seq<char>,
    hashed: Option<Seq<char>>,
) -> StepView<CreateStaffUserView, UserView> {
    if !staff_role_allowed(role_name) {
        StepView::Done(Err(ServiceErrorView::InvalidRole))
    } else {
        match hashed {
            Some(hash) => StepView::Ask(
                CreateStaffUserView::InsertUser {
                    account: NewUserView {
                        username,
                        password_hash: hash,
                        cargo: Some(staff_label(cargo, role_name)),
                        email,
                        store_id,
                    },
                    role_name,
                },
            ),
            None => StepView::Done(Err(ServiceErrorView::HashingError)),
        }
    }
}

/// The step that stores a staff account with an allowed role, given what
/// hashing its password gave; a failure of the hasher ends the operation.
/// Without a label of its own the account is labelled with the role's name.
pub fn staff_user_step(
    username: &str,
    hashed: Result<String, ServiceError>,
    cargo: Option<&str>,
    email: Option<&str>,
    store_id: Option<i64>,
    role_name: &str,
) -> (step: Step<CreateStaffUserFlow, User>)
    ensures
        hashed matches Ok(hash) ==> step@ == StepView::<CreateStaffUserView, UserView>::Ask(
            CreateStaffUserView::InsertUser {
                account: NewUserView {
                    username: username@,
                    password_hash: hash@,
                    cargo: Some(staff_label(opt_str_text(cargo), role_name@)),
                    email: opt_str_text(email),
                    store_id,
                },
                role_name: role_name@,
            },
        ),
        hashed matches Err(error) ==> step@ == StepView::<CreateStaffUserView, UserView>::Done(
            Err(error@),
        ),
{
    match hashed {
        Ok(hash) => {
            let label = match cargo {
                Some(label) => label.to_string(),
                None => role_name.to_string(),
            };
            Step::Ask(
                CreateStaffUserFlow::InsertUser {
                    account: NewUser {
                        username: username.to_string(),
                        password_hash: hash,
                        cargo: Some(label),
                        email: owned_text(email),
                        store_id,
                    },
                    role_name: role_name.to_string(),
                },
            )
        },
        Err(error) => Step::Done(Err(error)),
    }
}

/// Starts the creation of a staff account. The role must be seller or
/// manager: any other name ends the operation with
/// [`ServiceError::InvalidRole`] before anything is hashed or asked of the
/// store. Whether the username is taken is not looked up.
pub fn create_staff_user(
    username: &str,
    password: &str,
    cargo: Option<&str>,
    email: Option<&str>,
    store_id: Option<i64>,
    role_name: &str,
) -> (step: Step<CreateStaffUserFlow, User>)
    ensures
        exists|hashed: Option<Seq<char>>|
            hash_of(password@, hashed) && step@ == #[trigger] staff_user_start(
                username@,
                opt_str_text(cargo),
                opt_str_text(email),
                store_id,
                role_name@,
                hashed,
            ),
        !staff_role_allowed(role_name@) ==> step@ == StepView::<
            CreateStaffUserView,
            UserView,
        >::Done(Err(ServiceErrorView::InvalidRole)),
{
    if !is_staff_role(role_name) {
        let step = Step::Done(Err(ServiceError::InvalidRole));
        assert(step@ == staff_user_start(
            username@,
            opt_str_text(cargo),
            opt_str_text(email),
            store_id,
            role_name@,
            None,
        ));
        return step;
    }
    let hashed = hash_password(password);
    let ghost outcome = hashed_view(hashed);
    let step = staff_user_step(username, hashed, cargo, email, store_id, role_name);
    assert(step@ == staff_user_start(
        username@,
        opt_str_text(cargo),
        opt_str_text(email),
        store_id,
        role_name@,
        outcome,
    ));
    step
}

/// Starts a listing of the active accounts.
pub fn get_all_users() -> (step: Step<ListUsersFlow, Vec<User>>)
    ensures
        step@ == StepView::<ListUsersView, Seq<UserView>>::Ask(
            ListUsersView { query: QueryView::FindAllUsers },
        ),
{
    Step::Ask(ListUsersFlow { query: UserRepository::new().find_all_users() })
}

/// Starts the overwrite of the label, e-mail address and store of an account,
/// each with what is given, `None` included. Whether the store exists is not
/// looked up; an id that no account has changes nothing and is no error.
pub fn update_user(id: i64, cargo: Option<&str>, email: Option<&str>, store_id: Option<i64>) -> (step:
    Step<ChangeFlow, ()>)
    ensures
        step@ == StepView::<ChangeView, ()>::Ask(
            ChangeView {
                query: QueryView::UpdateUser {
                    id,
                    cargo: opt_str_text(cargo),
                    email: opt_str_text(email),
                    store_id,
                },
            },
        ),
{
    Step::Ask(ChangeFlow { query: UserRepository::new().update_user(id, cargo, email, store_id) })
}

/// Starts the soft delete of an account: it is marked inactive, and its row
/// stays.
pub fn delete_user(id: i64) -> (step: Step<ChangeFlow, ()>)
    ensures
        step@ == StepView::<ChangeView, ()>::Ask(
            ChangeView { query: QueryView::SoftDeleteUser { id } },
        ),
{
    Step::Ask(ChangeFlow { query: UserRepository::new().soft_delete_user(id) })
}

/// Starts a listing of the active accounts assigned to a store.
pub fn get_users_by_store(store_id: i64) -> (step: Step<ListUsersFlow, Vec<User>>)
    ensures
        step@ == StepView::<ListUsersView, Seq<UserView>>::Ask(
            ListUsersView { query: QueryView::FindUsersByStore { store_id } },
        ),
{
    Step::Ask(ListUsersFlow { query: UserRepository::new().get_users_by_store(store_id) })
}

} // verus!
