//! Bootstrap of the first administrator, login, account creation and the
//! re-verification of the administrator's password.

use vstd::prelude::*;

use crate::errors::{pass_through, result_view, ServiceError, ServiceErrorView};
use crate::flow::{done_with, Flow, Step, StepView};
use crate::models::user::{NewUser, NewUserView, User, UserView};
use crate::password::{
    bcrypt_verify_outcome, hash_of, hash_password, hashed_view, verification_view, verify_password,
};
use crate::repositories::store_repo::StoreRepository;
use crate::repositories::user_repo::{
    opt_str_text, owned_text, user_created_view, UserRepository,
};
use crate::storage::query::{Query, QueryView};
use crate::storage::reply::{Reply, ReplyView};

verus! {

/// The name of the role that the first administrator is given.
pub open spec fn admin_role_name() -> Seq<char> {
    "ADMIN"@
}

/// The username of the first administrator, and of the account whose
/// password gates sensitive actions.
pub open spec fn admin_username() -> Seq<char> {
    "admin"@
}

/// The password that the first administrator starts with.
pub open spec fn initial_admin_password() -> Seq<char> {
    "root"@
}

/// The account that the bootstrap stores, given the hash of its password.
pub open spec fn admin_account(password_hash: Seq<char>) -> NewUserView {
    NewUserView {
        username: admin_username(),
        password_hash,
        cargo: None,
        email: None,
        store_id: None,
    }
}

// ---------------------------------------------------------------------------
// Bootstrap
// ---------------------------------------------------------------------------

/// The bootstrap of the administrative baseline, between two answers of the
/// store.
#[derive(Debug)]
pub enum InitializeAdminFlow {
    /// Asks how many accounts there are.
    Count,
    /// Asks for the administrator role; `count` accounts exist.
    FindRole { count: i64 },
    /// Asks to store the administrator role; `count` accounts exist.
    CreateRole { count: i64 },
    /// Asks to store the first administrator, who will get role `role_id`.
    CreateUser { role_id: i64, user: NewUser },
    /// Asks to give the new administrator the role.
    Assign { user_id: i64, role_id: i64 },
}

/// What an [`InitializeAdminFlow`] stands for in contracts.
pub enum InitializeAdminView {
    Count,
    FindRole { count: i64 },
    CreateRole { count: i64 },
    CreateUser { role_id: i64, user: NewUserView },
    Assign { user_id: i64, role_id: i64 },
}

impl View for InitializeAdminFlow {
    type V = InitializeAdminView;

    open spec fn view(&self) -> InitializeAdminView {
        match self {
            InitializeAdminFlow::Count => InitializeAdminView::Count,
            InitializeAdminFlow::FindRole { count } => InitializeAdminView::FindRole {
                count: *count,
            },
            InitializeAdminFlow::CreateRole { count } => InitializeAdminView::CreateRole {
                count: *count,
            },
            InitializeAdminFlow::CreateUser { role_id, user } => InitializeAdminView::CreateUser {
                role_id: *role_id,
                user: user@,
            },
            InitializeAdminFlow::Assign { user_id, role_id } => InitializeAdminView::Assign {
                user_id: *user_id,
                role_id: *role_id,
            },
        }
    }
}

impl InitializeAdminView {
    /// An upper bound on the exchanges that the bootstrap still needs.
    pub open spec fn steps_left(self) -> nat {
        match self {
            InitializeAdminView::Count => 5,
            InitializeAdminView::FindRole { .. } => 4,
            InitializeAdminView::CreateRole { .. } => 3,
            InitializeAdminView::CreateUser { .. } => 2,
            InitializeAdminView::Assign { .. } => 1,
        }
    }

    /// The query that the flow waits on.
    pub open spec fn pending(self) -> QueryView {
        match self {
            InitializeAdminView::Count => QueryView::CountUsers,
            InitializeAdminView::FindRole { .. } => QueryView::FindRoleByName {
                role_name: admin_role_name(),
            },
            InitializeAdminView::CreateRole { .. } => QueryView::InsertRole {
                role_name: admin_role_name(),
            },
            InitializeAdminView::CreateUser { user, .. } => QueryView::InsertUser { user },
            InitializeAdminView::Assign { user_id, role_id } => QueryView::AssignRole {
                user_id,
                role_id,
            },
        }
    }

    /// What follows once the administrator role is known to exist under
    /// `role_id`. With no account at all, the first administrator is stored
    /// next, with `hashed` as the hash of the initial password (`None`: the
    /// hasher failed). With any account present, nothing more is done.
    pub open spec fn with_role(count: i64, role_id: i64, hashed: Option<Seq<char>>) -> StepView<
        InitializeAdminView,
        (),
    > {
        if count == 0 {
            match hashed {
                Some(hash) => StepView::Ask(
                    InitializeAdminView::CreateUser { role_id, user: admin_account(hash) },
                ),
                None => StepView::Done(Err(ServiceErrorView::HashingError)),
            }
        } else {
            StepView::Done(Ok(()))
        }
    }

    /// The step that follows the store's reply. `hashed` is what hashing the
    /// initial password gives where this step hashes it.
    pub open spec fn after(self, reply: ReplyView, hashed: Option<Seq<char>>) -> StepView<
        InitializeAdminView,
        (),
    > {
        match self {
            InitializeAdminView::Count => match reply.as_count() {
                Ok(count) => StepView::Ask(InitializeAdminView::FindRole { count }),
                Err(text) => StepView::Done(Err(ServiceErrorView::StorageError(text))),
            },
            InitializeAdminView::FindRole { count } => match reply.as_role() {
                Ok(Some(role)) => Self::with_role(count, role.id, hashed),
                Ok(None) => StepView::Ask(InitializeAdminView::CreateRole { count }),
                Err(text) => StepView::Done(Err(ServiceErrorView::StorageError(text))),
            },
            InitializeAdminView::CreateRole { count } => match reply.as_inserted() {
                Ok(role_id) => Self::with_role(count, role_id, hashed),
                Err(text) => StepView::Done(Err(ServiceErrorView::StorageError(text))),
            },
            InitializeAdminView::CreateUser { role_id, .. } => match reply.as_inserted() {
                Ok(user_id) => StepView::Ask(InitializeAdminView::Assign { user_id, role_id }),
                Err(text) => StepView::Done(Err(ServiceErrorView::StorageError(text))),
            },
            InitializeAdminView::Assign { .. } => done_with(reply.as_done()),
        }
    }
}

impl InitializeAdminFlow {
    /// The step that stores the first administrator under role `role_id`,
    /// given what hashing the initial password gave; a failure of the hasher
    /// ends the bootstrap.
    pub fn first_account(role_id: i64, hashed: Result<String, ServiceError>) -> (step: Step<
        InitializeAdminFlow,
        (),
    >)
        ensures
            hashed matches Ok(hash) ==> step@ == StepView::<InitializeAdminView, ()>::Ask(
                InitializeAdminView::CreateUser { role_id, user: admin_account(hash@) },
            ),
            hashed matches Err(error) ==> step@ == StepView::<InitializeAdminView, ()>::Done(
                Err(error@),
            ),
    {
        match hashed {
            Ok(hash) => Step::Ask(
                InitializeAdminFlow::CreateUser {
                    role_id,
                    user: NewUser {
                        username: "admin".to_string(),
                        password_hash: hash,
                        cargo: None,
                        email: None,
                        store_id: None,
                    },
                },
            ),
            Err(error) => Step::Done(Err(error)),
        }
    }

    /// What follows once the administrator role exists under `role_id`: with
    /// no account at all the initial password is hashed and the first
    /// administrator stored; otherwise the bootstrap is done.
    fn with_role(count: i64, role_id: i64) -> (step: Step<InitializeAdminFlow, ()>)
        ensures
            exists|hashed: Option<Seq<char>>|
                hash_of(initial_admin_password(), hashed) && step@
                    == #[trigger] InitializeAdminView::with_role(count, role_id, hashed),
    {
        if count == 0 {
            let hashed = hash_password("root");
            let ghost outcome = hashed_view(hashed);
            let step = Self::first_account(role_id, hashed);
            assert(step@ == InitializeAdminView::with_role(count, role_id, outcome));
            step
        } else {
            let step = Step::Done(Ok(()));
            assert(step@ == InitializeAdminView::with_role(count, role_id, None));
            step
        }
    }
}

impl Flow for InitializeAdminFlow {
    type Output = ();

    open spec fn steps_left(&self) -> nat {
        self@.steps_left()
    }

    open spec fn asks(&self) -> QueryView {
        self@.pending()
    }

    open spec fn allows(&self, reply: ReplyView, step: Step<InitializeAdminFlow, ()>) -> bool {
        exists|hashed: Option<Seq<char>>|
            hash_of(initial_admin_password(), hashed) && step@ == #[trigger] self@.after(
                reply,
                hashed,
            )
    }

    /// The query to send to the store.
    fn query(&self) -> (query: Query)
        ensures
            query@ == self@.pending(),
    {
        let repo = UserRepository::new();
        match self {
            InitializeAdminFlow::Count => repo.count_users(),
            InitializeAdminFlow::FindRole { .. } => repo.find_role_by_name("ADMIN"),
            InitializeAdminFlow::CreateRole { .. } => repo.create_role("ADMIN"),
            InitializeAdminFlow::CreateUser { user, .. } => Query::InsertUser { user: user.clone() },
            InitializeAdminFlow::Assign { user_id, role_id } => repo.assign_role(
                *user_id,
                *role_id,
            ),
        }
    }

    /// Takes the store's reply to the pending query and decides what comes
    /// next. Any failure of the store ends the bootstrap with that failure.
    /// The initial password is hashed here, once the role is known, and only
    /// where the store has counted no account.
    fn resume(self, reply: Reply) -> (step: Step<InitializeAdminFlow, ()>)
        ensures
            exists|hashed: Option<Seq<char>>|
                hash_of(initial_admin_password(), hashed) && step@ == #[trigger] self@.after(
                    reply@,
                    hashed,
                ),
            step matches Step::Ask(next) ==> next@.steps_left() < self@.steps_left(),
    {
        let ghost before = self@;
        let ghost answer = reply@;
        match self {
            InitializeAdminFlow::Count => {
                let step = match reply.into_count() {
                    Ok(count) => Step::Ask(InitializeAdminFlow::FindRole { count }),
                    Err(error) => Step::Done(Err(ServiceError::StorageError(error))),
                };
                assert(step@ == before.after(answer, None));
                step
            },
            InitializeAdminFlow::FindRole { count } => match reply.into_role() {
                Ok(Some(role)) => {
                    let step = Self::with_role(count, role.id);
                    let ghost hashed = choose|hashed: Option<Seq<char>>|
                        hash_of(initial_admin_password(), hashed) && step@
                            == #[trigger] InitializeAdminView::with_role(count, role.id, hashed);
                    assert(step@ == before.after(answer, hashed));
                    step
                },
                Ok(None) => {
                    let step = Step::Ask(InitializeAdminFlow::CreateRole { count });
                    assert(step@ == before.after(answer, None));
                    step
                },
                Err(error) => {
                    let step = Step::Done(Err(ServiceError::StorageError(error)));
                    assert(step@ == before.after(answer, None));
                    step
                },
            },
            InitializeAdminFlow::CreateRole { count } => match reply.into_inserted() {
                Ok(role_id) => {
                    let step = Self::with_role(count, role_id);
                    let ghost hashed = choose|hashed: Option<Seq<char>>|
                        hash_of(initial_admin_password(), hashed) && step@
                            == #[trigger] InitializeAdminView::with_role(count, role_id, hashed);
                    assert(step@ == before.after(answer, hashed));
                    step
                },
                Err(error) => {
                    let step = Step::Done(Err(ServiceError::StorageError(error)));
                    assert(step@ == before.after(answer, None));
                    step
                },
            },
            InitializeAdminFlow::CreateUser { role_id, user } => {
                let step = match reply.into_inserted() {
                    Ok(user_id) => Step::Ask(InitializeAdminFlow::Assign { user_id, role_id }),
                    Err(error) => Step::Done(Err(ServiceError::StorageError(error))),
                };
                assert(step@ == before.after(answer, None));
                step
            },
            InitializeAdminFlow::Assign { .. } => {
                let step = Step::Done(pass_through(reply.into_done()));
                assert(step@ == before.after(answer, None));
                step
            },
        }
    }
}

// ---------------------------------------------------------------------------
// Login
// ---------------------------------------------------------------------------

/// What a login returns for the account that was found, for each outcome of
/// the verification of the password against its hash.
pub open spec fn judged(user: UserView, verified: Result<bool, ServiceErrorView>) -> Result<
    UserView,
    ServiceErrorView,
> {
    match verified {
        Ok(true) => Ok(user),
        Ok(false) => Err(ServiceErrorView::InvalidCredentials),
        Err(error) => Err(error),
    }
}

/// What a login with `password` returns for the store's reply to the lookup
/// of the username.
pub open spec fn login_outcome(password: Seq<char>, reply: ReplyView) -> Result<
    UserView,
    ServiceErrorView,
> {
    match reply.as_user() {
        Ok(Some(user)) => judged(
            user,
            verification_view(bcrypt_verify_outcome(password, user.password_hash)),
        ),
        Ok(None) => Err(ServiceErrorView::NotFound),
        Err(text) => Err(ServiceErrorView::StorageError(text)),
    }
}

/// A login that waits for the lookup of the username.
#[derive(Debug)]
pub struct LoginFlow {
    pub username: String,
    pub password: String,
}

/// What a [`LoginFlow`] stands for in contracts.
pub struct LoginView {
    pub username: Seq<char>,
    pub password: Seq<char>,
}

impl View for LoginFlow {
    type V = LoginView;

    open spec fn view(&self) -> LoginView {
        LoginView { username: self.username@, password: self.password@ }
    }
}

impl LoginView {
    /// An upper bound on the exchanges that the operation still needs.
    pub open spec fn steps_left(self) -> nat {
        1
    }

    /// The query that the flow waits on.
    pub open spec fn pending(self) -> QueryView {
        QueryView::FindUserByUsername { username: self.username }
    }

    /// The step that follows the store's reply: the login is done.
    pub open spec fn after(self, reply: ReplyView) -> StepView<LoginView, UserView> {
        StepView::Done(login_outcome(self.password, reply))
    }
}

impl LoginFlow {
    /// What the login returns for the account found, given the outcome of
    /// the verification of the password: the account itself where the
    /// password matches.
    pub fn judge(user: User, verified: Result<bool, ServiceError>) -> (result: Result<
        User,
        ServiceError,
    >)
        ensures
            result_view(result) == judged(user@, result_view(verified)),
            result matches Ok(same) ==> same == user,
    {
        match verified {
            Ok(true) => Ok(user),
            Ok(false) => Err(ServiceError::InvalidCredentials),
            Err(error) => Err(error),
        }
    }
}

impl Flow for LoginFlow {
    type Output = User;

    open spec fn steps_left(&self) -> nat {
        self@.steps_left()
    }

    open spec fn asks(&self) -> QueryView {
        self@.pending()
    }

    open spec fn allows(&self, reply: ReplyView, step: Step<LoginFlow, User>) -> bool {
        step@ == self@.after(reply)
    }

    /// The query to send to the store.
    fn query(&self) -> (query: Query)
        ensures
            query@ == self@.pending(),
    {
        UserRepository::new().find_by_username(self.username.as_str())
    }

    /// Takes the store's reply to the lookup and ends the login. An account
    /// may log in whether it is active or not.
    fn resume(self, reply: Reply) -> (step: Step<LoginFlow, User>)
        ensures
            step@ == self@.after(reply@),
    {
        match reply.into_user() {
            Ok(Some(user)) => {
                let verified = verify_password(self.password.as_str(), user.password_hash.as_str());
                Step::Done(Self::judge(user, verified))
            },
            Ok(None) => Step::Done(Err(ServiceError::NotFound)),
            Err(error) => Step::Done(Err(ServiceError::StorageError(error))),
        }
    }
}

// ---------------------------------------------------------------------------
// Account creation
// ---------------------------------------------------------------------------

/// The account that `create_user` stores, given the hash of its password: no
/// label and no store.
pub open spec fn plain_account(
    username: Seq<char>,
    password_hash: Seq<char>,
    email: Option<Seq<char>>,
) -> NewUserView {
    NewUserView { username, password_hash, cargo: None, email, store_id: None }
}

/// The creation of an account, between two answers of the store.
#[derive(Debug)]
pub enum CreateUserFlow {
    /// Asks whether the username is taken.
    Lookup { username: String, password: String, email: Option<String> },
    /// Asks to store the account.
    Insert { user: NewUser },
}

/// What a [`CreateUserFlow`] stands for in contracts.
pub enum CreateUserView {
    Lookup { username: Seq<char>, password: Seq<char>, email: Option<Seq<char>> },
    Insert { user: NewUserView },
}

impl View for CreateUserFlow {
    type V = CreateUserView;

    open spec fn view(&self) -> CreateUserView {
        match self {
            CreateUserFlow::Lookup { username, password, email } => CreateUserView::Lookup {
                username: username@,
                password: password@,
                email: crate::models::user::opt_text(*email),
            },
            CreateUserFlow::Insert { user } => CreateUserView::Insert { user: user@ },
        }
    }
}

impl CreateUserView {
    /// An upper bound on the exchanges that the operation still needs.
    pub open spec fn steps_left(self) -> nat {
        match self {
            CreateUserView::Lookup { .. } => 2,
            CreateUserView::Insert { .. } => 1,
        }
    }

    /// The query that the flow waits on.
    pub open spec fn pending(self) -> QueryView {
        match self {
            CreateUserView::Lookup { username, .. } => QueryView::FindUserByUsername { username },
            CreateUserView::Insert { user } => QueryView::InsertUser { user },
        }
    }

    /// The password that this step hashes, if it is one that may hash.
    pub open spec fn password(self) -> Seq<char> {
        match self {
            CreateUserView::Lookup { password, .. } => password,
            CreateUserView::Insert { user } => user.password_hash,
        }
    }

    /// The step that follows once the username is known to be free, given
    /// what hashing the password gave (`None`: the hasher failed).
    pub open spec fn with_hash(
        username: Seq<char>,
        email: Option<Seq<char>>,
        hashed: Option<Seq<char>>,
    ) -> StepView<CreateUserView, UserView> {
        match hashed {
            Some(hash) => StepView::Ask(
                CreateUserView::Insert { user: plain_account(username, hash, email) },
            ),
            None => StepView::Done(Err(ServiceErrorView::HashingError)),
        }
    }

    /// The step that follows the store's reply. `hashed` is what hashing the
    /// password gives where this step hashes it.
    pub open spec fn after(self, reply: ReplyView, hashed: Option<Seq<char>>) -> StepView<
        CreateUserView,
        UserView,
    > {
        match self {
            CreateUserView::Lookup { username, email, .. } => match reply.as_user() {
                Ok(Some(_)) => StepView::Done(Err(ServiceErrorView::DuplicateUsername)),
                Ok(None) => Self::with_hash(username, email, hashed),
                Err(text) => StepView::Done(Err(ServiceErrorView::StorageError(text))),
            },
            CreateUserView::Insert { user } => done_with(
                user_created_view(user, reply.as_inserted()),
            ),
        }
    }
}

impl CreateUserFlow {
    /// The step that stores the account, given what hashing its password
    /// gave; a failure of the hasher ends the operation.
    pub fn insert_step(username: String, email: Option<String>, hashed: Result<
        String,
        ServiceError,
    >) -> (step: Step<CreateUserFlow, User>)
        ensures
            hashed matches Ok(hash) ==> step@ == StepView::<CreateUserView, UserView>::Ask(
                CreateUserView::Insert {
                    user: plain_account(username@, hash@, crate::models::user::opt_text(email)),
                },
            ),
            hashed matches Err(error) ==> step@ == StepView::<CreateUserView, UserView>::Done(
                Err(error@),
            ),
    {
        match hashed {
            Ok(hash) => Step::Ask(
                CreateUserFlow::Insert {
                    user: NewUser {
                        username,
                        password_hash: hash,
                        cargo: None,
                        email,
                        store_id: None,
                    },
                },
            ),
            Err(error) => Step::Done(Err(error)),
        }
    }
}

impl Flow for CreateUserFlow {
    type Output = User;

    open spec fn steps_left(&self) -> nat {
        self@.steps_left()
    }

    open spec fn asks(&self) -> QueryView {
        self@.pending()
    }

    open spec fn allows(&self, reply: ReplyView, step: Step<CreateUserFlow, User>) -> bool {
        exists|hashed: Option<Seq<char>>|
            hash_of(self@.password(), hashed) && step@ == #[trigger] self@.after(reply, hashed)
    }

    /// The query to send to the store.
    fn query(&self) -> (query: Query)
        ensures
            query@ == self@.pending(),
    {
        match self {
            CreateUserFlow::Lookup { username, .. } => UserRepository::new().find_by_username(
                username.as_str(),
            ),
            CreateUserFlow::Insert { user } => Query::InsertUser { user: user.clone() },
        }
    }

    /// Takes the store's reply to the pending query and decides what comes
    /// next. A username that any account has, active or not, ends the
    /// operation with [`ServiceError::DuplicateUsername`]; the password is
    /// hashed only once the username is known to be free.
    fn resume(self, reply: Reply) -> (step: Step<CreateUserFlow, User>)
        ensures
            exists|hashed: Option<Seq<char>>|
                hash_of(self@.password(), hashed) && step@ == #[trigger] self@.after(
                    reply@,
                    hashed,
                ),
            step matches Step::Ask(next) ==> next@.steps_left() < self@.steps_left(),
    {
        let ghost before = self@;
        let ghost answer = reply@;
        match self {
            CreateUserFlow::Lookup { username, password, email } => match reply.into_user() {
                Ok(Some(_)) => {
                    let step = Step::Done(Err(ServiceError::DuplicateUsername));
                    assert(step@ == before.after(answer, None));
                    step
                },
                Ok(None) => {
                    let hashed = hash_password(password.as_str());
                    let ghost outcome = hashed_view(hashed);
                    let step = Self::insert_step(username, email, hashed);
                    assert(step@ == before.after(answer, outcome));
                    step
                },
                Err(error) => {
                    let step = Step::Done(Err(ServiceError::StorageError(error)));
                    assert(step@ == before.after(answer, None));
                    step
                },
            },
            CreateUserFlow::Insert { user } => {
                let step = Step::Done(
                    pass_through(UserRepository::new().user_created(user, reply)),
                );
                assert(step@ == before.after(answer, None));
                step
            },
        }
    }
}

// ---------------------------------------------------------------------------
// Re-verification of the administrator's password
// ---------------------------------------------------------------------------

/// What the re-verification of `password` returns for the store's reply to
/// the lookup of the administrator.
pub open spec fn admin_check_outcome(password: Seq<char>, reply: ReplyView) -> Result<
    bool,
    ServiceErrorView,
> {
    match reply.as_user() {
        Ok(Some(user)) => verification_view(bcrypt_verify_outcome(password, user.password_hash)),
        Ok(None) => Err(ServiceErrorView::NotFound),
        Err(text) => Err(ServiceErrorView::StorageError(text)),
    }
}

/// A re-verification that waits for the lookup of the administrator.
#[derive(Debug)]
pub struct VerifyAdminPasswordFlow {
    pub password: String,
}

/// What a [`VerifyAdminPasswordFlow`] stands for in contracts.
pub struct VerifyAdminPasswordView {
    pub password: Seq<char>,
}

impl View for VerifyAdminPasswordFlow {
    type V = VerifyAdminPasswordView;

    open spec fn view(&self) -> VerifyAdminPasswordView {
        VerifyAdminPasswordView { password: self.password@ }
    }
}

impl VerifyAdminPasswordView {
    /// An upper bound on the exchanges that the operation still needs.
    pub open spec fn steps_left(self) -> nat {
        1
    }

    /// The query that the flow waits on.
    pub open spec fn pending(self) -> QueryView {
        QueryView::FindUserByUsername { username: admin_username() }
    }

    /// The step that follows the store's reply: the check is done.
    pub open spec fn after(self, reply: ReplyView) -> StepView<VerifyAdminPasswordView, bool> {
        StepView::Done(admin_check_outcome(self.password, reply))
    }
}

impl Flow for VerifyAdminPasswordFlow {
    type Output = bool;

    open spec fn steps_left(&self) -> nat {
        self@.steps_left()
    }

    open spec fn asks(&self) -> QueryView {
        self@.pending()
    }

    open spec fn allows(&self, reply: ReplyView, step: Step<VerifyAdminPasswordFlow, bool>) -> bool {
        step@ == self@.after(reply)
    }

    /// The query to send to the store.
    fn query(&self) -> (query: Query)
        ensures
            query@ == self@.pending(),
    {
        UserRepository::new().find_by_username("admin")
    }

    /// Takes the store's reply to the lookup and ends the check: whether the
    /// password matches the hash of the account named `admin`, whoever asks.
    fn resume(self, reply: Reply) -> (step: Step<VerifyAdminPasswordFlow, bool>)
        ensures
            step@ == self@.after(reply@),
    {
        match reply.into_user() {
            Ok(Some(user)) => Step::Done(
                verify_password(self.password.as_str(), user.password_hash.as_str()),
            ),
            Ok(None) => Step::Done(Err(ServiceError::NotFound)),
            Err(error) => Step::Done(Err(ServiceError::StorageError(error))),
        }
    }
}

// ---------------------------------------------------------------------------
// Listing of accounts
// ---------------------------------------------------------------------------

/// A listing of accounts that waits for the store.
#[derive(Debug)]
pub struct ListUsersFlow {
    pub query: Query,
}

/// What a [`ListUsersFlow`] stands for in contracts.
pub struct ListUsersView {
    pub query: QueryView,
}

impl View for ListUsersFlow {
    type V = ListUsersView;

    open spec fn view(&self) -> ListUsersView {
        ListUsersView { query: self.query@ }
    }
}

impl ListUsersView {
    /// An upper bound on the exchanges that the operation still needs.
    pub open spec fn steps_left(self) -> nat {
        1
    }

    /// The query that the flow waits on.
    pub open spec fn pending(self) -> QueryView {
        self.query
    }

    /// The step that follows the store's reply: the accounts it listed.
    pub open spec fn after(self, reply: ReplyView) -> StepView<ListUsersView, Seq<UserView>> {
        done_with(reply.as_users())
    }
}

impl Flow for ListUsersFlow {
    type Output = Vec<User>;

    open spec fn steps_left(&self) -> nat {
        self@.steps_left()
    }

    open spec fn asks(&self) -> QueryView {
        self@.pending()
    }

    open spec fn allows(&self, reply: ReplyView, step: Step<ListUsersFlow, Vec<User>>) -> bool {
        step@ == self@.after(reply)
    }

    /// The query to send to the store.
    fn query(&self) -> (query: Query)
        ensures
            query@ == self@.pending(),
    {
        self.query.clone()
    }

    /// Takes the store's reply and ends the operation.
    fn resume(self, reply: Reply) -> (step: Step<ListUsersFlow, Vec<User>>)
        ensures
            step@ == self@.after(reply@),
    {
        Step::Done(pass_through(reply.into_users()))
    }
}

// ---------------------------------------------------------------------------
// The service
// ---------------------------------------------------------------------------

/// Authentication and account management.
#[derive(Debug, Clone, Copy)]
pub struct AuthService {
    pub user_repo: UserRepository,
    pub store_repo: StoreRepository,
}

impl AuthService {
    /// The service, with its repositories.
    pub fn new() -> Self {
        AuthService { user_repo: UserRepository::new(), store_repo: StoreRepository::new() }
    }

    /// Starts the bootstrap: it makes sure that the administrator role
    /// exists and, where the store holds no account at all, stores the first
    /// administrator and gives it the role. Safe to run at every start.
    pub fn initialize_admin(&self) -> (step: Step<InitializeAdminFlow, ()>)
        ensures
            step@ == StepView::<InitializeAdminView, ()>::Ask(InitializeAdminView::Count),
    {
        Step::Ask(InitializeAdminFlow::Count)
    }

    /// Starts a login.
    pub fn login(&self, username: &str, password: &str) -> (step: Step<LoginFlow, User>)
        ensures
            step@ == StepView::<LoginView, UserView>::Ask(
                LoginView { username: username@, password: password@ },
            ),
    {
        Step::Ask(LoginFlow { username: username.to_string(), password: password.to_string() })
    }

    /// Starts the creation of an active account with no label and no store.
    pub fn create_user(&self, username: &str, password: &str, email: Option<&str>) -> (step: Step<
        CreateUserFlow,
        User,
    >)
        ensures
            step@ == StepView::<CreateUserView, UserView>::Ask(
                CreateUserView::Lookup {
                    username: username@,
                    password: password@,
                    email: opt_str_text(email),
                },
            ),
    {
        Step::Ask(
            CreateUserFlow::Lookup {
                username: username.to_string(),
                password: password.to_string(),
                email: owned_text(email),
            },
        )
    }

    /// Starts a listing of the active accounts.
    pub fn get_users(&self) -> (step: Step<ListUsersFlow, Vec<User>>)
        ensures
            step@ == StepView::<ListUsersView, Seq<UserView>>::Ask(
                ListUsersView { query: QueryView::FindAllUsers },
            ),
    {
        Step::Ask(ListUsersFlow { query: self.user_repo.find_all_users() })
    }

    /// Starts the re-verification of the administrator's password.
    pub fn verify_admin_password(&self, password: &str) -> (step: Step<
        VerifyAdminPasswordFlow,
        bool,
    >)
        ensures
            step@ == StepView::<VerifyAdminPasswordView, bool>::Ask(
                VerifyAdminPasswordView { password: password@ },
            ),
    {
        Step::Ask(VerifyAdminPasswordFlow { password: password.to_string() })
    }
}

} // verus!
