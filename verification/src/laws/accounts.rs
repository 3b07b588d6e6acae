//! Laws of accounts: usernames stay unique under `create_user`, the bootstrap
//! is idempotent, and passwords decide a login.

use vstd::prelude::*;

use crate::commands::user::CreateStaffUserView;
use crate::errors::ServiceErrorView;
use crate::flow::StepView;
use crate::laws::storage::{roles_persist, usernames_persist_through};
use crate::models::user::{NewUserView, RoleView, UserView};
use crate::password::{bcrypt_verify_outcome, hash_of};
use crate::services::auth_service::{
    admin_role_name, admin_username, initial_admin_password, login_outcome, plain_account,
    CreateUserView, InitializeAdminView,
};
use crate::storage::contract::{answers, history, Exchange, Tables};
use crate::storage::query::QueryView;
use crate::storage::reply::ReplyView;

verus! {

/// A username is given out once. After an account with a username has been
/// stored, every later `create_user` for that username ends with
/// `DuplicateUsername`, whatever happened in between (a soft delete of the
/// account included) and whatever the password, provided that the store
/// answers the lookup.
pub proof fn duplicate_username_is_rejected(
    before: Tables,
    first: NewUserView,
    id: i64,
    states: Seq<Tables>,
    log: Seq<Exchange>,
    second: CreateUserView,
    reply: ReplyView,
    after: Tables,
    hashed: Option<Seq<char>>,
)
    requires
        answers(before, QueryView::InsertUser { user: first }, ReplyView::Inserted(id), states.first()),
        history(states, log),
        second matches CreateUserView::Lookup { username, .. } && username == first.username,
        answers(states.last(), second.pending(), reply, after),
        !(reply is Failed),
    ensures
        second.after(reply, hashed) == StepView::<CreateUserView, UserView>::Done(
            Err(ServiceErrorView::DuplicateUsername),
        ),
        after == states.last(),
{
    let stored = states.first();
    assert(stored.has_username(first.username)) by {
        assert(stored.users[stored.users.len() - 1].username == first.username);
    }
    usernames_persist_through(states, log, first.username);
    let now = states.last();
    let at = choose|i: int|
        0 <= i < now.users.len() && (#[trigger] now.users[i]).username == first.username;
    assert(reply matches ReplyView::User(Some(_))) by {
        let wanted = |row: UserView| row.username == first.username;
        assert(wanted(now.users[at]));
    }
}

/// A wrong password is refused. Where accounts with the username exist, active
/// or not, and the password matches the hash of none of them, a login ends
/// with `InvalidCredentials`, provided that the store answers the lookup.
pub proof fn wrong_password_is_refused(
    tables: Tables,
    username: Seq<char>,
    password: Seq<char>,
    reply: ReplyView,
    after: Tables,
)
    requires
        tables.has_username(username),
        forall|i: int|
            0 <= i < tables.users.len() && (#[trigger] tables.users[i]).username == username
                ==> bcrypt_verify_outcome(password, tables.users[i].password_hash) == Some(false),
        answers(tables, QueryView::FindUserByUsername { username }, reply, after),
        !(reply is Failed),
    ensures
        login_outcome(password, reply) == Err::<UserView, ServiceErrorView>(
            ServiceErrorView::InvalidCredentials,
        ),
{
    let at = choose|i: int|
        0 <= i < tables.users.len() && (#[trigger] tables.users[i]).username == username;
    let wanted = |row: UserView| row.username == username;
    assert(wanted(tables.users[at]));
    let found = reply->User_0;
    assert(found is Some);
    let user = found->0;
    assert(tables.users.contains(user));
    let from = choose|i: int| 0 <= i < tables.users.len() && tables.users[i] == user;
    assert(tables.users[from].username == username);
}

/// Whether `log`, from exchange `from` on, is what a bootstrap in state
/// `flow` asks and is answered until it ends with `outcome`. `hashed` is
/// what hashing the initial password gives, should the bootstrap hash it.
pub open spec fn bootstrap_talks(
    flow: InitializeAdminView,
    log: Seq<Exchange>,
    from: int,
    hashed: Option<Seq<char>>,
    outcome: Result<(), ServiceErrorView>,
) -> bool
    decreases log.len() - from,
{
    &&& 0 <= from < log.len()
    &&& log[from].query == flow.pending()
    &&& match flow.after(log[from].reply, hashed) {
        StepView::Ask(next) => bootstrap_talks(next, log, from + 1, hashed, outcome),
        StepView::Done(result) => from + 1 == log.len() && result == outcome,
    }
}

/// Whether a whole bootstrap took the store through `states` with the
/// exchanges of `log` and ended with `outcome`.
pub open spec fn bootstrap_runs(
    states: Seq<Tables>,
    log: Seq<Exchange>,
    hashed: Option<Seq<char>>,
    outcome: Result<(), ServiceErrorView>,
) -> bool {
    &&& history(states, log)
    &&& hash_of(initial_admin_password(), hashed)
    &&& bootstrap_talks(InitializeAdminView::Count, log, 0, hashed, outcome)
}

/// Whether the store holds the administrative baseline and nothing else: one
/// account, the active administrator, whose password is the initial one; one
/// role, the administrator's; and the assignment of the one to the other.
pub open spec fn is_fresh_baseline(tables: Tables) -> bool {
    &&& tables.users.len() == 1
    &&& tables.users[0].username == admin_username()
    &&& tables.users[0].is_active
    &&& bcrypt_verify_outcome(initial_admin_password(), tables.users[0].password_hash) == Some(
        true,
    )
    &&& tables.roles.len() == 1
    &&& tables.roles[0].role_name == admin_role_name()
    &&& tables.user_roles =~= seq![(tables.users[0].id, tables.roles[0].id)]
    &&& tables.stores.len() == 0
    &&& tables.categories.len() == 0
    &&& tables.products.len() == 0
}

/// The first bootstrap. Run to success on a store that holds nothing, it
/// leaves exactly one account, named `admin`, exactly one role, named
/// `ADMIN`, and the one assigned to the other.
pub proof fn bootstrap_of_empty_store(
    states: Seq<Tables>,
    log: Seq<Exchange>,
    hashed: Option<Seq<char>>,
)
    requires
        states.first() == Tables::empty(),
        bootstrap_runs(states, log, hashed, Ok(())),
    ensures
        is_fresh_baseline(states.last()),
{
    reveal_with_fuel(bootstrap_talks, 6);
    let empty = Tables::empty();
    // How many accounts: none.
    assert(answers(states[0], log[0].query, log[0].reply, states[1]));
    assert(log[0].reply == ReplyView::Count(0));
    assert(states[1] == empty);
    // The role: not there.
    assert(answers(states[1], log[1].query, log[1].reply, states[2]));
    assert(log[1].reply == ReplyView::Role(None)) by {
        let found = log[1].reply->Role_0;
        if found is Some {
            assert(empty.roles.contains(found->0));
        }
    }
    assert(states[2] == empty);
    // The role is stored.
    assert(answers(states[2], log[2].query, log[2].reply, states[3]));
    let role_id = log[2].reply->Inserted_0;
    assert(states[3].roles =~= seq![RoleView { id: role_id, role_name: admin_role_name() }]);
    // The administrator is stored.
    assert(hashed is Some);
    assert(answers(states[3], log[3].query, log[3].reply, states[4]));
    let user_id = log[3].reply->Inserted_0;
    assert(states[4].users.len() == 1);
    assert(states[4].users[0] == states[4].users.last());
    // The role is assigned.
    assert(answers(states[4], log[4].query, log[4].reply, states[5]));
    assert(!states[4].user_roles.contains((user_id, role_id)));
    assert(log.len() == 5);
    assert(states[5] == states.last());
}

/// A successful bootstrap, from whatever state, leaves at least one account
/// and the administrator role.
pub proof fn bootstrap_leaves_baseline(
    states: Seq<Tables>,
    log: Seq<Exchange>,
    hashed: Option<Seq<char>>,
)
    requires
        bootstrap_runs(states, log, hashed, Ok(())),
    ensures
        states.last().users.len() > 0,
        states.last().has_role_named(admin_role_name()),
{
    reveal_with_fuel(bootstrap_talks, 6);
    let name = admin_role_name();
    assert(answers(states[0], log[0].query, log[0].reply, states[1]));
    let count = log[0].reply->Count_0;
    assert(answers(states[1], log[1].query, log[1].reply, states[2]));
    let found = log[1].reply->Role_0;
    // After the role is known: `at` exchanges are behind us.
    let at: int = if found is Some { 2 } else { 3 };
    if found is Some {
        let role = found->0;
        assert(states[1].roles.contains(role));
        let i = choose|i: int| 0 <= i < states[1].roles.len() && states[1].roles[i] == role;
        assert(states[2].roles[i].role_name == name);
    } else {
        assert(answers(states[2], log[2].query, log[2].reply, states[3]));
        assert(states[3].roles[states[3].roles.len() - 1].role_name == name);
    }
    assert(states[at].has_role_named(name));
    assert(states[at].users.len() == count);
    if count == 0 {
        assert(answers(states[at], log[at].query, log[at].reply, states[at + 1]));
        roles_persist(states[at], log[at].query, log[at].reply, states[at + 1], name);
        assert(answers(states[at + 1], log[at + 1].query, log[at + 1].reply, states[at + 2]));
        roles_persist(
            states[at + 1],
            log[at + 1].query,
            log[at + 1].reply,
            states[at + 2],
            name,
        );
        assert(log.len() == at + 2);
    } else {
        assert(log.len() == at);
    }
}

/// A bootstrap that finds the baseline changes nothing. Where the store holds
/// an account and the administrator role, a bootstrap only counts the
/// accounts and looks the role up: every state it passes through is the one
/// it started in, and unless the store fails it ends well.
pub proof fn bootstrap_of_settled_store_changes_nothing(
    states: Seq<Tables>,
    log: Seq<Exchange>,
    hashed: Option<Seq<char>>,
    outcome: Result<(), ServiceErrorView>,
)
    requires
        bootstrap_runs(states, log, hashed, outcome),
        states.first().users.len() > 0,
        states.first().has_role_named(admin_role_name()),
    ensures
        forall|i: int| 0 <= i < states.len() ==> #[trigger] states[i] == states.first(),
        forall|i: int| 0 <= i < log.len() ==> (#[trigger] log[i]).query.reads_only(),
        (forall|i: int| 0 <= i < log.len() ==> !((#[trigger] log[i]).reply is Failed)) ==> outcome
            == Ok::<(), ServiceErrorView>(()),
{
    reveal_with_fuel(bootstrap_talks, 3);
    let start = states.first();
    assert(answers(states[0], log[0].query, log[0].reply, states[1]));
    assert(states[1] == start);
    if !(log[0].reply is Failed) {
        assert(answers(states[1], log[1].query, log[1].reply, states[2]));
        assert(states[2] == start);
        if !(log[1].reply is Failed) {
            let found = log[1].reply->Role_0;
            let at = choose|i: int|
                0 <= i < start.roles.len() && (#[trigger] start.roles[i]).role_name
                    == admin_role_name();
            let wanted = |row: RoleView| row.role_name == admin_role_name();
            assert(wanted(start.roles[at]));
            assert(found is Some);
        }
        assert(log.len() == 2);
    } else {
        assert(log.len() == 1);
    }
}

/// The bootstrap is idempotent. Run twice in succession on a store that held
/// nothing, the first run to success, it leaves exactly one `admin` account
/// and exactly one `ADMIN` role, and the second run changes nothing.
pub proof fn bootstrap_twice_is_bootstrap_once(
    first_states: Seq<Tables>,
    first_log: Seq<Exchange>,
    first_hashed: Option<Seq<char>>,
    second_states: Seq<Tables>,
    second_log: Seq<Exchange>,
    second_hashed: Option<Seq<char>>,
    second_outcome: Result<(), ServiceErrorView>,
)
    requires
        first_states.first() == Tables::empty(),
        bootstrap_runs(first_states, first_log, first_hashed, Ok(())),
        second_states.first() == first_states.last(),
        bootstrap_runs(second_states, second_log, second_hashed, second_outcome),
    ensures
        second_states.last() == first_states.last(),
        is_fresh_baseline(second_states.last()),
        forall|i: int| 0 <= i < second_log.len() ==> (#[trigger] second_log[i]).query.reads_only(),
{
    bootstrap_of_empty_store(first_states, first_log, first_hashed);
    bootstrap_leaves_baseline(first_states, first_log, first_hashed);
    bootstrap_of_settled_store_changes_nothing(
        second_states,
        second_log,
        second_hashed,
        second_outcome,
    );
    assert(second_states[second_states.len() - 1] == second_states.first());
}

/// The first administrator can log in. Right after a successful bootstrap of
/// a store that held nothing, a login as `admin` with the initial password
/// returns the administrator's account, provided that the store answers the
/// lookup.
pub proof fn first_administrator_can_log_in(
    states: Seq<Tables>,
    log: Seq<Exchange>,
    hashed: Option<Seq<char>>,
    reply: ReplyView,
    after: Tables,
)
    requires
        states.first() == Tables::empty(),
        bootstrap_runs(states, log, hashed, Ok(())),
        answers(
            states.last(),
            QueryView::FindUserByUsername { username: admin_username() },
            reply,
            after,
        ),
        !(reply is Failed),
    ensures
        login_outcome(initial_admin_password(), reply) matches Ok(user) && user.username
            == admin_username() && user == states.last().users[0],
{
    bootstrap_of_empty_store(states, log, hashed);
    let tables = states.last();
    let wanted = |row: UserView| row.username == admin_username();
    assert(wanted(tables.users[0]));
    let found = reply->User_0;
    assert(found is Some);
    assert(tables.users.contains(found->0));
}

/// Whether `log`, from exchange `from` on, is what a creation of an account
/// in state `flow` asks and is answered until it ends with `outcome`.
/// `hashed` is what hashing the password gives, should the operation hash it.
pub open spec fn create_user_talks(
    flow: CreateUserView,
    log: Seq<Exchange>,
    from: int,
    hashed: Option<Seq<char>>,
    outcome: Result<UserView, ServiceErrorView>,
) -> bool
    decreases log.len() - from,
{
    &&& 0 <= from < log.len()
    &&& log[from].query == flow.pending()
    &&& match flow.after(log[from].reply, hashed) {
        StepView::Ask(next) => create_user_talks(next, log, from + 1, hashed, outcome),
        StepView::Done(result) => from + 1 == log.len() && result == outcome,
    }
}

/// What a successful `create_user` has done. The username was free; the
/// store holds one more account, the one returned: active, with the username
/// and e-mail address given, no label and no store, and a hash against which
/// the password verifies. Nothing else has changed.
pub proof fn created_user_is_stored(
    states: Seq<Tables>,
    log: Seq<Exchange>,
    username: Seq<char>,
    password: Seq<char>,
    email: Option<Seq<char>>,
    hashed: Option<Seq<char>>,
    user: UserView,
)
    requires
        history(states, log),
        hash_of(password, hashed),
        create_user_talks(
            CreateUserView::Lookup { username, password, email },
            log,
            0,
            hashed,
            Ok(user),
        ),
    ensures
        !states.first().has_username(username),
        hashed matches Some(hash) && user == plain_account(username, hash, email).stored(user.id),
        bcrypt_verify_outcome(password, user.password_hash) == Some(true),
        states.last().users.len() == states.first().users.len() + 1,
        states.last().users.drop_last() == states.first().users,
        states.last().users.last() == (UserView {
            created_at: states.last().users.last().created_at,
            ..user
        }),
        states.last() == (Tables { users: states.last().users, ..states.first() }),
{
    reveal_with_fuel(create_user_talks, 3);
    let start = states.first();
    assert(answers(states[0], log[0].query, log[0].reply, states[1]));
    assert(log[0].reply == ReplyView::User(None));
    assert(!start.has_username(username)) by {
        if start.has_username(username) {
            let at = choose|i: int|
                0 <= i < start.users.len() && (#[trigger] start.users[i]).username == username;
            let wanted = |row: UserView| row.username == username;
            assert(wanted(start.users[at]));
        }
    }
    assert(answers(states[1], log[1].query, log[1].reply, states[2]));
    assert(log.len() == 2);
    assert(states[2] == states.last());
}

/// Whether `log`, from exchange `from` on, is what a creation of a staff
/// account in state `flow` asks and is answered until it ends with
/// `outcome`.
pub open spec fn staff_talks(
    flow: CreateStaffUserView,
    log: Seq<Exchange>,
    from: int,
    outcome: Result<UserView, ServiceErrorView>,
) -> bool
    decreases log.len() - from,
{
    &&& 0 <= from < log.len()
    &&& log[from].query == flow.pending()
    &&& match flow.after(log[from].reply) {
        StepView::Ask(next) => staff_talks(next, log, from + 1, outcome),
        StepView::Done(result) => from + 1 == log.len() && result == outcome,
    }
}

/// What a successful creation of a staff account has done. The store holds
/// the account that is returned, a role with the name given, and the
/// assignment of that role to the account.
pub proof fn staff_creation_stores_account_role_and_assignment(
    states: Seq<Tables>,
    log: Seq<Exchange>,
    account: NewUserView,
    role_name: Seq<char>,
    user: UserView,
)
    requires
        history(states, log),
        staff_talks(CreateStaffUserView::InsertUser { account, role_name }, log, 0, Ok(user)),
    ensures
        user == account.stored(user.id),
        exists|i: int|
            0 <= i < states.last().users.len() && (#[trigger] states.last().users[i]) == (UserView {
                created_at: states.last().users[i].created_at,
                ..user
            }),
        exists|j: int|
            0 <= j < states.last().roles.len() && (#[trigger] states.last().roles[j]).role_name
                == role_name && states.last().user_roles.contains(
                (user.id, states.last().roles[j].id),
            ),
{
    reveal_with_fuel(staff_talks, 5);
    assert(answers(states[0], log[0].query, log[0].reply, states[1]));
    let at = states[1].users.len() - 1;
    assert(states[1].users[at] == states[1].users.last());
    assert(answers(states[1], log[1].query, log[1].reply, states[2]));
    let found = log[1].reply->Role_0;
    if found is Some {
        let role = found->0;
        assert(states[1].roles.contains(role));
        let j = choose|j: int| 0 <= j < states[1].roles.len() && states[1].roles[j] == role;
        assert(answers(states[2], log[2].query, log[2].reply, states[3]));
        assert(log.len() == 3);
        let end = states.last();
        assert(end == states[3]);
        assert(end.users[at] == states[1].users[at]);
        assert(end.roles[j] == role);
        assert(end.user_roles.contains((user.id, role.id))) by {
            if !states[2].user_roles.contains((user.id, role.id)) {
                assert(end.user_roles.last() == (user.id, role.id));
            }
        }
    } else {
        assert(answers(states[2], log[2].query, log[2].reply, states[3]));
        let role_id = log[2].reply->Inserted_0;
        let j = states[3].roles.len() - 1;
        assert(states[3].roles[j].role_name == role_name);
        assert(answers(states[3], log[3].query, log[3].reply, states[4]));
        assert(log.len() == 4);
        let end = states.last();
        assert(end == states[4]);
        assert(end.users[at] == states[1].users[at]);
        assert(end.roles[j] == states[3].roles[j]);
        assert(end.user_roles.contains((user.id, role_id))) by {
            if !states[3].user_roles.contains((user.id, role_id)) {
                assert(end.user_roles.last() == (user.id, role_id));
            }
        }
    }
}

/// The three writes of the creation of a staff account are separate. Once the
/// store has answered the insert of the account, the account is there to
/// stay, however the operation ends: a failure of a later step is returned
/// and leaves the account stored.
pub proof fn stored_staff_account_outlives_a_failure(
    states: Seq<Tables>,
    log: Seq<Exchange>,
    account: NewUserView,
    role_name: Seq<char>,
    outcome: Result<UserView, ServiceErrorView>,
)
    requires
        history(states, log),
        staff_talks(CreateStaffUserView::InsertUser { account, role_name }, log, 0, outcome),
        log[0].reply is Inserted,
    ensures
        states.last().has_username(account.username),
{
    reveal_with_fuel(staff_talks, 2);
    assert(answers(states[0], log[0].query, log[0].reply, states[1]));
    assert(states[1].has_username(account.username)) by {
        assert(states[1].users[states[1].users.len() - 1].username == account.username);
    }
    let later = states.skip(1);
    let rest = log.skip(1);
    assert(history(later, rest)) by {
        assert forall|i: int| 0 <= i < rest.len() implies answers(
            later[i],
            (#[trigger] rest[i]).query,
            rest[i].reply,
            later[i + 1],
        ) by {
            assert(rest[i] == log[i + 1]);
            assert(answers(states[i + 1], log[i + 1].query, log[i + 1].reply, states[i + 2]));
        }
    }
    assert(later.first() == states[1]);
    usernames_persist_through(later, rest, account.username);
    assert(later.last() == states.last());
}

} // verus!
