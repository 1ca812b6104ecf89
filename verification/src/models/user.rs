//! Users, their roles, and the check of a role against a required minimum.
//!
//! Roles are totally ordered, Agent below Manager below Leader. The check
//! compares the acting user's role, read from the store for every call, with
//! the minimum that an operation asks for.

use crate::models::identity::Uuid;
use crate::models::user_info::UserInfo;
use crate::utils::error::{CoreError, Entity, Field};
use crate::utils::password_hashing::{
    argon2_verifies, hash_password, verify_password, PASSWORD_LIMIT,
};
use crate::utils::text::{clone_text, same_text, text};
use vstd::prelude::*;
use vstd::std_specs::convert::FromSpecImpl;
use vstd::string::StringExecFns;
use vstd::utf8::*;

verus! {

/// A user as the boundary sees it.
#[derive(Debug, Default)]
pub struct User {
    pub id: Option<i32>,
    pub uuid: Option<Uuid>,
    pub email: Option<String>,
    pub username: Option<String>,
    pub info: UserInfo,
    pub password: Option<String>,
    pub user_role: Option<UserRole>,
    pub manager_uuid: Option<Uuid>,
}

/// The role of a user in the sales organisation.
#[derive(Debug, Clone, Copy, PartialEq, Eq, PartialOrd, Ord, Structural)]
pub enum UserRole {
    Agent,
    Manager,
    Leader,
}

/// What a successful sign-in hands out.
#[derive(Debug)]
pub enum SignInResult {
    UserToken(String),
}

/// What the store holds of one user for the check of a new registration.
#[derive(Debug, Clone)]
pub struct Account {
    pub email: String,
    pub username: String,
}

/// What the store holds of one user for the check of a sign-in: the
/// internal id and the password hash.
#[derive(Debug, Clone)]
pub struct Credentials {
    pub id: i32,
    pub password: String,
}

/// A new user as it is written to the store: the password hashed, the role
/// inferred, the manager by internal id.
#[derive(Debug)]
pub struct StoredUser {
    pub email: Option<String>,
    pub username: Option<String>,
    pub password: String,
    pub user_role: UserRole,
    pub manager_id: Option<i32>,
    pub info: UserInfo,
}

/// A user row as it is read from the store, joined with its profile and
/// its manager.
#[derive(Debug, Clone)]
pub struct UserRow {
    pub uuid: Option<Uuid>,
    pub email: Option<String>,
    pub username: Option<String>,
    pub user_role: String,
    pub manager_uuid: Option<Uuid>,
    pub full_name: String,
    pub phone_number: String,
    pub hufa_code: String,
    pub agent_code: String,
}

/// A user row as the list of subordinates needs it.
#[derive(Debug, Clone)]
pub struct SubUserRow {
    pub id: i32,
    pub manager_id: Option<i32>,
    pub uuid: Option<Uuid>,
    pub full_name: String,
    pub user_role: String,
}

/// A change of the manager of a user, with the role that follows from it.
#[derive(Debug, Clone, Copy, PartialEq, Eq, Structural)]
pub struct ManagerChange {
    pub manager_id: Option<i32>,
    pub user_role: UserRole,
}

/// The role that a stored spelling stands for. Any spelling but those of
/// Manager and Leader reads as Agent.
pub open spec fn role_of(stored: Seq<char>) -> UserRole {
    if stored == "Leader"@ {
        UserRole::Leader
    } else if stored == "Manager"@ {
        UserRole::Manager
    } else {
        UserRole::Agent
    }
}

/// Whether an actor of role `actor` may do what asks for `min_role`.
pub open spec fn permits(min_role: UserRole, actor: UserRole) -> bool {
    actor.rank() >= min_role.rank()
}

/// The verdict for a required minimum and the role column that the
/// store holds for the actor, `None` where the store has no such user.
pub open spec fn role_verdict(min_role: UserRole, stored_role: Option<Seq<char>>) -> Result<
    (),
    CoreError,
> {
    match stored_role {
        None => Err(CoreError::ActorNotFound),
        Some(stored) => if permits(min_role, role_of(stored)) {
            Ok(())
        } else {
            Err(CoreError::Forbidden)
        },
    }
}

impl UserRole {
    /// The position of the role in the order: 0 for Agent, 1 for Manager, 2 for Leader.
    pub open spec fn rank(self) -> nat {
        match self {
            UserRole::Agent => 0,
            UserRole::Manager => 1,
            UserRole::Leader => 2,
        }
    }

    /// The spelling under which the role is stored.
    pub open spec fn name(self) -> Seq<char> {
        match self {
            UserRole::Agent => "Agent"@,
            UserRole::Manager => "Manager"@,
            UserRole::Leader => "Leader"@,
        }
    }

    /// The position of the role in the order.
    pub fn level(&self) -> (level: u8)
        ensures
            level == self.rank(),
    {
        match self {
            UserRole::Agent => 0,
            UserRole::Manager => 1,
            UserRole::Leader => 2,
        }
    }

    /// Whether this role is at least `min_role`.
    pub fn at_least(&self, min_role: UserRole) -> (enough: bool)
        ensures
            enough == permits(min_role, *self),
    {
        self.level() >= min_role.level()
    }

    /// The spelling under which the role is stored.
    pub fn as_str(&self) -> (name: &'static str)
        ensures
            name@ == self.name(),
    {
        match self {
            UserRole::Agent => "Agent",
            UserRole::Manager => "Manager",
            UserRole::Leader => "Leader",
        }
    }

    /// The stored spelling as an owned string.
    pub fn to_string(&self) -> (name: String)
        ensures
            name@ == self.name(),
    {
        String::from_str(self.as_str())
    }

    /// Reads a stored spelling; anything unknown reads as Agent.
    pub fn parse(stored: &str) -> (role: UserRole)
        ensures
            role == role_of(stored@),
    {
        if same_text(stored, "Leader") {
            UserRole::Leader
        } else if same_text(stored, "Manager") {
            UserRole::Manager
        } else {
            UserRole::Agent
        }
    }
}

impl From<String> for UserRole {
    fn from(value: String) -> (role: UserRole) {
        UserRole::parse(value.as_str())
    }
}

impl FromSpecImpl<String> for UserRole {
    open spec fn obeys_from_spec() -> bool {
        true
    }

    open spec fn from_spec(value: String) -> UserRole {
        role_of(value@)
    }
}

/// The role order is a strict total order: two roles are equal exactly when
/// their ranks are, and of two different roles one is below the other.
pub proof fn lemma_role_order_total(a: UserRole, b: UserRole, c: UserRole)
    ensures
        a == b <==> a.rank() == b.rank(),
        permits(a, b) || permits(b, a),
        permits(a, b) && permits(b, a) ==> a == b,
        permits(a, b) && permits(b, c) ==> permits(a, c),
        UserRole::Agent.rank() < UserRole::Manager.rank() < UserRole::Leader.rank(),
{
}

/// The thresholds: what asks for Manager is open to Manager and Leader and
/// closed to Agent; what asks for Leader is open to Leader alone; what asks
/// for Agent is open to every role.
pub proof fn lemma_role_thresholds(actor: UserRole)
    ensures
        permits(UserRole::Manager, actor) <==> (actor == UserRole::Manager || actor
            == UserRole::Leader),
        permits(UserRole::Leader, actor) <==> actor == UserRole::Leader,
        permits(UserRole::Agent, actor),
{
}

/// Every role is read back from its own stored spelling.
pub proof fn lemma_role_spelling_round_trip(role: UserRole)
    ensures
        role_of(role.name()) == role,
{
    reveal_strlit("Agent");
    reveal_strlit("Manager");
    reveal_strlit("Leader");
    assert("Agent"@.len() == 5);
    assert("Manager"@.len() == 7);
    assert("Leader"@.len() == 6);
}

/// The verdict by role: for an actor whose role is stored under its own
/// spelling, the check succeeds exactly where the role is at least the
/// minimum, and else it answers `Forbidden`.
pub proof fn lemma_verdict_by_role(min_role: UserRole, actor: UserRole)
    ensures
        role_verdict(min_role, Some(actor.name())) == (if permits(min_role, actor) {
            Ok::<(), CoreError>(())
        } else {
            Err(CoreError::Forbidden)
        }),
        role_verdict(UserRole::Manager, Some(actor.name())) is Ok <==> actor != UserRole::Agent,
        role_verdict(UserRole::Leader, Some(actor.name())) is Ok <==> actor == UserRole::Leader,
{
    lemma_role_spelling_round_trip(actor);
}

impl User {
    /// The role of the acting user, from the role column that the store holds
    /// for it; `ActorNotFound` where the store has no such user.
    pub fn get_role(stored_role: Option<String>) -> (role: Result<UserRole, CoreError>)
        ensures
            role == match stored_role {
                Some(stored) => Ok::<UserRole, CoreError>(role_of(stored@)),
                None => Err(CoreError::ActorNotFound),
            },
    {
        match stored_role {
            Some(stored) => Ok(UserRole::from(stored)),
            None => Err(CoreError::ActorNotFound),
        }
    }

    /// Checks the role: succeeds exactly when the actor exists and its role is
    /// at least `min_role`. The stored role is handed in anew for every call.
    pub fn require_role(min_role: UserRole, stored_role: Option<String>) -> (verdict: Result<
        (),
        CoreError,
    >)
        ensures
            verdict == role_verdict(min_role, text(stored_role)),
            verdict is Ok <==> stored_role is Some && permits(min_role, role_of(stored_role->0@)),
    {
        let role = match User::get_role(stored_role) {
            Ok(role) => role,
            Err(e) => {
                return Err(e);
            },
        };
        if role.at_least(min_role) {
            Ok(())
        } else {
            Err(CoreError::Forbidden)
        }
    }
}

/// The role that follows from the presence of a manager: a user with a
/// manager is an Agent, one without is a Manager. No user becomes a Leader
/// this way.
pub open spec fn inferred_role(has_manager: bool) -> UserRole {
    if has_manager {
        UserRole::Agent
    } else {
        UserRole::Manager
    }
}

/// Whether the store holds a user with the email or the username of this
/// one. A field that is not given equals nothing.
pub open spec fn account_known(accounts: Seq<Account>, user: User) -> bool {
    exists|i: int| 0 <= i < accounts.len() && (#[trigger] accounts[i]).taken_by(user)
}

/// Why a user cannot be created, or `None` where it can.
pub open spec fn create_refusal(accounts: Seq<Account>, new_user: User) -> Option<CoreError> {
    if account_known(accounts, new_user) {
        Some(CoreError::AlreadyExists(Entity::User))
    } else if new_user.password is None {
        Some(CoreError::MissingField(Field::Password))
    } else if encode_utf8(new_user.password->0@).len() > PASSWORD_LIMIT {
        Some(CoreError::FieldTooLong(Field::Password))
    } else {
        None
    }
}

/// The verdict of a sign-in on a user that was found: the internal id where
/// the password matches.
pub open spec fn admitted(id: i32, password_matches: bool) -> Result<i32, CoreError> {
    if password_matches {
        Ok(id)
    } else {
        Err(CoreError::WrongPassword)
    }
}

/// The verdict of a sign-in.
pub open spec fn sign_in_verdict(found: Option<Credentials>, user: User) -> Result<i32, CoreError> {
    match found {
        None => Err(CoreError::NotFound(Entity::User)),
        Some(credentials) => match user.password {
            None => Err(CoreError::MissingField(Field::Password)),
            Some(password) => admitted(
                credentials.id,
                argon2_verifies(encode_utf8(password@), credentials.password@),
            ),
        },
    }
}

/// Whether a role is admitted by the lowest role that a list asks for:
/// `Leader` admits leaders, `Manager` admits managers and leaders, `Any`
/// admits everyone, and any other word admits no one.
pub open spec fn role_admitted(min_role: Seq<char>, user_role: Seq<char>) -> bool {
    ||| (min_role == "Leader"@ && user_role == "Leader"@)
    ||| (min_role == "Manager"@ && (user_role == "Manager"@ || user_role == "Leader"@))
    ||| min_role == "Any"@
}

/// Whether an actor sees a user in the list of its subordinates. A leader
/// sees every user whose role is admitted; a manager sees itself and those
/// of its own reports whose role is admitted; an agent sees itself alone.
pub open spec fn visible_to(
    actor_role: UserRole,
    actor_id: i32,
    min_role: Seq<char>,
    row: SubUserRow,
) -> bool {
    match actor_role {
        UserRole::Leader => role_admitted(min_role, row.user_role@),
        UserRole::Manager => row.id == actor_id || (row.manager_id == Some(actor_id)
            && role_admitted(min_role, row.user_role@)),
        UserRole::Agent => row.id == actor_id,
    }
}

/// The rows that an actor sees, in their order.
pub open spec fn visible_rows(
    actor_role: UserRole,
    actor_id: i32,
    min_role: Seq<char>,
    rows: Seq<SubUserRow>,
) -> Seq<SubUserRow>
    decreases rows.len(),
{
    if rows.len() == 0 {
        Seq::empty()
    } else {
        let before = visible_rows(actor_role, actor_id, min_role, rows.drop_last());
        if visible_to(actor_role, actor_id, min_role, rows.last()) {
            before.push(rows.last())
        } else {
            before
        }
    }
}

impl Account {
    /// Whether this account has the email or the username of a user.
    pub open spec fn taken_by(self, user: User) -> bool {
        ||| (user.email is Some && self.email@ == user.email->0@)
        ||| (user.username is Some && self.username@ == user.username->0@)
    }

    /// Whether this account has the email or the username of a user.
    pub fn is_taken_by(&self, user: &User) -> (taken: bool)
        ensures
            taken == self.taken_by(*user),
    {
        let by_email = match &user.email {
            Some(email) => same_text(self.email.as_str(), email.as_str()),
            None => false,
        };
        if by_email {
            return true;
        }
        match &user.username {
            Some(username) => same_text(self.username.as_str(), username.as_str()),
            None => false,
        }
    }
}

impl ManagerChange {
    /// The change that gives a user this manager, or none: with a manager
    /// the user becomes an Agent, without one a Manager.
    pub fn to(manager_id: Option<i32>) -> (change: ManagerChange)
        ensures
            change.manager_id == manager_id,
            change.user_role == inferred_role(manager_id is Some),
    {
        ManagerChange {
            manager_id,
            user_role: if manager_id.is_some() {
                UserRole::Agent
            } else {
                UserRole::Manager
            },
        }
    }
}

impl User {
    /// Whether this user is what a row reads as.
    pub open spec fn reads(self, row: UserRow) -> bool {
        &&& self.id is None
        &&& self.uuid == row.uuid
        &&& text(self.email) == text(row.email)
        &&& text(self.username) == text(row.username)
        &&& self.info.id is None
        &&& text(self.info.full_name) == Some(row.full_name@)
        &&& text(self.info.phone_number) == Some(row.phone_number@)
        &&& text(self.info.hufa_code) == Some(row.hufa_code@)
        &&& text(self.info.agent_code) == Some(row.agent_code@)
        &&& self.password is None
        &&& self.user_role == Some(role_of(row.user_role@))
        &&& self.manager_uuid == row.manager_uuid
    }

    /// Whether this user is what a row of the list of subordinates reads as.
    pub open spec fn reads_sub_user(self, row: SubUserRow) -> bool {
        &&& self.id is None
        &&& self.uuid == row.uuid
        &&& self.email is None
        &&& self.username is None
        &&& self.info.id is None
        &&& text(self.info.full_name) == Some(row.full_name@)
        &&& self.info.phone_number is None
        &&& self.info.hufa_code is None
        &&& self.info.agent_code is None
        &&& self.password is None
        &&& self.user_role == Some(role_of(row.user_role@))
        &&& self.manager_uuid is None
    }

    /// Whether the store holds a user with the email or the username of
    /// this one.
    pub fn is_exists(accounts: &Vec<Account>, user: &User) -> (known: bool)
        ensures
            known == account_known(accounts@, *user),
    {
        let mut i: usize = 0;
        while i < accounts.len()
            invariant
                i <= accounts@.len(),
                forall|j: int| 0 <= j < i ==> !(#[trigger] accounts@[j]).taken_by(*user),
            decreases accounts@.len() - i,
        {
            if accounts[i].is_taken_by(user) {
                return true;
            }
            i += 1;
        }
        false
    }

    /// Creates a user: refuses one whose email or username is taken, hashes
    /// the password, and infers the role from the manager link of the
    /// request. `manager_id` is the internal id of the manager that the
    /// request names, `None` where it names none or the store has no such
    /// user.
    pub fn create(accounts: &Vec<Account>, manager_id: Option<i32>, new_user: User) -> (created:
        Result<StoredUser, CoreError>)
        ensures
            match created {
                Ok(stored) => {
                    &&& create_refusal(accounts@, new_user) is None
                    &&& text(stored.email) == text(new_user.email)
                    &&& text(stored.username) == text(new_user.username)
                    &&& argon2_verifies(encode_utf8(new_user.password->0@), stored.password@)
                    &&& stored.user_role == inferred_role(new_user.manager_uuid is Some)
                    &&& stored.user_role != UserRole::Leader
                    &&& stored.manager_id == manager_id
                    &&& stored.info == new_user.info
                },
                Err(e) => create_refusal(accounts@, new_user) == Some(e),
            },
    {
        if User::is_exists(accounts, &new_user) {
            return Err(CoreError::AlreadyExists(Entity::User));
        }
        let User { email, username, info, password, manager_uuid, .. } = new_user;
        let password = match password {
            Some(password) => password,
            None => {
                return Err(CoreError::MissingField(Field::Password));
            },
        };
        let hashed = match hash_password(password.as_str()) {
            Some(hashed) => hashed,
            None => {
                return Err(CoreError::FieldTooLong(Field::Password));
            },
        };
        Ok(
            StoredUser {
                email,
                username,
                password: hashed,
                user_role: if manager_uuid.is_some() {
                    UserRole::Agent
                } else {
                    UserRole::Manager
                },
                manager_id,
                info,
            },
        )
    }

    /// The verdict on a user that was found, given whether the password
    /// matches its hash.
    pub fn grant(id: i32, password_matches: bool) -> (verdict: Result<i32, CoreError>)
        ensures
            verdict == admitted(id, password_matches),
    {
        if password_matches {
            Ok(id)
        } else {
            Err(CoreError::WrongPassword)
        }
    }

    /// Signs a user in by username and password. `found` is what the store
    /// holds for the username, `None` where it holds no such user. Returns
    /// the internal id of the user, for which a token is then issued.
    pub fn sign_in_with_username(found: Option<Credentials>, user: User) -> (verdict: Result<
        i32,
        CoreError,
    >)
        ensures
            verdict == sign_in_verdict(found, user),
    {
        let credentials = match found {
            Some(credentials) => credentials,
            None => {
                return Err(CoreError::NotFound(Entity::User));
            },
        };
        let password = match user.password {
            Some(password) => password,
            None => {
                return Err(CoreError::MissingField(Field::Password));
            },
        };
        User::grant(
            credentials.id,
            verify_password(password.as_str(), credentials.password.as_str()),
        )
    }

    /// Reads one user row.
    pub fn from_row(row: &UserRow) -> (user: User)
        ensures
            user.reads(*row),
    {
        User {
            id: None,
            uuid: row.uuid,
            email: clone_text(&row.email),
            username: clone_text(&row.username),
            info: UserInfo {
                id: None,
                full_name: Some(row.full_name.clone()),
                phone_number: Some(row.phone_number.clone()),
                hufa_code: Some(row.hufa_code.clone()),
                agent_code: Some(row.agent_code.clone()),
            },
            password: None,
            user_role: Some(UserRole::parse(row.user_role.as_str())),
            manager_uuid: row.manager_uuid,
        }
    }

    /// Reads the rows of a list of users, in their order; `NotFound` where
    /// the store does not hold the user who asks.
    pub fn get_users(is_exists: bool, rows: &Vec<UserRow>) -> (users: Result<Vec<User>, CoreError>)
        ensures
            users is Ok <==> is_exists,
            users is Err ==> users->Err_0 == CoreError::NotFound(Entity::User),
            users is Ok ==> {
                &&& users->Ok_0@.len() == rows@.len()
                &&& forall|i: int|
                    0 <= i < rows@.len() ==> (#[trigger] users->Ok_0@[i]).reads(rows@[i])
            },
    {
        if !is_exists {
            return Err(CoreError::NotFound(Entity::User));
        }
        let mut users: Vec<User> = Vec::new();
        let mut i: usize = 0;
        while i < rows.len()
            invariant
                i <= rows@.len(),
                users@.len() == i,
                forall|j: int| 0 <= j < i ==> (#[trigger] users@[j]).reads(rows@[j]),
            decreases rows@.len() - i,
        {
            users.push(User::from_row(&rows[i]));
            i += 1;
        }
        Ok(users)
    }

    /// Reads the rows of the users that report to a user, in their order.
    /// `user_id` is the internal id of that user, `None` where the store
    /// does not hold it.
    pub fn get_users_by_id(user_id: Option<i32>, rows: &Vec<UserRow>) -> (users: Result<
        Vec<User>,
        CoreError,
    >)
        ensures
            users is Ok <==> user_id is Some,
            users is Err ==> users->Err_0 == CoreError::NotFound(Entity::User),
            users is Ok ==> {
                &&& users->Ok_0@.len() == rows@.len()
                &&& forall|i: int|
                    0 <= i < rows@.len() ==> (#[trigger] users->Ok_0@[i]).reads(rows@[i])
            },
    {
        User::get_users(user_id.is_some(), rows)
    }

    /// Reads the row of one user; `NotFound` where the store does not hold
    /// it.
    pub fn get_info_by_id(row: Option<&UserRow>) -> (user: Result<User, CoreError>)
        ensures
            match user {
                Ok(user) => row is Some && user.reads(*row->0),
                Err(e) => row is None && e == CoreError::NotFound(Entity::User),
            },
    {
        match row {
            Some(row) => Ok(User::from_row(row)),
            None => Err(CoreError::NotFound(Entity::User)),
        }
    }

    /// Plans the change of the manager of a user; `NotFound` where the store
    /// does not hold the user. `manager_id` is the internal id of the new
    /// manager, `None` where the request names none or the store has no such
    /// user.
    pub fn modify_manager(is_exists: bool, manager_id: Option<i32>) -> (change: Result<
        ManagerChange,
        CoreError,
    >)
        ensures
            match change {
                Ok(change) => {
                    &&& is_exists
                    &&& change.manager_id == manager_id
                    &&& change.user_role == inferred_role(manager_id is Some)
                },
                Err(e) => !is_exists && e == CoreError::NotFound(Entity::User),
            },
    {
        if !is_exists {
            return Err(CoreError::NotFound(Entity::User));
        }
        Ok(ManagerChange::to(manager_id))
    }

    /// Whether a role is admitted by the lowest role that a list asks for.
    fn is_role_admitted(min_role: &str, user_role: &str) -> (admitted: bool)
        ensures
            admitted == role_admitted(min_role@, user_role@),
    {
        if same_text(min_role, "Any") {
            return true;
        }
        if same_text(min_role, "Leader") {
            return same_text(user_role, "Leader");
        }
        if same_text(min_role, "Manager") {
            return same_text(user_role, "Manager") || same_text(user_role, "Leader");
        }
        false
    }

    /// Whether the actor sees the user of a row.
    fn sees(actor_role: UserRole, actor_id: i32, min_role: &str, row: &SubUserRow) -> (seen: bool)
        ensures
            seen == visible_to(actor_role, actor_id, min_role@, *row),
    {
        match actor_role {
            UserRole::Leader => User::is_role_admitted(min_role, row.user_role.as_str()),
            UserRole::Manager => {
                if row.id == actor_id {
                    return true;
                }
                match row.manager_id {
                    Some(manager_id) => manager_id == actor_id && User::is_role_admitted(
                        min_role,
                        row.user_role.as_str(),
                    ),
                    None => false,
                }
            },
            UserRole::Agent => row.id == actor_id,
        }
    }

    /// The users that an actor may pick from, out of the rows of all users,
    /// in the order of the rows. `stored_role` is the role column that the
    /// store holds for the actor, `None` where it holds no such user.
    pub fn get_sub_users(
        stored_role: Option<String>,
        user_id: i32,
        min_role: String,
        rows: &Vec<SubUserRow>,
    ) -> (users: Result<Vec<User>, CoreError>)
        ensures
            users is Ok <==> stored_role is Some,
            users is Err ==> users->Err_0 == CoreError::ActorNotFound,
            users is Ok ==> {
                let seen = visible_rows(role_of(stored_role->0@), user_id, min_role@, rows@);
                &&& users->Ok_0@.len() == seen.len()
                &&& forall|i: int|
                    0 <= i < seen.len() ==> (#[trigger] users->Ok_0@[i]).reads_sub_user(seen[i])
            },
    {
        let actor_role = match User::get_role(stored_role) {
            Ok(role) => role,
            Err(e) => {
                return Err(e);
            },
        };
        let mut users: Vec<User> = Vec::new();
        let mut i: usize = 0;
        while i < rows.len()
            invariant
                i <= rows@.len(),
                users@.len() == visible_rows(
                    actor_role,
                    user_id,
                    min_role@,
                    rows@.subrange(0, i as int),
                ).len(),
                forall|j: int|
                    0 <= j < users@.len() ==> (#[trigger] users@[j]).reads_sub_user(
                        visible_rows(
                            actor_role,
                            user_id,
                            min_role@,
                            rows@.subrange(0, i as int),
                        )[j],
                    ),
            decreases rows@.len() - i,
        {
            let row = &rows[i];
            let ghost upto = rows@.subrange(0, i + 1);
            assert(upto.drop_last() =~= rows@.subrange(0, i as int));
            if User::sees(actor_role, user_id, min_role.as_str(), row) {
                users.push(
                    User {
                        id: None,
                        uuid: row.uuid,
                        email: None,
                        username: None,
                        info: UserInfo {
                            id: None,
                            full_name: Some(row.full_name.clone()),
                            phone_number: None,
                            hufa_code: None,
                            agent_code: None,
                        },
                        password: None,
                        user_role: Some(UserRole::parse(row.user_role.as_str())),
                        manager_uuid: None,
                    },
                );
            }
            i += 1;
        }
        assert(rows@.subrange(0, i as int) =~= rows@);
        Ok(users)
    }
}

/// A user that is created with a manager link is an Agent, one without is a
/// Manager; none is created a Leader.
pub proof fn lemma_no_leader_by_creation(has_manager: bool)
    ensures
        inferred_role(has_manager) != UserRole::Leader,
        has_manager ==> inferred_role(has_manager) == UserRole::Agent,
        !has_manager ==> inferred_role(has_manager) == UserRole::Manager,
{
}

} // verus!
