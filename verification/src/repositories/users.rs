//! Registered users.

use vstd::prelude::*;
use crate::context::JwtState;
use crate::models::auth::{LoginUser, RegisterUser};
use crate::repositories::script::{Script, ScriptView, Step, StepView};
use crate::repositories::store::{Command, CommandView, Statement, StatementView, Timestamp};
use crate::repositories::{ModelError, ModelErrorView};
use crate::trusted::password::{argon2_check, hash_password, PasswordCheck};

verus! {

/// A user as stored. The password field holds the hash, never the password.
#[derive(Debug, Clone, PartialEq, Eq)]
pub struct User {
    pub id: i32,
    pub pid: u128,
    pub username: String,
    pub email: String,
    pub password: String,
    pub created_at: Timestamp,
    pub updated_at: Timestamp,
}

/// Mathematical value of a [`User`].
pub struct UserView {
    pub id: i32,
    pub pid: u128,
    pub username: Seq<char>,
    pub email: Seq<char>,
    pub password: Seq<char>,
    pub created_at: Timestamp,
    pub updated_at: Timestamp,
}

impl View for User {
    type V = UserView;

    open spec fn view(&self) -> UserView {
        UserView {
            id: self.id,
            pid: self.pid,
            username: self.username@,
            email: self.email@,
            password: self.password@,
            created_at: self.created_at,
            updated_at: self.updated_at,
        }
    }
}

impl UserView {
    /// The first step of a registration that stores `password` as the hash.
    pub open spec fn registration(username: Seq<char>, email: Seq<char>, password: Seq<char>)
        -> StepView {
        StepView::Next(
            ScriptView::RegisterBegin { username, email, password },
            CommandView::Begin,
        )
    }

    /// The first step of a lookup of one user by `statement`.
    pub open spec fn lookup(statement: StatementView) -> StepView {
        StepView::Next(ScriptView::FindUser, CommandView::Execute(statement))
    }

    /// The first step of a login at the time `now`, with tokens signed by
    /// `encoding_key` and valid for `max_age` seconds.
    pub open spec fn login(
        email: Seq<char>,
        password: Seq<char>,
        encoding_key: Seq<char>,
        now: u64,
        max_age: u64,
    ) -> StepView {
        StepView::Next(
            ScriptView::Login { password, encoding_key, now, max_age },
            CommandView::Execute(StatementView::SelectUserByEmail { email }),
        )
    }
}

impl User {
    /// Starts the registration of a user whose password has been hashed
    /// already. The script opens a transaction, inserts the user, and
    /// commits; a username or an email that is taken ends it with
    /// `UsernameTaken` or `EmailExists`.
    pub fn create_with_hash(dto: &RegisterUser, password_hash: String) -> (r: Step)
        ensures
            r@ == UserView::registration(dto.username@, dto.email@, password_hash@),
    {
        Step::Next(
            Script::RegisterBegin {
                username: dto.username.clone(),
                email: dto.email.clone(),
                password: password_hash,
            },
            Command::Begin,
        )
    }

    /// Starts the registration of a user: hashes the password under a fresh
    /// salt, then goes on as [`User::create_with_hash`] does. Which hash is
    /// stored is open; it is one that accepts the password. If hashing
    /// fails, the operation ends before anything is run.
    pub fn create_with_password(dto: &RegisterUser) -> (r: Step)
        ensures
            match r@ {
                StepView::Next(ScriptView::RegisterBegin { username, email, password }, command) => {
                    &&& command == CommandView::Begin
                    &&& username == dto.username@
                    &&& email == dto.email@
                    &&& argon2_check(dto.password@, password) == PasswordCheck::Accepted
                },
                StepView::Finish(Err(ModelErrorView::Argon2(_))) => true,
                _ => false,
            },
    {
        match hash_password(dto.password.as_str()) {
            Ok(password_hash) => User::create_with_hash(dto, password_hash),
            Err(reason) => Step::Finish(Err(ModelError::Argon2(reason))),
        }
    }

    /// Starts the lookup of the user with the email. It ends with the user,
    /// or with `EntityNotFound`.
    pub fn find_by_email(email: &str) -> (r: Step)
        ensures
            r@ == UserView::lookup(StatementView::SelectUserByEmail { email: email@ }),
    {
        Step::Next(
            Script::FindUser,
            Command::Execute(Statement::SelectUserByEmail { email: email.to_owned() }),
        )
    }

    /// Starts the lookup of the user with the username. It ends with the
    /// user, or with `EntityNotFound`.
    pub fn find_by_username(username: &str) -> (r: Step)
        ensures
            r@ == UserView::lookup(StatementView::SelectUserByUsername { username: username@ }),
    {
        Step::Next(
            Script::FindUser,
            Command::Execute(Statement::SelectUserByUsername { username: username.to_owned() }),
        )
    }

    /// Starts the lookup of the user with the public identifier. It ends
    /// with the user, or with `EntityNotFound`.
    pub fn find_by_pid(pid: u128) -> (r: Step)
        ensures
            r@ == UserView::lookup(StatementView::SelectUserByPid { pid }),
    {
        Step::Next(Script::FindUser, Command::Execute(Statement::SelectUserByPid { pid }))
    }

    /// Starts a login at the time `now`. The script looks the user up by
    /// email, checks the password against the stored hash, and signs claims
    /// for the user's public identifier, issued at `now` and valid for the
    /// lifetime that `auth` holds. An unknown email and a wrong password
    /// both end it with `Unauthorised`.
    pub fn login_user_at(dto: &LoginUser, auth: &JwtState, now: u64) -> (r: Step)
        ensures
            r@ == UserView::login(
                dto.email@,
                dto.password@,
                auth.encoding_key@,
                now,
                auth.max_age,
            ),
    {
        Step::Next(
            Script::Login {
                password: dto.password.clone(),
                encoding_key: auth.encoding_key.clone(),
                now,
                max_age: auth.max_age,
            },
            Command::Execute(Statement::SelectUserByEmail { email: dto.email.clone() }),
        )
    }

    /// Starts a login at the time that the machine's clock shows; see
    /// [`User::login_user_at`].
    pub fn login_user(dto: &LoginUser, auth: &JwtState) -> (r: Step)
        ensures
            exists|now: u64|
                r@ == UserView::login(
                    dto.email@,
                    dto.password@,
                    auth.encoding_key@,
                    now,
                    auth.max_age,
                ),
    {
        let now = Timestamp::now().unix_seconds();
        User::login_user_at(dto, auth, now)
    }
}

} // verus!
