//! Operations on users and tasks as scripts: each names the command to run
//! next and decides, from the reply, how to go on.
//!
//! A mutating operation runs inside one transaction. It reads the row, checks
//! that the caller owns it, and only then writes; any failure after the
//! transaction was opened rolls it back before the failure is reported.

use vstd::prelude::*;
use crate::models::auth::{LoginResponse, LoginResponseView, TokenClaims};
use crate::repositories::store::{
    Command, CommandView, Reply, ReplyView, Statement, StatementView, Timestamp, tasks_view,
};
use crate::repositories::tasks::{Task, TaskView};
use crate::repositories::users::{User, UserView};
use crate::text::{option_text, same_text};
use crate::repositories::{ModelError, ModelErrorView, StorageError, StorageErrorView};
use crate::trusted::identifier::{print_uuid, uuid_parsed, uuid_text};
use crate::trusted::jwt::{rs256_signed, sign_rs256, TokenFault};
use crate::trusted::password::{argon2_check, check_password, PasswordCheck};

verus! {

/// The constraint that keeps usernames unique.
pub const USERNAME_KEY: &'static str = "users_username_key";

/// The constraint that keeps emails unique.
pub const EMAIL_KEY: &'static str = "users_email_key";

/// Where an operation stands: what it is waiting for, and what it must
/// remember until the reply comes.
#[derive(Debug, Clone, PartialEq, Eq)]
pub enum Script {
    /// Registration asked for a transaction.
    RegisterBegin { username: String, email: String, password: String },
    /// Registration asked for the insert.
    RegisterInsert,
    /// Registration asked for the commit that makes the new row final.
    RegisterCommit(User),
    /// A lookup of one user asked for the row.
    FindUser,
    /// Login asked for the user with the email; it remembers the password
    /// to check, the key to sign with, the time, and a token's lifetime.
    Login { password: String, encoding_key: String, now: u64, max_age: u64 },
    /// Creation of a task asked for a transaction.
    CreateBegin { user_pid: u128, title: String, done: bool },
    /// Creation of a task asked for the insert.
    CreateInsert,
    /// Creation of a task asked for the commit that makes the new row final.
    CreateCommit(Task),
    /// A listing asked for the tasks of this owner.
    FindAll { user_pid: u128 },
    /// A read asked for the task with this id of this owner.
    FindOne { id: i32, user_pid: u128 },
    /// A read asked for the task with some id, whoever owns it.
    GetOne,
    /// Deletion asked for a transaction.
    DeleteBegin { id: i32, user_pid: u128 },
    /// Deletion asked for the row, to see who owns it.
    DeleteFetch { id: i32, user_pid: u128 },
    /// Deletion asked for the delete.
    DeleteRun,
    /// Deletion removed this many rows and asked for the commit.
    DeleteCommit(u64),
    /// Deletion removed more than one row and asked for the rollback.
    DeleteRollback,
    /// Update asked for a transaction.
    UpdateBegin { id: i32, user_pid: u128, title: Option<String>, done: bool, updated_at: Timestamp },
    /// Update asked for the row, to see who owns it.
    UpdateFetch { id: i32, user_pid: u128, title: Option<String>, done: bool, updated_at: Timestamp },
    /// Update asked for the write.
    UpdateRun,
    /// Update asked for the commit that makes the new row final.
    UpdateCommit(Task),
    /// The operation failed inside its transaction and asked for the
    /// rollback; it ends with this error.
    Abort(ModelError),
}

/// Mathematical value of a [`Script`].
pub enum ScriptView {
    RegisterBegin { username: Seq<char>, email: Seq<char>, password: Seq<char> },
    RegisterInsert,
    RegisterCommit(UserView),
    FindUser,
    Login { password: Seq<char>, encoding_key: Seq<char>, now: u64, max_age: u64 },
    CreateBegin { user_pid: u128, title: Seq<char>, done: bool },
    CreateInsert,
    CreateCommit(TaskView),
    FindAll { user_pid: u128 },
    FindOne { id: i32, user_pid: u128 },
    GetOne,
    DeleteBegin { id: i32, user_pid: u128 },
    DeleteFetch { id: i32, user_pid: u128 },
    DeleteRun,
    DeleteCommit(u64),
    DeleteRollback,
    UpdateBegin { id: i32, user_pid: u128, title: Option<Seq<char>>, done: bool, updated_at: Timestamp },
    UpdateFetch { id: i32, user_pid: u128, title: Option<Seq<char>>, done: bool, updated_at: Timestamp },
    UpdateRun,
    UpdateCommit(TaskView),
    Abort(ModelErrorView),
}

impl ScriptView {
    /// Whether the script has asked for a transaction and waits to hear
    /// that it is open.
    pub open spec fn opening(self) -> bool {
        self is RegisterBegin || self is CreateBegin || self is DeleteBegin || self is UpdateBegin
    }

    /// Whether the script waits, inside its open transaction, for the reply
    /// to a statement.
    pub open spec fn in_transaction(self) -> bool {
        self is RegisterInsert || self is CreateInsert || self is DeleteFetch || self is DeleteRun
            || self is UpdateFetch || self is UpdateRun
    }

    /// Whether the script has asked for the commit or the rollback that
    /// closes its transaction, and waits to hear of it.
    pub open spec fn closing(self) -> bool {
        self is RegisterCommit || self is CreateCommit || self is DeleteCommit
            || self is DeleteRollback || self is UpdateCommit || self is Abort
    }
}

impl View for Script {
    type V = ScriptView;

    open spec fn view(&self) -> ScriptView {
        match self {
            Script::RegisterBegin { username, email, password } => ScriptView::RegisterBegin {
                username: username@,
                email: email@,
                password: password@,
            },
            Script::RegisterInsert => ScriptView::RegisterInsert,
            Script::RegisterCommit(user) => ScriptView::RegisterCommit(user@),
            Script::FindUser => ScriptView::FindUser,
            Script::Login { password, encoding_key, now, max_age } => ScriptView::Login {
                password: password@,
                encoding_key: encoding_key@,
                now: *now,
                max_age: *max_age,
            },
            Script::CreateBegin { user_pid, title, done } => ScriptView::CreateBegin {
                user_pid: *user_pid,
                title: title@,
                done: *done,
            },
            Script::CreateInsert => ScriptView::CreateInsert,
            Script::CreateCommit(task) => ScriptView::CreateCommit(task@),
            Script::FindAll { user_pid } => ScriptView::FindAll { user_pid: *user_pid },
            Script::FindOne { id, user_pid } => ScriptView::FindOne { id: *id, user_pid: *user_pid },
            Script::GetOne => ScriptView::GetOne,
            Script::DeleteBegin { id, user_pid } => ScriptView::DeleteBegin {
                id: *id,
                user_pid: *user_pid,
            },
            Script::DeleteFetch { id, user_pid } => ScriptView::DeleteFetch {
                id: *id,
                user_pid: *user_pid,
            },
            Script::DeleteRun => ScriptView::DeleteRun,
            Script::DeleteCommit(count) => ScriptView::DeleteCommit(*count),
            Script::DeleteRollback => ScriptView::DeleteRollback,
            Script::UpdateBegin { id, user_pid, title, done, updated_at } => {
                ScriptView::UpdateBegin {
                    id: *id,
                    user_pid: *user_pid,
                    title: option_text(*title),
                    done: *done,
                    updated_at: *updated_at,
                }
            },
            Script::UpdateFetch { id, user_pid, title, done, updated_at } => {
                ScriptView::UpdateFetch {
                    id: *id,
                    user_pid: *user_pid,
                    title: option_text(*title),
                    done: *done,
                    updated_at: *updated_at,
                }
            },
            Script::UpdateRun => ScriptView::UpdateRun,
            Script::UpdateCommit(task) => ScriptView::UpdateCommit(task@),
            Script::Abort(e) => ScriptView::Abort(e@),
        }
    }
}

/// What an operation hands back when it succeeds.
#[derive(Debug, Clone, PartialEq, Eq)]
pub enum Output {
    User(User),
    Login(LoginResponse),
    Task(Task),
    MaybeTask(Option<Task>),
    Tasks(Vec<Task>),
    /// The number of rows that a deletion removed.
    Deleted(u64),
}

/// Mathematical value of an [`Output`].
pub enum OutputView {
    User(UserView),
    Login(LoginResponseView),
    Task(TaskView),
    MaybeTask(Option<TaskView>),
    Tasks(Seq<TaskView>),
    Deleted(u64),
}

impl View for Output {
    type V = OutputView;

    open spec fn view(&self) -> OutputView {
        match self {
            Output::User(user) => OutputView::User(user@),
            Output::Login(response) => OutputView::Login(response@),
            Output::Task(task) => OutputView::Task(task@),
            Output::MaybeTask(row) => OutputView::MaybeTask(
                match row {
                    Some(task) => Some(task@),
                    None => None,
                },
            ),
            Output::Tasks(rows) => OutputView::Tasks(tasks_view(rows@)),
            Output::Deleted(count) => OutputView::Deleted(*count),
        }
    }
}

/// How an operation goes on: with a command to run, or with its end.
#[derive(Debug, PartialEq, Eq)]
pub enum Step {
    /// Run the command and resume the script with the reply.
    Next(Script, Command),
    /// The operation is over; nothing more is to be run.
    Finish(Result<Output, ModelError>),
}

/// Mathematical value of a [`Step`].
pub enum StepView {
    Next(ScriptView, CommandView),
    Finish(Result<OutputView, ModelErrorView>),
}

impl View for Step {
    type V = StepView;

    open spec fn view(&self) -> StepView {
        match self {
            Step::Next(script, command) => StepView::Next(script@, command@),
            Step::Finish(result) => StepView::Finish(
                match result {
                    Ok(output) => Ok(output@),
                    Err(e) => Err(e@),
                },
            ),
        }
    }
}

/// Mathematical value of what the caller hands back after a command.
pub open spec fn reply_view(reply: Result<Reply, StorageError>) -> Result<
    ReplyView,
    StorageErrorView,
> {
    match reply {
        Ok(r) => Ok(r@),
        Err(e) => Err(e@),
    }
}

/// The failure of a statement that should have returned a row and did not.
pub open spec fn row_not_found() -> ModelErrorView {
    ModelErrorView::Sqlx(
        StorageErrorView {
            constraint: None,
            foreign_key_violation: false,
            message: "no rows returned by a query that expected to return at least one row"@,
        },
    )
}

/// The failure of a conversation in which a reply did not fit the command.
pub open spec fn out_of_turn() -> ModelErrorView {
    ModelErrorView::Database("The storage layer answered out of turn"@)
}

/// The failure of a deletion that removed more than the one row it meant.
pub open spec fn deleted_too_many() -> ModelErrorView {
    ModelErrorView::Database("Deleted more than one record"@)
}

/// The failure of a login whose user holds no readable password hash.
pub open spec fn unreadable_hash() -> ModelErrorView {
    ModelErrorView::ArgonPasswordHash("The stored password hash cannot be read"@)
}

/// What a failed insert of a user means: a broken uniqueness constraint is
/// named after the field it guards, anything else stays a storage failure.
pub open spec fn registration_failure(e: StorageErrorView) -> ModelErrorView {
    if e.constraint == Some(USERNAME_KEY@) {
        ModelErrorView::UsernameTaken
    } else if e.constraint == Some(EMAIL_KEY@) {
        ModelErrorView::EmailExists
    } else {
        ModelErrorView::Sqlx(e)
    }
}

/// What a failed insert of a task means: a broken foreign key says that the
/// owner does not exist, anything else stays a storage failure.
pub open spec fn creation_failure(e: StorageErrorView) -> ModelErrorView {
    if e.foreign_key_violation {
        ModelErrorView::Unauthorised
    } else {
        ModelErrorView::Sqlx(e)
    }
}

/// The step that gives up inside a transaction: roll back, then end with `e`.
pub open spec fn aborted(e: ModelErrorView) -> StepView {
    StepView::Next(ScriptView::Abort(e), CommandView::Rollback)
}

/// The step that ends the operation with the failure `e`.
pub open spec fn failed(e: ModelErrorView) -> StepView {
    StepView::Finish(Err(e))
}

/// How an operation goes on once the transaction it asked for was opened or
/// refused: with `next`, or with the storage failure.
pub open spec fn begun(reply: Result<ReplyView, StorageErrorView>, next: StepView) -> StepView {
    match reply {
        Ok(ReplyView::Done) => next,
        Ok(_) => failed(out_of_turn()),
        Err(e) => failed(ModelErrorView::Sqlx(e)),
    }
}

/// How an operation ends once the commit it asked for was made or refused:
/// with `output`, or with the storage failure.
pub open spec fn committed(reply: Result<ReplyView, StorageErrorView>, output: OutputView)
    -> StepView {
    match reply {
        Ok(ReplyView::Done) => StepView::Finish(Ok(output)),
        Ok(_) => failed(out_of_turn()),
        Err(e) => failed(ModelErrorView::Sqlx(e)),
    }
}

/// What a check of the password means for a login: it goes on only where
/// the stored hash accepts the password.
pub open spec fn password_outcome(check: PasswordCheck) -> Result<(), ModelErrorView> {
    match check {
        PasswordCheck::Unreadable => Err(unreadable_hash()),
        PasswordCheck::Rejected => Err(ModelErrorView::Unauthorised),
        PasswordCheck::Accepted => Ok(()),
    }
}

/// The end of a login whose password was accepted, for which signing the
/// claims came to `signed`.
pub open spec fn login_answer(user: UserView, signed: Result<Seq<char>, TokenFault>) -> Result<
    OutputView,
    ModelErrorView,
> {
    match signed {
        Err(fault) => Err(ModelErrorView::Jwt(fault)),
        Ok(token) => Ok(OutputView::Login(LoginResponseView::of(user, token))),
    }
}

/// The outcome of a login for which the storage layer found `user`: the
/// password is checked against the stored hash, claims are issued to the
/// user's public identifier from `now` for `max_age` seconds, and signed.
pub open spec fn logged_in(
    user: UserView,
    password: Seq<char>,
    encoding_key: Seq<char>,
    now: u64,
    max_age: u64,
) -> Result<OutputView, ModelErrorView> {
    match password_outcome(argon2_check(password, user.password)) {
        Err(e) => Err(e),
        Ok(_) => if now + max_age > usize::MAX {
            Err(ModelErrorView::Jwt(TokenFault::Other))
        } else {
            login_answer(
                user,
                rs256_signed(encoding_key, uuid_text(user.pid), now, (now + max_age) as u64),
            )
        },
    }
}

/// The title that an update writes: the new one if the client sent one, the
/// stored one otherwise.
pub open spec fn merged_title(sent: Option<Seq<char>>, stored: Seq<char>) -> Seq<char> {
    match sent {
        Some(title) => title,
        None => stored,
    }
}

/// The tasks among `rows` that `user_pid` owns, in their order.
pub open spec fn owned_by(rows: Seq<TaskView>, user_pid: u128) -> Seq<TaskView> {
    rows.filter(|task: TaskView| task.user_pid == user_pid)
}

/// How the script in state `script` goes on when the caller hands back
/// `reply` to the command it last asked for.
pub open spec fn resumed(script: ScriptView, reply: Result<ReplyView, StorageErrorView>)
    -> StepView {
    match script {
        ScriptView::RegisterBegin { username, email, password } => begun(
            reply,
            StepView::Next(
                ScriptView::RegisterInsert,
                CommandView::Execute(StatementView::InsertUser { username, email, password }),
            ),
        ),
        ScriptView::RegisterInsert => match reply {
            Ok(ReplyView::User(Some(user))) => StepView::Next(
                ScriptView::RegisterCommit(user),
                CommandView::Commit,
            ),
            Ok(ReplyView::User(None)) => aborted(row_not_found()),
            Ok(_) => aborted(out_of_turn()),
            Err(e) => aborted(registration_failure(e)),
        },
        ScriptView::RegisterCommit(user) => committed(reply, OutputView::User(user)),
        ScriptView::FindUser => match reply {
            Ok(ReplyView::User(Some(user))) => StepView::Finish(Ok(OutputView::User(user))),
            Ok(ReplyView::User(None)) => failed(ModelErrorView::EntityNotFound),
            Ok(_) => failed(out_of_turn()),
            Err(e) => failed(ModelErrorView::Sqlx(e)),
        },
        ScriptView::Login { password, encoding_key, now, max_age } => match reply {
            Ok(ReplyView::User(Some(user))) => StepView::Finish(
                logged_in(user, password, encoding_key, now, max_age),
            ),
            Ok(ReplyView::User(None)) => failed(ModelErrorView::Unauthorised),
            Ok(_) => failed(out_of_turn()),
            Err(e) => failed(ModelErrorView::Sqlx(e)),
        },
        ScriptView::CreateBegin { user_pid, title, done } => begun(
            reply,
            StepView::Next(
                ScriptView::CreateInsert,
                CommandView::Execute(StatementView::InsertTask { user_pid, title, done }),
            ),
        ),
        ScriptView::CreateInsert => match reply {
            Ok(ReplyView::Task(Some(task))) => StepView::Next(
                ScriptView::CreateCommit(task),
                CommandView::Commit,
            ),
            Ok(ReplyView::Task(None)) => aborted(row_not_found()),
            Ok(_) => aborted(out_of_turn()),
            Err(e) => aborted(creation_failure(e)),
        },
        ScriptView::CreateCommit(task) => committed(reply, OutputView::Task(task)),
        ScriptView::FindAll { user_pid } => match reply {
            Ok(ReplyView::Tasks(rows)) => StepView::Finish(
                Ok(OutputView::Tasks(owned_by(rows, user_pid))),
            ),
            Ok(_) => failed(out_of_turn()),
            Err(e) => failed(ModelErrorView::Sqlx(e)),
        },
        ScriptView::FindOne { id, user_pid } => match reply {
            Ok(ReplyView::Task(Some(task))) => if task.id == id && task.user_pid == user_pid {
                StepView::Finish(Ok(OutputView::Task(task)))
            } else {
                failed(ModelErrorView::EntityNotFound)
            },
            Ok(ReplyView::Task(None)) => failed(ModelErrorView::EntityNotFound),
            Ok(_) => failed(out_of_turn()),
            Err(e) => failed(ModelErrorView::Sqlx(e)),
        },
        ScriptView::GetOne => match reply {
            Ok(ReplyView::Task(row)) => StepView::Finish(Ok(OutputView::MaybeTask(row))),
            Ok(_) => failed(out_of_turn()),
            Err(e) => failed(ModelErrorView::Sqlx(e)),
        },
        ScriptView::DeleteBegin { id, user_pid } => begun(
            reply,
            StepView::Next(
                ScriptView::DeleteFetch { id, user_pid },
                CommandView::Execute(StatementView::SelectTaskById { id }),
            ),
        ),
        ScriptView::DeleteFetch { id, user_pid } => match reply {
            Ok(ReplyView::Task(Some(task))) => if task.user_pid != user_pid {
                aborted(ModelErrorView::Unauthorised)
            } else {
                StepView::Next(
                    ScriptView::DeleteRun,
                    CommandView::Execute(StatementView::DeleteTaskById { id }),
                )
            },
            Ok(ReplyView::Task(None)) => aborted(ModelErrorView::EntityNotFound),
            Ok(_) => aborted(out_of_turn()),
            Err(e) => aborted(ModelErrorView::Sqlx(e)),
        },
        ScriptView::DeleteRun => match reply {
            Ok(ReplyView::Affected(count)) => if count > 1 {
                StepView::Next(ScriptView::DeleteRollback, CommandView::Rollback)
            } else {
                StepView::Next(ScriptView::DeleteCommit(count), CommandView::Commit)
            },
            Ok(_) => aborted(out_of_turn()),
            Err(e) => aborted(ModelErrorView::Sqlx(e)),
        },
        ScriptView::DeleteCommit(count) => committed(reply, OutputView::Deleted(count)),
        ScriptView::DeleteRollback => match reply {
            Ok(_) => failed(deleted_too_many()),
            Err(e) => failed(ModelErrorView::Sqlx(e)),
        },
        ScriptView::UpdateBegin { id, user_pid, title, done, updated_at } => begun(
            reply,
            StepView::Next(
                ScriptView::UpdateFetch { id, user_pid, title, done, updated_at },
                CommandView::Execute(StatementView::SelectTaskById { id }),
            ),
        ),
        ScriptView::UpdateFetch { id, user_pid, title, done, updated_at } => match reply {
            Ok(ReplyView::Task(Some(task))) => if task.user_pid != user_pid {
                aborted(ModelErrorView::Unauthorised)
            } else {
                StepView::Next(
                    ScriptView::UpdateRun,
                    CommandView::Execute(
                        StatementView::UpdateTask {
                            id,
                            user_pid,
                            title: merged_title(title, task.title),
                            done,
                            updated_at,
                        },
                    ),
                )
            },
            Ok(ReplyView::Task(None)) => aborted(ModelErrorView::EntityNotFound),
            Ok(_) => aborted(out_of_turn()),
            Err(e) => aborted(ModelErrorView::Sqlx(e)),
        },
        ScriptView::UpdateRun => match reply {
            Ok(ReplyView::Task(Some(task))) => StepView::Next(
                ScriptView::UpdateCommit(task),
                CommandView::Commit,
            ),
            Ok(ReplyView::Task(None)) => aborted(row_not_found()),
            Ok(_) => aborted(out_of_turn()),
            Err(e) => aborted(ModelErrorView::Sqlx(e)),
        },
        ScriptView::UpdateCommit(task) => committed(reply, OutputView::Task(task)),
        ScriptView::Abort(e) => failed(e),
    }
}

} // verus!

verus! {

/// Mathematical value of the end of an operation.
pub open spec fn outcome_view(outcome: Result<Output, ModelError>) -> Result<
    OutputView,
    ModelErrorView,
> {
    match outcome {
        Ok(output) => Ok(output@),
        Err(e) => Err(e@),
    }
}

fn row_missing() -> (r: ModelError)
    ensures
        r@ == row_not_found(),
{
    ModelError::Sqlx(
        StorageError {
            constraint: None,
            foreign_key_violation: false,
            message: "no rows returned by a query that expected to return at least one row".to_owned(),
        },
    )
}

fn confused() -> (r: ModelError)
    ensures
        r@ == out_of_turn(),
{
    ModelError::Database("The storage layer answered out of turn".to_owned())
}

fn abort(e: ModelError) -> (r: Step)
    ensures
        r@ == aborted(e@),
{
    Step::Next(Script::Abort(e), Command::Rollback)
}

fn fail(e: ModelError) -> (r: Step)
    ensures
        r@ == failed(e@),
{
    Step::Finish(Err(e))
}

fn begin(reply: Result<Reply, StorageError>, next: Step) -> (r: Step)
    ensures
        r@ == begun(reply_view(reply), next@),
{
    match reply {
        Ok(Reply::Done) => next,
        Ok(_) => fail(confused()),
        Err(e) => fail(ModelError::Sqlx(e)),
    }
}

fn commit(reply: Result<Reply, StorageError>, output: Output) -> (r: Step)
    ensures
        r@ == committed(reply_view(reply), output@),
{
    match reply {
        Ok(Reply::Done) => Step::Finish(Ok(output)),
        Ok(_) => fail(confused()),
        Err(e) => fail(ModelError::Sqlx(e)),
    }
}

/// Names what a failed insert of a user means.
pub fn registration_error(e: StorageError) -> (r: ModelError)
    ensures
        r@ == registration_failure(e@),
{
    let taken = match &e.constraint {
        Some(name) => same_text(name.as_str(), USERNAME_KEY),
        None => false,
    };
    let exists = match &e.constraint {
        Some(name) => same_text(name.as_str(), EMAIL_KEY),
        None => false,
    };
    if taken {
        ModelError::UsernameTaken
    } else if exists {
        ModelError::EmailExists
    } else {
        ModelError::Sqlx(e)
    }
}

/// Names what a failed insert of a task means.
pub fn creation_error(e: StorageError) -> (r: ModelError)
    ensures
        r@ == creation_failure(e@),
{
    if e.foreign_key_violation {
        ModelError::Unauthorised
    } else {
        ModelError::Sqlx(e)
    }
}

/// Keeps the tasks that `user_pid` owns, in their order.
pub fn retain_owned(rows: Vec<Task>, user_pid: u128) -> (r: Vec<Task>)
    ensures
        tasks_view(r@) == owned_by(tasks_view(rows@), user_pid),
{
    let ghost all = rows@;
    let ghost owns = |task: TaskView| task.user_pid == user_pid;
    let mut kept: Vec<Task> = Vec::new();
    let mut rest = rows;
    let mut back: Vec<Task> = Vec::new();
    // Move the rows onto a stack, last row at the bottom.
    while rest.len() > 0
        invariant
            rest@.len() + back@.len() == all.len(),
            rest@ == all.take(rest@.len() as int),
            forall|i: int| 0 <= i < back@.len() ==> back@[i] == all[all.len() - 1 - i],
        decreases rest.len(),
    {
        let task = rest.pop().unwrap();
        back.push(task);
    }
    assert(tasks_view(all.take(0)) =~= Seq::<TaskView>::empty());
    while back.len() > 0
        invariant
            back@.len() <= all.len(),
            forall|i: int| 0 <= i < back@.len() ==> back@[i] == all[all.len() - 1 - i],
            tasks_view(kept@) == tasks_view(all.take(all.len() - back@.len())).filter(owns),
            owns == |task: TaskView| task.user_pid == user_pid,
        decreases back.len(),
    {
        let ghost done = all.len() - back@.len();
        let task = back.pop().unwrap();
        proof {
            assert(task == all[done]);
            let before = tasks_view(all.take(done));
            let after = tasks_view(all.take(done + 1));
            assert(after.drop_last() =~= before);
            assert(after.last() == task@);
            reveal(Seq::filter);
            assert(after.filter(owns) == if owns(task@) {
                before.filter(owns).push(task@)
            } else {
                before.filter(owns)
            });
            if task.user_pid == user_pid {
                assert(tasks_view(kept@.push(task)) =~= tasks_view(kept@).push(task@));
            }
        }
        if task.user_pid == user_pid {
            kept.push(task);
        }
    }
    assert(all.take(all.len() as int) =~= all);
    kept
}

/// Says what a check of the password means for a login.
pub fn judge_password(check: PasswordCheck) -> (r: Result<(), ModelError>)
    ensures
        match r {
            Ok(_) => password_outcome(check) is Ok,
            Err(e) => password_outcome(check) == Err::<(), ModelErrorView>(e@),
        },
{
    match check {
        PasswordCheck::Unreadable => Err(
            ModelError::ArgonPasswordHash("The stored password hash cannot be read".to_owned()),
        ),
        PasswordCheck::Rejected => Err(ModelError::Unauthorised),
        PasswordCheck::Accepted => Ok(()),
    }
}

/// Ends a login whose password was accepted: takes what signing the claims
/// came to, and answers with the token or with the fault.
pub fn answer_login(user: &User, signed: Result<String, TokenFault>) -> (r: Result<
    Output,
    ModelError,
>)
    ensures
        outcome_view(r) == login_answer(user@, crate::context::token_view(signed)),
{
    match signed {
        Err(fault) => Err(ModelError::Jwt(fault)),
        Ok(token) => Ok(Output::Login(LoginResponse::new(user, token.as_str()))),
    }
}

/// Decides a login for which the storage layer found `user`. The subject of
/// the claims that it signs is the user's public identifier as text, and
/// reads back as that identifier.
pub fn log_in(user: User, password: &str, encoding_key: &str, now: u64, max_age: u64) -> (r: Result<
    Output,
    ModelError,
>)
    ensures
        outcome_view(r) == logged_in(user@, password@, encoding_key@, now, max_age),
        r is Ok ==> uuid_parsed(uuid_text(user.pid)) == Some(user.pid),
{
    match judge_password(check_password(password, user.password.as_str())) {
        Err(e) => Err(e),
        Ok(_) => match TokenClaims::issue(print_uuid(user.pid), now, max_age) {
            None => Err(ModelError::Jwt(TokenFault::Other)),
            Some(claims) => {
                let signed = sign_rs256(
                    encoding_key,
                    claims.sub.as_str(),
                    claims.iat as u64,
                    claims.exp as u64,
                );
                answer_login(&user, signed)
            },
        },
    }
}

impl Script {
    /// Takes the reply to the command that the script last asked for, and
    /// says how the operation goes on.
    pub fn resume(self, reply: Result<Reply, StorageError>) -> (r: Step)
        ensures
            r@ == resumed(self@, reply_view(reply)),
    {
        match self {
            Script::RegisterBegin { username, email, password } => begin(
                reply,
                Step::Next(
                    Script::RegisterInsert,
                    Command::Execute(Statement::InsertUser { username, email, password }),
                ),
            ),
            Script::RegisterInsert => match reply {
                Ok(Reply::User(Some(user))) => Step::Next(
                    Script::RegisterCommit(user),
                    Command::Commit,
                ),
                Ok(Reply::User(None)) => abort(row_missing()),
                Ok(_) => abort(confused()),
                Err(e) => abort(registration_error(e)),
            },
            Script::RegisterCommit(user) => commit(reply, Output::User(user)),
            Script::FindUser => match reply {
                Ok(Reply::User(Some(user))) => Step::Finish(Ok(Output::User(user))),
                Ok(Reply::User(None)) => fail(ModelError::EntityNotFound),
                Ok(_) => fail(confused()),
                Err(e) => fail(ModelError::Sqlx(e)),
            },
            Script::Login { password, encoding_key, now, max_age } => match reply {
                Ok(Reply::User(Some(user))) => Step::Finish(
                    log_in(user, password.as_str(), encoding_key.as_str(), now, max_age),
                ),
                Ok(Reply::User(None)) => fail(ModelError::Unauthorised),
                Ok(_) => fail(confused()),
                Err(e) => fail(ModelError::Sqlx(e)),
            },
            Script::CreateBegin { user_pid, title, done } => begin(
                reply,
                Step::Next(
                    Script::CreateInsert,
                    Command::Execute(Statement::InsertTask { user_pid, title, done }),
                ),
            ),
            Script::CreateInsert => match reply {
                Ok(Reply::Task(Some(task))) => Step::Next(
                    Script::CreateCommit(task),
                    Command::Commit,
                ),
                Ok(Reply::Task(None)) => abort(row_missing()),
                Ok(_) => abort(confused()),
                Err(e) => abort(creation_error(e)),
            },
            Script::CreateCommit(task) => commit(reply, Output::Task(task)),
            Script::FindAll { user_pid } => match reply {
                Ok(Reply::Tasks(rows)) => Step::Finish(
                    Ok(Output::Tasks(retain_owned(rows, user_pid))),
                ),
                Ok(_) => fail(confused()),
                Err(e) => fail(ModelError::Sqlx(e)),
            },
            Script::FindOne { id, user_pid } => match reply {
                Ok(Reply::Task(Some(task))) => if task.id == id && task.user_pid == user_pid {
                    Step::Finish(Ok(Output::Task(task)))
                } else {
                    fail(ModelError::EntityNotFound)
                },
                Ok(Reply::Task(None)) => fail(ModelError::EntityNotFound),
                Ok(_) => fail(confused()),
                Err(e) => fail(ModelError::Sqlx(e)),
            },
            Script::GetOne => match reply {
                Ok(Reply::Task(row)) => Step::Finish(Ok(Output::MaybeTask(row))),
                Ok(_) => fail(confused()),
                Err(e) => fail(ModelError::Sqlx(e)),
            },
            Script::DeleteBegin { id, user_pid } => begin(
                reply,
                Step::Next(
                    Script::DeleteFetch { id, user_pid },
                    Command::Execute(Statement::SelectTaskById { id }),
                ),
            ),
            Script::DeleteFetch { id, user_pid } => match reply {
                Ok(Reply::Task(Some(task))) => if task.user_pid != user_pid {
                    abort(ModelError::Unauthorised)
                } else {
                    Step::Next(
                        Script::DeleteRun,
                        Command::Execute(Statement::DeleteTaskById { id }),
                    )
                },
                Ok(Reply::Task(None)) => abort(ModelError::EntityNotFound),
                Ok(_) => abort(confused()),
                Err(e) => abort(ModelError::Sqlx(e)),
            },
            Script::DeleteRun => match reply {
                Ok(Reply::Affected(count)) => if count > 1 {
                    Step::Next(Script::DeleteRollback, Command::Rollback)
                } else {
                    Step::Next(Script::DeleteCommit(count), Command::Commit)
                },
                Ok(_) => abort(confused()),
                Err(e) => abort(ModelError::Sqlx(e)),
            },
            Script::DeleteCommit(count) => commit(reply, Output::Deleted(count)),
            Script::DeleteRollback => match reply {
                Ok(_) => fail(ModelError::Database("Deleted more than one record".to_owned())),
                Err(e) => fail(ModelError::Sqlx(e)),
            },
            Script::UpdateBegin { id, user_pid, title, done, updated_at } => begin(
                reply,
                Step::Next(
                    Script::UpdateFetch { id, user_pid, title, done, updated_at },
                    Command::Execute(Statement::SelectTaskById { id }),
                ),
            ),
            Script::UpdateFetch { id, user_pid, title, done, updated_at } => match reply {
                Ok(Reply::Task(Some(task))) => if task.user_pid != user_pid {
                    abort(ModelError::Unauthorised)
                } else {
                    let title = match title {
                        Some(sent) => sent,
                        None => task.title,
                    };
                    Step::Next(
                        Script::UpdateRun,
                        Command::Execute(
                            Statement::UpdateTask { id, user_pid, title, done, updated_at },
                        ),
                    )
                },
                Ok(Reply::Task(None)) => abort(ModelError::EntityNotFound),
                Ok(_) => abort(confused()),
                Err(e) => abort(ModelError::Sqlx(e)),
            },
            Script::UpdateRun => match reply {
                Ok(Reply::Task(Some(task))) => Step::Next(
                    Script::UpdateCommit(task),
                    Command::Commit,
                ),
                Ok(Reply::Task(None)) => abort(row_missing()),
                Ok(_) => abort(confused()),
                Err(e) => abort(ModelError::Sqlx(e)),
            },
            Script::UpdateCommit(task) => commit(reply, Output::Task(task)),
            Script::Abort(e) => fail(e),
        }
    }
}

} // verus!
