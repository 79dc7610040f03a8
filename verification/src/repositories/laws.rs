//! What holds of the repositories, whatever the tables hold: the laws of
//! registration, login, and ownership, proved of the scripts run against the
//! model of the storage layer.

use vstd::prelude::*;
use crate::repositories::model::{answered, driven, executed, ran, Database, Fresh, Tables};
use crate::repositories::script::{
    deleted_too_many, logged_in, merged_title, owned_by, resumed, OutputView, ScriptView, StepView,
    EMAIL_KEY,
    USERNAME_KEY,
};
use crate::repositories::store::{CommandView, ReplyView, StatementView, Timestamp};
use crate::repositories::tasks::TaskView;
use crate::repositories::users::UserView;
use crate::repositories::{ModelErrorView, StorageErrorView};
use crate::trusted::password::{argon2_check, PasswordCheck};

verus! {

/// The user row that a registration stores.
pub open spec fn registered(
    username: Seq<char>,
    email: Seq<char>,
    password: Seq<char>,
    fresh: Fresh,
) -> UserView {
    UserView {
        id: fresh.id,
        pid: fresh.pid,
        username,
        email,
        password,
        created_at: fresh.now,
        updated_at: fresh.now,
    }
}

/// A registration with a username and an email that nobody has succeeds, and
/// stores the user.
pub proof fn lemma_registration_succeeds(
    tables: Tables,
    username: Seq<char>,
    email: Seq<char>,
    password: Seq<char>,
    fresh: Fresh,
)
    requires
        !tables.has_username(username),
        !tables.has_email(email),
    ensures
        ran(UserView::registration(username, email, password), Database::idle(tables), fresh) == (
            Database::idle(
                Tables {
                    users: tables.users.push(registered(username, email, password, fresh)),
                    ..tables
                },
            ),
            Ok::<OutputView, ModelErrorView>(
                OutputView::User(registered(username, email, password, fresh)),
            ),
        ),
{
    reveal_with_fuel(driven, 6);
}

/// Of two registrations with the same username or the same email, made
/// where nobody had either name or either email before, the first succeeds
/// and the second fails and stores nothing: with `UsernameTaken` where the
/// usernames are the same, with `EmailExists` where only the emails are.
pub proof fn lemma_second_registration_fails(
    tables: Tables,
    username: Seq<char>,
    email: Seq<char>,
    password: Seq<char>,
    fresh: Fresh,
    second_username: Seq<char>,
    second_email: Seq<char>,
    second_password: Seq<char>,
    second_fresh: Fresh,
)
    requires
        !tables.has_username(username),
        !tables.has_email(email),
        !tables.has_username(second_username),
        !tables.has_email(second_email),
        second_username == username || second_email == email,
    ensures
        ({
            let first = ran(
                UserView::registration(username, email, password),
                Database::idle(tables),
                fresh,
            );
            let second = ran(
                UserView::registration(second_username, second_email, second_password),
                first.0,
                second_fresh,
            );
            &&& first.1 is Ok
            &&& second.0 == first.0
            &&& second_username == username ==> second.1 == Err::<OutputView, ModelErrorView>(
                ModelErrorView::UsernameTaken,
            )
            &&& second_username != username ==> second.1 == Err::<OutputView, ModelErrorView>(
                ModelErrorView::EmailExists,
            )
        }),
{
    lemma_registration_succeeds(tables, username, email, password, fresh);
    let row = registered(username, email, password, fresh);
    let after = Tables { users: tables.users.push(row), ..tables };
    // The new row makes its username and its email taken.
    assert(after.users[tables.users.len() as int] == row);
    assert(after.has_username(username));
    assert(after.has_email(email));
    if second_username != username {
        // No other row has the second username.
        assert forall|i: int| 0 <= i < after.users.len() implies (#[trigger] after.users[i]).username
            != second_username by {
            if i < tables.users.len() {
                assert(after.users[i] == tables.users[i]);
            }
        }
    }
    // The two constraints have different names.
    reveal_strlit("users_username_key");
    reveal_strlit("users_email_key");
    assert(USERNAME_KEY@.len() != EMAIL_KEY@.len());
    reveal_with_fuel(driven, 6);
}

/// A login with an email that nobody has and a login with a wrong password
/// end alike: both with `Unauthorised`, and nothing tells them apart.
pub proof fn lemma_login_failures_alike(
    tables: Tables,
    unknown_email: Seq<char>,
    any_password: Seq<char>,
    known_email: Seq<char>,
    wrong_password: Seq<char>,
    encoding_key: Seq<char>,
    now: u64,
    max_age: u64,
    fresh: Fresh,
)
    requires
        !tables.has_email(unknown_email),
        tables.user_by_email(known_email) matches Some(user) && argon2_check(
            wrong_password,
            user.password,
        ) == PasswordCheck::Rejected,
    ensures
        ran(
            UserView::login(unknown_email, any_password, encoding_key, now, max_age),
            Database::idle(tables),
            fresh,
        ) == (
            Database::idle(tables),
            Err::<OutputView, ModelErrorView>(ModelErrorView::Unauthorised),
        ),
        ran(
            UserView::login(known_email, wrong_password, encoding_key, now, max_age),
            Database::idle(tables),
            fresh,
        ) == ran(
            UserView::login(unknown_email, any_password, encoding_key, now, max_age),
            Database::idle(tables),
            fresh,
        ),
{
    reveal_with_fuel(driven, 6);
}

/// A user who does not own a task cannot delete it: the attempt ends with
/// `Unauthorised`, and the database is as it was.
pub proof fn lemma_stranger_cannot_delete(
    tables: Tables,
    id: i32,
    task: TaskView,
    stranger: u128,
    fresh: Fresh,
)
    requires
        tables.task(id) == Some(task),
        task.user_pid != stranger,
    ensures
        ran(TaskView::deletion(id, stranger), Database::idle(tables), fresh) == (
            Database::idle(tables),
            Err::<OutputView, ModelErrorView>(ModelErrorView::Unauthorised),
        ),
{
    reveal_with_fuel(driven, 6);
}

/// A user who does not own a task cannot change it: the attempt ends with
/// `Unauthorised`, and the database is as it was.
pub proof fn lemma_stranger_cannot_update(
    tables: Tables,
    id: i32,
    task: TaskView,
    stranger: u128,
    title: Option<Seq<char>>,
    done: bool,
    updated_at: Timestamp,
    fresh: Fresh,
)
    requires
        tables.task(id) == Some(task),
        task.user_pid != stranger,
    ensures
        ran(
            TaskView::update(id, stranger, title, done, updated_at),
            Database::idle(tables),
            fresh,
        ) == (
            Database::idle(tables),
            Err::<OutputView, ModelErrorView>(ModelErrorView::Unauthorised),
        ),
{
    reveal_with_fuel(driven, 6);
}

/// A user who does not own a task cannot read it: the attempt ends as if
/// the task did not exist.
pub proof fn lemma_stranger_cannot_read(
    tables: Tables,
    id: i32,
    task: TaskView,
    stranger: u128,
    fresh: Fresh,
)
    requires
        tables.task(id) == Some(task),
        task.user_pid != stranger,
    ensures
        ran(TaskView::reading(stranger, id), Database::idle(tables), fresh) == (
            Database::idle(tables),
            Err::<OutputView, ModelErrorView>(ModelErrorView::EntityNotFound),
        ),
{
    reveal_with_fuel(driven, 6);
}

/// The owner of a task reads it back as it is stored.
pub proof fn lemma_owner_reads(tables: Tables, id: i32, task: TaskView, fresh: Fresh)
    requires
        tables.task(id) == Some(task),
        task.id == id,
    ensures
        ran(TaskView::reading(task.user_pid, id), Database::idle(tables), fresh) == (
            Database::idle(tables),
            Ok::<OutputView, ModelErrorView>(OutputView::Task(task)),
        ),
{
    reveal_with_fuel(driven, 6);
}

/// Deleting a task that does not exist ends with `EntityNotFound`, and the
/// database is as it was.
pub proof fn lemma_delete_missing(tables: Tables, id: i32, caller: u128, fresh: Fresh)
    requires
        tables.task(id) is None,
    ensures
        ran(TaskView::deletion(id, caller), Database::idle(tables), fresh) == (
            Database::idle(tables),
            Err::<OutputView, ModelErrorView>(ModelErrorView::EntityNotFound),
        ),
{
    reveal_with_fuel(driven, 6);
}

/// Deleting one's own task twice in a row succeeds the first time, removing
/// that one row, and ends with `EntityNotFound` the second time.
pub proof fn lemma_delete_twice(
    tables: Tables,
    id: i32,
    task: TaskView,
    fresh: Fresh,
    second_fresh: Fresh,
)
    requires
        tables.task(id) == Some(task),
    ensures
        ({
            let first = ran(TaskView::deletion(id, task.user_pid), Database::idle(tables), fresh);
            let second = ran(TaskView::deletion(id, task.user_pid), first.0, second_fresh);
            &&& first.0 == Database::idle(Tables { tasks: tables.tasks.remove(id), ..tables })
            &&& first.1 == Ok::<OutputView, ModelErrorView>(OutputView::Deleted(1))
            &&& second.0 == first.0
            &&& second.1 == Err::<OutputView, ModelErrorView>(ModelErrorView::EntityNotFound)
        }),
{
    reveal_with_fuel(driven, 6);
    let after = Tables { tasks: tables.tasks.remove(id), ..tables };
    assert(after.task(id) is None);
    lemma_delete_missing(after, id, task.user_pid, second_fresh);
}

/// The owner's update writes the new flag and time, and the new title if
/// one was sent; everything else of the row stays.
pub proof fn lemma_owner_updates(
    tables: Tables,
    id: i32,
    task: TaskView,
    title: Option<Seq<char>>,
    done: bool,
    updated_at: Timestamp,
    fresh: Fresh,
)
    requires
        tables.task(id) == Some(task),
    ensures
        ({
            let row = TaskView {
                title: merged_title(title, task.title),
                done,
                updated_at,
                ..task
            };
            ran(
                TaskView::update(id, task.user_pid, title, done, updated_at),
                Database::idle(tables),
                fresh,
            ) == (
                Database::idle(Tables { tasks: tables.tasks.insert(id, row), ..tables }),
                Ok::<OutputView, ModelErrorView>(OutputView::Task(row)),
            )
        }),
{
    reveal_with_fuel(driven, 6);
}

/// Creating a task for an owner who is no user ends with `Unauthorised`, and
/// the database is as it was.
pub proof fn lemma_create_needs_owner(
    tables: Tables,
    user_pid: u128,
    title: Seq<char>,
    done: bool,
    fresh: Fresh,
)
    requires
        !tables.has_pid(user_pid),
    ensures
        ran(TaskView::creation(user_pid, title, done), Database::idle(tables), fresh) == (
            Database::idle(tables),
            Err::<OutputView, ModelErrorView>(ModelErrorView::Unauthorised),
        ),
{
    reveal_with_fuel(driven, 6);
}

/// Creating a task for a user stores it with that user as its owner.
pub proof fn lemma_create_for_owner(
    tables: Tables,
    user_pid: u128,
    title: Seq<char>,
    done: bool,
    fresh: Fresh,
)
    requires
        tables.has_pid(user_pid),
        !tables.tasks.dom().contains(fresh.id),
    ensures
        ({
            let row = TaskView {
                id: fresh.id,
                pid: fresh.pid,
                user_pid,
                title,
                done,
                created_at: fresh.now,
                updated_at: fresh.now,
            };
            ran(TaskView::creation(user_pid, title, done), Database::idle(tables), fresh) == (
                Database::idle(Tables { tasks: tables.tasks.insert(fresh.id, row), ..tables }),
                Ok::<OutputView, ModelErrorView>(OutputView::Task(row)),
            )
        }),
{
    reveal_with_fuel(driven, 6);
}

/// Whatever the storage layer hands back to a listing, the caller sees only
/// tasks of their own.
pub proof fn lemma_listing_is_own(user_pid: u128, reply: Result<ReplyView, StorageErrorView>)
    ensures
        resumed(ScriptView::FindAll { user_pid }, reply) matches StepView::Finish(
            Ok(OutputView::Tasks(rows)),
        ) ==> forall|i: int| 0 <= i < rows.len() ==> (#[trigger] rows[i]).user_pid == user_pid,
{
    if let Ok(ReplyView::Tasks(handed)) = reply {
        let owns = |task: TaskView| task.user_pid == user_pid;
        handed.filter_lemma(owns);
        assert(owned_by(handed, user_pid) == handed.filter(owns));
        assert forall|i: int| 0 <= i < handed.filter(owns).len() implies (#[trigger] handed.filter(
            owns,
        )[i]).user_pid == user_pid by {
            assert(owns(handed.filter(owns)[i]));
        }
    }
}

/// Whatever the storage layer hands back to a read, the caller sees only
/// the task they asked for, and only if it is their own.
pub proof fn lemma_reading_is_own(
    id: i32,
    user_pid: u128,
    reply: Result<ReplyView, StorageErrorView>,
)
    ensures
        resumed(ScriptView::FindOne { id, user_pid }, reply) matches StepView::Finish(
            Ok(OutputView::Task(task)),
        ) ==> task.id == id && task.user_pid == user_pid,
{
}

/// A deletion that removed more than one row is never committed: the script
/// asks for the rollback, and ends with the failure of the database.
pub proof fn lemma_too_many_rolls_back(count: u64, reply: Result<ReplyView, StorageErrorView>)
    requires
        count > 1,
    ensures
        resumed(ScriptView::DeleteRun, Ok(ReplyView::Affected(count))) == StepView::Next(
            ScriptView::DeleteRollback,
            CommandView::Rollback,
        ),
        reply is Ok ==> resumed(ScriptView::DeleteRollback, reply) == StepView::Finish(
            Err(deleted_too_many()),
        ),
        resumed(ScriptView::DeleteRollback, reply) matches StepView::Finish(Err(_)),
{
}

/// No write is asked for before the row was read and its owner compared:
/// the only command that the check of ownership lets through to a write is
/// the one for the caller's own row.
pub proof fn lemma_write_follows_check(
    id: i32,
    user_pid: u128,
    title: Option<Seq<char>>,
    done: bool,
    updated_at: Timestamp,
    reply: Result<ReplyView, StorageErrorView>,
)
    ensures
        resumed(ScriptView::DeleteFetch { id, user_pid }, reply) matches StepView::Next(
            _,
            CommandView::Execute(statement),
        ) ==> {
            &&& statement == StatementView::DeleteTaskById { id }
            &&& reply matches Ok(ReplyView::Task(Some(task))) && task.user_pid == user_pid
        },
        resumed(
            ScriptView::UpdateFetch { id, user_pid, title, done, updated_at },
            reply,
        ) matches StepView::Next(_, CommandView::Execute(statement)) ==> {
            &&& statement is UpdateTask
            &&& reply matches Ok(ReplyView::Task(Some(task))) && task.user_pid == user_pid
        },
{
}

/// A statement that writes is only ever asked for inside a transaction.
pub proof fn lemma_writes_run_in_transactions(
    script: ScriptView,
    reply: Result<ReplyView, StorageErrorView>,
)
    ensures
        resumed(script, reply) matches StepView::Next(next, CommandView::Execute(statement)) ==> (
        statement.writes() ==> (script.opening() || script.in_transaction())
            && next.in_transaction()),
{
}

/// A transaction that was opened is closed before the operation ends: from
/// inside a transaction the script goes on to another statement, to the
/// commit, or to the rollback, and never straight to its end. A failure
/// inside a transaction always leads to the rollback, and the commit is
/// asked for only after a reply that was no failure.
pub proof fn lemma_transactions_are_closed(
    script: ScriptView,
    reply: Result<ReplyView, StorageErrorView>,
)
    requires
        script.in_transaction(),
    ensures
        resumed(script, reply) matches StepView::Next(next, command) && {
            ||| command is Execute && next.in_transaction()
            ||| command is Commit && next.closing() && reply is Ok
            ||| command is Rollback && next.closing()
        },
        reply is Err ==> resumed(script, reply) matches StepView::Next(
            ScriptView::Abort(_),
            CommandView::Rollback,
        ),
{
}

/// A transaction is opened at most once, and only at the start: a script
/// that asked for one goes on inside it, or ends without it if it was
/// refused; and once the script has asked to close it, the operation ends
/// with the next reply.
pub proof fn lemma_transactions_open_once(
    script: ScriptView,
    reply: Result<ReplyView, StorageErrorView>,
)
    ensures
        !(resumed(script, reply) matches StepView::Next(_, CommandView::Begin)),
        script.opening() ==> match resumed(script, reply) {
            StepView::Next(next, command) => {
                reply == Ok::<ReplyView, StorageErrorView>(ReplyView::Done) && command is Execute
                    && next.in_transaction()
            },
            StepView::Finish(outcome) => {
                reply != Ok::<ReplyView, StorageErrorView>(ReplyView::Done) && outcome is Err
            },
        },
        script.closing() ==> resumed(script, reply) is Finish,
{
}

/// An operation that changes stored rows changes none if it fails, and
/// leaves no transaction open however it ends.
pub proof fn lemma_failure_changes_nothing(script: ScriptView, tables: Tables, fresh: Fresh)
    requires
        script.opening(),
    ensures
        ({
            let end = ran(StepView::Next(script, CommandView::Begin), Database::idle(tables), fresh);
            &&& end.0.pending is None
            &&& end.1 is Err ==> end.0 == Database::idle(tables)
        }),
{
    reveal_with_fuel(driven, 6);
}

/// Who has registered can log in: with the email and a password that the
/// stored hash accepts, the login is decided on the very row that the
/// registration stored, and does not end with `Unauthorised`.
pub proof fn lemma_registered_user_logs_in(
    tables: Tables,
    username: Seq<char>,
    email: Seq<char>,
    stored_hash: Seq<char>,
    fresh: Fresh,
    password: Seq<char>,
    encoding_key: Seq<char>,
    now: u64,
    max_age: u64,
    later_fresh: Fresh,
)
    requires
        !tables.has_username(username),
        !tables.has_email(email),
        argon2_check(password, stored_hash) == PasswordCheck::Accepted,
    ensures
        ({
            let row = registered(username, email, stored_hash, fresh);
            let after = ran(
                UserView::registration(username, email, stored_hash),
                Database::idle(tables),
                fresh,
            ).0;
            let login = ran(
                UserView::login(email, password, encoding_key, now, max_age),
                after,
                later_fresh,
            );
            &&& login.0 == after
            &&& login.1 == logged_in(row, password, encoding_key, now, max_age)
            &&& login.1 != Err::<OutputView, ModelErrorView>(ModelErrorView::Unauthorised)
        }),
{
    lemma_registration_succeeds(tables, username, email, stored_hash, fresh);
    let row = registered(username, email, stored_hash, fresh);
    let after = Tables { users: tables.users.push(row), ..tables };
    assert(after.users[tables.users.len() as int] == row);
    assert(after.has_email(email));
    // Only the new row has the email, so it is the one that is found.
    let found = choose|i: int|
        0 <= i < after.users.len() && (#[trigger] after.users[i]).email == email;
    if found < tables.users.len() {
        assert(tables.users[found] == after.users[found]);
    }
    assert(after.user_by_email(email) == Some(row));
    reveal_with_fuel(driven, 6);
}

/// The first task that a user creates is, afterwards, all that the user's
/// listing shows.
pub proof fn lemma_created_task_is_listed(
    tables: Tables,
    user_pid: u128,
    title: Seq<char>,
    done: bool,
    fresh: Fresh,
    later_fresh: Fresh,
)
    requires
        tables.has_pid(user_pid),
        !tables.tasks.dom().contains(fresh.id),
        forall|id: i32| #[trigger]
            tables.tasks.dom().contains(id) ==> tables.tasks[id].user_pid != user_pid,
    ensures
        ({
            let row = TaskView {
                id: fresh.id,
                pid: fresh.pid,
                user_pid,
                title,
                done,
                created_at: fresh.now,
                updated_at: fresh.now,
            };
            let after = ran(
                TaskView::creation(user_pid, title, done),
                Database::idle(tables),
                fresh,
            ).0;
            ran(TaskView::listing(user_pid), after, later_fresh) == (
                after,
                Ok::<OutputView, ModelErrorView>(OutputView::Tasks(seq![row])),
            )
        }),
{
    lemma_create_for_owner(tables, user_pid, title, done, fresh);
    let row = TaskView {
        id: fresh.id,
        pid: fresh.pid,
        user_pid,
        title,
        done,
        created_at: fresh.now,
        updated_at: fresh.now,
    };
    let after = Tables { tasks: tables.tasks.insert(fresh.id, row), ..tables };
    // The one new row is a listing of the owner's tasks.
    let one = seq![row];
    assert(one[0] == row);
    assert forall|task: TaskView| #[trigger]
        one.contains(task) <==> (after.task(task.id) == Some(task) && task.user_pid
            == user_pid) by {
        if after.task(task.id) == Some(task) && task.user_pid == user_pid {
            if task.id != fresh.id {
                assert(tables.tasks.dom().contains(task.id));
            }
            assert(task == row);
        }
    }
    assert(after.lists(one, user_pid));
    // And every listing of them is that one row.
    let rows = choose|rows: Seq<TaskView>| after.lists(rows, user_pid);
    assert(after.lists(rows, user_pid));
    assert(one.contains(row));
    assert(rows.contains(row));
    assert forall|i: int| 0 <= i < rows.len() implies rows[i] == row by {
        assert(rows.contains(rows[i]));
    }
    if rows.len() > 1 {
        assert(rows[0] == rows[1]);
    }
    assert(rows =~= one);
    // Nothing of it is dropped, since the row is the caller's own.
    let owns = |task: TaskView| task.user_pid == user_pid;
    reveal_with_fuel(Seq::filter, 2);
    assert(one.drop_last() =~= Seq::<TaskView>::empty());
    assert(one.filter(owns) =~= one);
    assert(owned_by(one, user_pid) == one);
    reveal_with_fuel(driven, 6);
}

} // verus!
