//! A mathematical model of the storage layer: what its tables hold, and how
//! it answers each command. The laws of the repositories are stated against
//! this model; nothing here runs.

use vstd::prelude::*;
use crate::repositories::script::{resumed, out_of_turn, OutputView, ScriptView, StepView, EMAIL_KEY, USERNAME_KEY};
use crate::repositories::store::{CommandView, ReplyView, StatementView, Timestamp};
use crate::repositories::tasks::TaskView;
use crate::repositories::users::UserView;
use crate::repositories::{ModelErrorView, StorageErrorView};

verus! {

/// The rows of the two tables. Tasks are keyed by their id, which is their
/// primary key.
pub struct Tables {
    pub users: Seq<UserView>,
    pub tasks: Map<i32, TaskView>,
}

/// The state of the storage layer as one connection sees it: the committed
/// tables, and the tables of the open transaction if there is one.
pub struct Database {
    pub committed: Tables,
    pub pending: Option<Tables>,
}

/// What the storage layer makes up when it inserts a row: the id, the public
/// identifier, and the time.
pub struct Fresh {
    pub id: i32,
    pub pid: u128,
    pub now: Timestamp,
}

impl Tables {
    /// Whether a user has the username.
    pub open spec fn has_username(self, username: Seq<char>) -> bool {
        exists|i: int| 0 <= i < self.users.len() && (#[trigger] self.users[i]).username == username
    }

    /// Whether a user has the email.
    pub open spec fn has_email(self, email: Seq<char>) -> bool {
        exists|i: int| 0 <= i < self.users.len() && (#[trigger] self.users[i]).email == email
    }

    /// Whether a user has the public identifier.
    pub open spec fn has_pid(self, pid: u128) -> bool {
        exists|i: int| 0 <= i < self.users.len() && (#[trigger] self.users[i]).pid == pid
    }

    /// A user with the email, if there is one.
    pub open spec fn user_by_email(self, email: Seq<char>) -> Option<UserView> {
        if self.has_email(email) {
            Some(
                self.users[choose|i: int|
                    0 <= i < self.users.len() && (#[trigger] self.users[i]).email == email],
            )
        } else {
            None
        }
    }

    /// A user with the username, if there is one.
    pub open spec fn user_by_username(self, username: Seq<char>) -> Option<UserView> {
        if self.has_username(username) {
            Some(
                self.users[choose|i: int|
                    0 <= i < self.users.len() && (#[trigger] self.users[i]).username == username],
            )
        } else {
            None
        }
    }

    /// A user with the public identifier, if there is one.
    pub open spec fn user_by_pid(self, pid: u128) -> Option<UserView> {
        if self.has_pid(pid) {
            Some(
                self.users[choose|i: int|
                    0 <= i < self.users.len() && (#[trigger] self.users[i]).pid == pid],
            )
        } else {
            None
        }
    }

    /// The task with the id, if there is one.
    pub open spec fn task(self, id: i32) -> Option<TaskView> {
        if self.tasks.dom().contains(id) {
            Some(self.tasks[id])
        } else {
            None
        }
    }

    /// Whether `rows` lists the tasks that `user_pid` owns: each of them
    /// once, and nothing else.
    pub open spec fn lists(self, rows: Seq<TaskView>, user_pid: u128) -> bool {
        &&& rows.no_duplicates()
        &&& forall|task: TaskView| #[trigger]
            rows.contains(task) <==> self.task(task.id) == Some(task) && task.user_pid == user_pid
    }

    /// No two users share a username or an email.
    pub open spec fn users_distinct(self) -> bool {
        forall|i: int, j: int|
            0 <= i < j < self.users.len() ==> (#[trigger] self.users[i]).username != (
            #[trigger] self.users[j]).username && self.users[i].email != self.users[j].email
    }

    /// Every task is stored under its own id.
    pub open spec fn tasks_keyed(self) -> bool {
        forall|id: i32| #[trigger] self.tasks.dom().contains(id) ==> self.tasks[id].id == id
    }
}

/// The failure that the storage layer reports for a broken constraint.
pub open spec fn constraint_broken(name: Seq<char>) -> StorageErrorView {
    StorageErrorView {
        constraint: Some(name),
        foreign_key_violation: false,
        message: "duplicate key value violates unique constraint"@,
    }
}

/// The failure that the storage layer reports for a broken foreign key.
pub open spec fn owner_missing() -> StorageErrorView {
    StorageErrorView {
        constraint: Some("tasks_user_pid_fkey"@),
        foreign_key_violation: true,
        message: "insert or update on table violates foreign key constraint"@,
    }
}

/// How the tables `t` answer one statement, and what they hold afterwards.
///
/// An insert of a user is refused where the username is taken, then where
/// the email is; an insert of a task, where its owner is no user.
pub open spec fn executed(t: Tables, statement: StatementView, fresh: Fresh) -> (
    Tables,
    Result<ReplyView, StorageErrorView>,
) {
    match statement {
        StatementView::InsertUser { username, email, password } => {
            if t.has_username(username) {
                (t, Err(constraint_broken(USERNAME_KEY@)))
            } else if t.has_email(email) {
                (t, Err(constraint_broken(EMAIL_KEY@)))
            } else {
                let row = UserView {
                    id: fresh.id,
                    pid: fresh.pid,
                    username,
                    email,
                    password,
                    created_at: fresh.now,
                    updated_at: fresh.now,
                };
                (Tables { users: t.users.push(row), ..t }, Ok(ReplyView::User(Some(row))))
            }
        },
        StatementView::SelectUserByEmail { email } => (
            t,
            Ok(ReplyView::User(t.user_by_email(email))),
        ),
        StatementView::SelectUserByUsername { username } => (
            t,
            Ok(ReplyView::User(t.user_by_username(username))),
        ),
        StatementView::SelectUserByPid { pid } => (t, Ok(ReplyView::User(t.user_by_pid(pid)))),
        StatementView::InsertTask { user_pid, title, done } => {
            if !t.has_pid(user_pid) {
                (t, Err(owner_missing()))
            } else if t.tasks.dom().contains(fresh.id) {
                (t, Err(constraint_broken("tasks_pkey"@)))
            } else {
                let row = TaskView {
                    id: fresh.id,
                    pid: fresh.pid,
                    user_pid,
                    title,
                    done,
                    created_at: fresh.now,
                    updated_at: fresh.now,
                };
                (Tables { tasks: t.tasks.insert(row.id, row), ..t }, Ok(ReplyView::Task(Some(row))))
            }
        },
        StatementView::SelectTasksByOwner { user_pid } => (
            t,
            Ok(ReplyView::Tasks(choose|rows: Seq<TaskView>| t.lists(rows, user_pid))),
        ),
        StatementView::SelectTaskByIdAndOwner { id, user_pid } => (
            t,
            Ok(
                ReplyView::Task(
                    match t.task(id) {
                        Some(task) => if task.user_pid == user_pid {
                            Some(task)
                        } else {
                            None
                        },
                        None => None,
                    },
                ),
            ),
        ),
        StatementView::SelectTaskById { id } => (t, Ok(ReplyView::Task(t.task(id)))),
        StatementView::DeleteTaskById { id } => (
            Tables { tasks: t.tasks.remove(id), ..t },
            Ok(ReplyView::Affected(if t.tasks.dom().contains(id) { 1u64 } else { 0u64 })),
        ),
        StatementView::UpdateTask { id, user_pid, title, done, updated_at } => {
            match t.task(id) {
                Some(task) => if task.user_pid == user_pid {
                    let row = TaskView { title, done, updated_at, ..task };
                    (
                        Tables { tasks: t.tasks.insert(id, row), ..t },
                        Ok(ReplyView::Task(Some(row))),
                    )
                } else {
                    (t, Ok(ReplyView::Task(None)))
                },
                None => (t, Ok(ReplyView::Task(None))),
            }
        },
    }
}

impl Database {
    /// A database with the given committed tables and no open transaction.
    pub open spec fn idle(tables: Tables) -> Database {
        Database { committed: tables, pending: None }
    }

    /// The tables that a statement sees: those of the open transaction, or
    /// the committed ones.
    pub open spec fn current(self) -> Tables {
        match self.pending {
            Some(tables) => tables,
            None => self.committed,
        }
    }
}

/// How the database answers one command, and its state afterwards.
///
/// A statement outside a transaction is committed at once. A commit makes
/// the tables of the transaction the committed ones; a rollback drops them.
pub open spec fn answered(db: Database, command: CommandView, fresh: Fresh) -> (
    Database,
    Result<ReplyView, StorageErrorView>,
) {
    match command {
        CommandView::Begin => (
            Database { pending: Some(db.current()), ..db },
            Ok(ReplyView::Done),
        ),
        CommandView::Commit => (Database::idle(db.current()), Ok(ReplyView::Done)),
        CommandView::Rollback => (Database::idle(db.committed), Ok(ReplyView::Done)),
        CommandView::Execute(statement) => {
            let (tables, reply) = executed(db.current(), statement, fresh);
            match db.pending {
                Some(_) => (Database { pending: Some(tables), ..db }, reply),
                None => (Database::idle(tables), reply),
            }
        },
    }
}

/// Runs an operation from `step` against the database: each command is
/// answered by the model and the script resumed with the answer, for at most
/// `fuel` commands. The result is the database afterwards and the end of the
/// operation.
pub open spec fn driven(step: StepView, db: Database, fresh: Fresh, fuel: nat) -> (
    Database,
    Result<OutputView, ModelErrorView>,
)
    decreases fuel,
{
    match step {
        StepView::Finish(outcome) => (db, outcome),
        StepView::Next(script, command) => if fuel == 0 {
            (db, Err(out_of_turn()))
        } else {
            let (next, reply) = answered(db, command, fresh);
            driven(resumed(script, reply), next, fresh, (fuel - 1) as nat)
        },
    }
}

/// The longest conversation that any operation holds, in commands.
pub open spec fn longest() -> nat {
    5
}

/// Runs an operation from `step` to its end.
pub open spec fn ran(step: StepView, db: Database, fresh: Fresh) -> (
    Database,
    Result<OutputView, ModelErrorView>,
) {
    driven(step, db, fresh, longest())
}

} // verus!
