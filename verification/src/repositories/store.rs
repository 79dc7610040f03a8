//! The conversation with the storage layer: the commands that a script asks
//! to have run, and the replies that come back.
//!
//! The library never runs a statement itself. It names the next command, the
//! caller runs it against the database, and hands back what came of it.

use vstd::prelude::*;
use crate::repositories::tasks::{Task, TaskView};
use crate::repositories::users::{User, UserView};
use crate::text::or_blank;
use crate::trusted::clock::{clock_text, format_clock, utc_now};

verus! {

/// The pattern in which moments are shown to clients.
pub const CLOCK_PATTERN: &'static str = "%d-%m-%Y %H:%M:%S";

/// A moment as the storage layer records it: seconds and nanoseconds since
/// the Unix epoch, and the offset from Greenwich, in seconds east, at which
/// it is shown.
#[derive(Debug, Clone, Copy, PartialEq, Eq, Structural)]
pub struct Timestamp {
    pub seconds: i64,
    pub nanos: u32,
    pub offset: i32,
}

impl Timestamp {
    /// The moment as shown to clients: day, month, year and time of day. A
    /// moment outside the calendar is shown as nothing.
    pub open spec fn shown(self) -> Seq<char> {
        match clock_text(self.seconds, self.nanos, self.offset, CLOCK_PATTERN@) {
            Some(text) => text,
            None => Seq::empty(),
        }
    }

    /// Reads the machine's clock: this moment, at Greenwich. Which moment
    /// that is, only the clock says; [`Timestamp::at_greenwich`] says what
    /// becomes of its reading.
    pub fn now() -> (r: Timestamp)
        ensures
            r.offset == 0,
    {
        let (seconds, nanos) = utc_now();
        Timestamp::at_greenwich(seconds, nanos)
    }

    /// The moment that a clock reads as `seconds` and `nanos` after the
    /// Unix epoch, at Greenwich.
    pub fn at_greenwich(seconds: i64, nanos: u32) -> (r: Timestamp)
        ensures
            r == (Timestamp { seconds, nanos, offset: 0 }),
    {
        Timestamp { seconds, nanos, offset: 0 }
    }

    /// The whole seconds from the Unix epoch to this moment; none for a
    /// moment before the epoch.
    pub fn unix_seconds(&self) -> (r: u64)
        ensures
            r == if self.seconds < 0 { 0 } else { self.seconds as int },
    {
        if self.seconds < 0 {
            0
        } else {
            self.seconds as u64
        }
    }

    /// Writes the moment as it is shown to clients.
    pub fn show(&self) -> (r: String)
        ensures
            r@ == self.shown(),
    {
        or_blank(format_clock(self.seconds, self.nanos, self.offset, CLOCK_PATTERN))
    }
}

/// One statement for the storage layer, with the values it binds.
#[derive(Debug, Clone, PartialEq, Eq)]
pub enum Statement {
    InsertUser { username: String, email: String, password: String },
    SelectUserByEmail { email: String },
    SelectUserByUsername { username: String },
    SelectUserByPid { pid: u128 },
    InsertTask { user_pid: u128, title: String, done: bool },
    SelectTasksByOwner { user_pid: u128 },
    SelectTaskByIdAndOwner { id: i32, user_pid: u128 },
    SelectTaskById { id: i32 },
    DeleteTaskById { id: i32 },
    UpdateTask { id: i32, user_pid: u128, title: String, done: bool, updated_at: Timestamp },
}

/// Mathematical value of a [`Statement`].
pub enum StatementView {
    InsertUser { username: Seq<char>, email: Seq<char>, password: Seq<char> },
    SelectUserByEmail { email: Seq<char> },
    SelectUserByUsername { username: Seq<char> },
    SelectUserByPid { pid: u128 },
    InsertTask { user_pid: u128, title: Seq<char>, done: bool },
    SelectTasksByOwner { user_pid: u128 },
    SelectTaskByIdAndOwner { id: i32, user_pid: u128 },
    SelectTaskById { id: i32 },
    DeleteTaskById { id: i32 },
    UpdateTask { id: i32, user_pid: u128, title: Seq<char>, done: bool, updated_at: Timestamp },
}

impl View for Statement {
    type V = StatementView;

    open spec fn view(&self) -> StatementView {
        match self {
            Statement::InsertUser { username, email, password } => StatementView::InsertUser {
                username: username@,
                email: email@,
                password: password@,
            },
            Statement::SelectUserByEmail { email } => StatementView::SelectUserByEmail {
                email: email@,
            },
            Statement::SelectUserByUsername { username } => StatementView::SelectUserByUsername {
                username: username@,
            },
            Statement::SelectUserByPid { pid } => StatementView::SelectUserByPid { pid: *pid },
            Statement::InsertTask { user_pid, title, done } => StatementView::InsertTask {
                user_pid: *user_pid,
                title: title@,
                done: *done,
            },
            Statement::SelectTasksByOwner { user_pid } => StatementView::SelectTasksByOwner {
                user_pid: *user_pid,
            },
            Statement::SelectTaskByIdAndOwner { id, user_pid } => {
                StatementView::SelectTaskByIdAndOwner { id: *id, user_pid: *user_pid }
            },
            Statement::SelectTaskById { id } => StatementView::SelectTaskById { id: *id },
            Statement::DeleteTaskById { id } => StatementView::DeleteTaskById { id: *id },
            Statement::UpdateTask { id, user_pid, title, done, updated_at } => {
                StatementView::UpdateTask {
                    id: *id,
                    user_pid: *user_pid,
                    title: title@,
                    done: *done,
                    updated_at: *updated_at,
                }
            },
        }
    }
}

impl StatementView {
    /// The SQL text of the statement. Its parameters stand for the bound
    /// values, in the order of the fields.
    pub open spec fn sql(self) -> Seq<char> {
        match self {
            StatementView::InsertUser { .. } => "INSERT INTO users (username, email, password) VALUES ($1, $2, $3) RETURNING *"@,
            StatementView::SelectUserByEmail { .. } => "SELECT * FROM users WHERE email = $1"@,
            StatementView::SelectUserByUsername { .. } => "SELECT * FROM users WHERE username = $1"@,
            StatementView::SelectUserByPid { .. } => "SELECT * FROM users WHERE pid = $1"@,
            StatementView::InsertTask { .. } => "INSERT INTO tasks (user_pid, title, done) VALUES ($1, $2, $3) RETURNING *"@,
            StatementView::SelectTasksByOwner { .. } => "SELECT * FROM tasks WHERE user_pid = $1"@,
            StatementView::SelectTaskByIdAndOwner { .. } => "SELECT * FROM tasks WHERE id = $1 and user_pid = $2"@,
            StatementView::SelectTaskById { .. } => "SELECT * FROM tasks WHERE id = $1"@,
            StatementView::DeleteTaskById { .. } => "DELETE FROM tasks WHERE id = $1"@,
            StatementView::UpdateTask { .. } => "UPDATE tasks SET title = $3, done = $4, updated_at = $5 WHERE id = $1 AND user_pid = $2 RETURNING *"@,
        }
    }

    /// Whether the statement changes stored rows.
    pub open spec fn writes(self) -> bool {
        self is InsertUser || self is InsertTask || self is DeleteTaskById || self is UpdateTask
    }
}

impl Statement {
    /// The SQL text to run for this statement.
    pub fn sql(&self) -> (r: &'static str)
        ensures
            r@ == self@.sql(),
    {
        match self {
            Statement::InsertUser { .. } => "INSERT INTO users (username, email, password) VALUES ($1, $2, $3) RETURNING *",
            Statement::SelectUserByEmail { .. } => "SELECT * FROM users WHERE email = $1",
            Statement::SelectUserByUsername { .. } => "SELECT * FROM users WHERE username = $1",
            Statement::SelectUserByPid { .. } => "SELECT * FROM users WHERE pid = $1",
            Statement::InsertTask { .. } => "INSERT INTO tasks (user_pid, title, done) VALUES ($1, $2, $3) RETURNING *",
            Statement::SelectTasksByOwner { .. } => "SELECT * FROM tasks WHERE user_pid = $1",
            Statement::SelectTaskByIdAndOwner { .. } => "SELECT * FROM tasks WHERE id = $1 and user_pid = $2",
            Statement::SelectTaskById { .. } => "SELECT * FROM tasks WHERE id = $1",
            Statement::DeleteTaskById { .. } => "DELETE FROM tasks WHERE id = $1",
            Statement::UpdateTask { .. } => "UPDATE tasks SET title = $3, done = $4, updated_at = $5 WHERE id = $1 AND user_pid = $2 RETURNING *",
        }
    }

    /// Whether the statement changes stored rows.
    pub fn writes(&self) -> (r: bool)
        ensures
            r == self@.writes(),
    {
        match self {
            Statement::InsertUser { .. } => true,
            Statement::InsertTask { .. } => true,
            Statement::DeleteTaskById { .. } => true,
            Statement::UpdateTask { .. } => true,
            _ => false,
        }
    }
}

/// What a script asks the caller to do next.
#[derive(Debug, Clone, PartialEq, Eq)]
pub enum Command {
    /// Open a transaction.
    Begin,
    /// Run the statement, inside the open transaction if there is one.
    Execute(Statement),
    /// Commit the open transaction.
    Commit,
    /// Roll the open transaction back.
    Rollback,
}

/// Mathematical value of a [`Command`].
pub enum CommandView {
    Begin,
    Execute(StatementView),
    Commit,
    Rollback,
}

impl View for Command {
    type V = CommandView;

    open spec fn view(&self) -> CommandView {
        match self {
            Command::Begin => CommandView::Begin,
            Command::Execute(statement) => CommandView::Execute(statement@),
            Command::Commit => CommandView::Commit,
            Command::Rollback => CommandView::Rollback,
        }
    }
}

/// What the storage layer answered to a command that it carried out.
#[derive(Debug, Clone, PartialEq, Eq)]
pub enum Reply {
    /// A transaction was opened, committed or rolled back.
    Done,
    /// The user row that a statement on users returned, if it returned one.
    User(Option<User>),
    /// The task row that a statement on tasks returned, if it returned one.
    Task(Option<Task>),
    /// The task rows that a listing returned.
    Tasks(Vec<Task>),
    /// The number of rows that a delete removed.
    Affected(u64),
}

/// Mathematical value of a [`Reply`].
pub enum ReplyView {
    Done,
    User(Option<UserView>),
    Task(Option<TaskView>),
    Tasks(Seq<TaskView>),
    Affected(u64),
}

/// Mathematical value of a list of tasks.
pub open spec fn tasks_view(tasks: Seq<Task>) -> Seq<TaskView> {
    tasks.map_values(|task: Task| task@)
}

impl View for Reply {
    type V = ReplyView;

    open spec fn view(&self) -> ReplyView {
        match self {
            Reply::Done => ReplyView::Done,
            Reply::User(row) => ReplyView::User(
                match row {
                    Some(user) => Some(user@),
                    None => None,
                },
            ),
            Reply::Task(row) => ReplyView::Task(
                match row {
                    Some(task) => Some(task@),
                    None => None,
                },
            ),
            Reply::Tasks(rows) => ReplyView::Tasks(tasks_view(rows@)),
            Reply::Affected(count) => ReplyView::Affected(*count),
        }
    }
}

} // verus!
