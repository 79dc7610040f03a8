//! What clients send to create and change tasks, and how a task is shown.

use vstd::prelude::*;
use crate::repositories::tasks::{Task, TaskView};
use crate::trusted::identifier::{print_uuid, uuid_text};

verus! {

/// What a client sends to create a task.
#[derive(Debug, Clone, PartialEq, Eq)]
pub struct NewTask {
    pub title: String,
    pub done: bool,
}

/// What a client sends to change a task. A title that is left out stays as
/// it was.
#[derive(Debug, Clone, PartialEq, Eq)]
pub struct UpdateTask {
    pub title: Option<String>,
    pub done: bool,
}

/// A task as shown to clients.
#[derive(Debug, Clone, PartialEq, Eq)]
pub struct TaskResponse {
    pub id: i32,
    pub pid: String,
    pub user_pid: String,
    pub title: String,
    pub done: bool,
    pub created_at: String,
}

/// Mathematical value of a [`TaskResponse`].
pub struct TaskResponseView {
    pub id: i32,
    pub pid: Seq<char>,
    pub user_pid: Seq<char>,
    pub title: Seq<char>,
    pub done: bool,
    pub created_at: Seq<char>,
}

impl View for TaskResponse {
    type V = TaskResponseView;

    open spec fn view(&self) -> TaskResponseView {
        TaskResponseView {
            id: self.id,
            pid: self.pid@,
            user_pid: self.user_pid@,
            title: self.title@,
            done: self.done,
            created_at: self.created_at@,
        }
    }
}

impl TaskResponseView {
    /// How `task` is shown: identifiers as text, the creation time as day
    /// and time.
    pub open spec fn of(task: TaskView) -> TaskResponseView {
        TaskResponseView {
            id: task.id,
            pid: uuid_text(task.pid),
            user_pid: uuid_text(task.user_pid),
            title: task.title,
            done: task.done,
            created_at: task.created_at.shown(),
        }
    }
}

impl TaskResponse {
    /// Shows a stored task to a client.
    pub fn from(value: Task) -> (r: TaskResponse)
        ensures
            r@ == TaskResponseView::of(value@),
    {
        TaskResponse {
            id: value.id,
            pid: print_uuid(value.pid),
            user_pid: print_uuid(value.user_pid),
            created_at: value.created_at.show(),
            title: value.title,
            done: value.done,
        }
    }
}

} // verus!
