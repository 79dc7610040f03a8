//! Tasks, each owned by one user.

use vstd::prelude::*;
use crate::models::tasks::{NewTask, UpdateTask};
use crate::repositories::script::{Script, ScriptView, Step, StepView};
use crate::text::option_text;
use crate::repositories::store::{Command, CommandView, Statement, StatementView, Timestamp};

verus! {

/// A task as stored. `user_pid` is the public identifier of its owner.
#[derive(Debug, Clone, PartialEq, Eq)]
pub struct Task {
    pub id: i32,
    pub pid: u128,
    pub user_pid: u128,
    pub title: String,
    pub done: bool,
    pub created_at: Timestamp,
    pub updated_at: Timestamp,
}

/// Mathematical value of a [`Task`].
pub struct TaskView {
    pub id: i32,
    pub pid: u128,
    pub user_pid: u128,
    pub title: Seq<char>,
    pub done: bool,
    pub created_at: Timestamp,
    pub updated_at: Timestamp,
}

impl View for Task {
    type V = TaskView;

    open spec fn view(&self) -> TaskView {
        TaskView {
            id: self.id,
            pid: self.pid,
            user_pid: self.user_pid,
            title: self.title@,
            done: self.done,
            created_at: self.created_at,
            updated_at: self.updated_at,
        }
    }
}

impl TaskView {
    /// The first step of the creation of a task for `user_pid`.
    pub open spec fn creation(user_pid: u128, title: Seq<char>, done: bool) -> StepView {
        StepView::Next(ScriptView::CreateBegin { user_pid, title, done }, CommandView::Begin)
    }

    /// The first step of a listing of the tasks of `user_pid`.
    pub open spec fn listing(user_pid: u128) -> StepView {
        StepView::Next(
            ScriptView::FindAll { user_pid },
            CommandView::Execute(StatementView::SelectTasksByOwner { user_pid }),
        )
    }

    /// The first step of a read of the task `id` on behalf of `user_pid`.
    pub open spec fn reading(user_pid: u128, id: i32) -> StepView {
        StepView::Next(
            ScriptView::FindOne { id, user_pid },
            CommandView::Execute(StatementView::SelectTaskByIdAndOwner { id, user_pid }),
        )
    }

    /// The first step of a read of the task `id`, whoever owns it.
    pub open spec fn fetching(id: i32) -> StepView {
        StepView::Next(
            ScriptView::GetOne,
            CommandView::Execute(StatementView::SelectTaskById { id }),
        )
    }

    /// The first step of the deletion of the task `id` on behalf of
    /// `user_pid`.
    pub open spec fn deletion(id: i32, user_pid: u128) -> StepView {
        StepView::Next(ScriptView::DeleteBegin { id, user_pid }, CommandView::Begin)
    }

    /// The first step of an update of the task `id` on behalf of `user_pid`,
    /// stamped with the time `updated_at`.
    pub open spec fn update(
        id: i32,
        user_pid: u128,
        title: Option<Seq<char>>,
        done: bool,
        updated_at: Timestamp,
    ) -> StepView {
        StepView::Next(
            ScriptView::UpdateBegin { id, user_pid, title, done, updated_at },
            CommandView::Begin,
        )
    }
}

impl Task {
    /// Starts the creation of a task owned by `user_pid`. The script opens a
    /// transaction, inserts the task, and commits; an owner who does not
    /// exist ends it with `Unauthorised`.
    pub fn create_task(params: &NewTask, user_pid: u128) -> (r: Step)
        ensures
            r@ == TaskView::creation(user_pid, params.title@, params.done),
    {
        Step::Next(
            Script::CreateBegin { user_pid, title: params.title.clone(), done: params.done },
            Command::Begin,
        )
    }

    /// Starts a listing of the tasks that `user_pid` owns. It ends with
    /// those tasks and no others.
    pub fn find_all(user_pid: u128) -> (r: Step)
        ensures
            r@ == TaskView::listing(user_pid),
    {
        Step::Next(
            Script::FindAll { user_pid },
            Command::Execute(Statement::SelectTasksByOwner { user_pid }),
        )
    }

    /// Starts a read of the task `id` on behalf of `user_pid`. It ends with
    /// the task if `user_pid` owns it; a task of another owner is answered
    /// as a task that does not exist, with `EntityNotFound`.
    pub fn find_by_id(user_pid: u128, id: i32) -> (r: Step)
        ensures
            r@ == TaskView::reading(user_pid, id),
    {
        Step::Next(
            Script::FindOne { id, user_pid },
            Command::Execute(Statement::SelectTaskByIdAndOwner { id, user_pid }),
        )
    }

    /// Starts the deletion of the task `id` on behalf of `user_pid`. Inside
    /// one transaction the script reads the task, ends with `EntityNotFound`
    /// if there is none and with `Unauthorised` if another user owns it, and
    /// only then deletes. If more than one row went, it rolls back.
    pub fn delete_by_id(id: i32, user_pid: u128) -> (r: Step)
        ensures
            r@ == TaskView::deletion(id, user_pid),
    {
        Step::Next(Script::DeleteBegin { id, user_pid }, Command::Begin)
    }

    /// Starts an update of the task `id` on behalf of `user_pid`, stamped
    /// with the time `updated_at`. Inside one transaction the script reads
    /// the task, ends with `EntityNotFound` if there is none and with
    /// `Unauthorised` if another user owns it, and only then writes. A title
    /// that `params` leaves out stays as stored.
    pub fn update_by_id_at(params: &UpdateTask, id: i32, user_pid: u128, updated_at: Timestamp) -> (r:
        Step)
        ensures
            r@ == TaskView::update(id, user_pid, option_text(params.title), params.done, updated_at),
    {
        let title = match &params.title {
            Some(sent) => Some(sent.clone()),
            None => None,
        };
        Step::Next(
            Script::UpdateBegin { id, user_pid, title, done: params.done, updated_at },
            Command::Begin,
        )
    }

    /// Starts an update stamped with the time that the machine's clock
    /// shows; see [`Task::update_by_id_at`].
    pub fn update_by_id(params: &UpdateTask, id: i32, user_pid: u128) -> (r: Step)
        ensures
            exists|updated_at: Timestamp|
                r@ == TaskView::update(
                    id,
                    user_pid,
                    option_text(params.title),
                    params.done,
                    updated_at,
                ),
    {
        let updated_at = Timestamp::now();
        Task::update_by_id_at(params, id, user_pid, updated_at)
    }

    /// Starts a read of the task `id`, whoever owns it. It ends with the
    /// task, if there is one.
    pub fn get_by_id(id: i32) -> (r: Step)
        ensures
            r@ == TaskView::fetching(id),
    {
        Step::Next(Script::GetOne, Command::Execute(Statement::SelectTaskById { id }))
    }
}

} // verus!
