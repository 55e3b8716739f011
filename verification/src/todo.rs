//! A task list: tasks are added at the end, marked as done and removed by
//! their position.
//!
//! The three operations are functions on a plain `Vec`, for whoever keeps
//! the list.  [`TodoContract`] keeps it in the persistent storage of a
//! contract, under the symbol `tasks`: each of its entry points loads the
//! list, applies one operation and stores what it leaves.

use crate::host;
use crate::host::{persistent_name, StorageKey, StorageKind, StorageValue};
use soroban_sdk::Env;
use vstd::prelude::*;

verus! {

/// A task of the list.
#[derive(Clone, Debug, PartialEq, Eq)]
pub struct Task {
    /// What is to be done.
    pub description: String,
    /// Whether it has been done.
    pub done: bool,
}

/// A task as a mathematical value.
pub struct TaskView {
    pub description: Seq<char>,
    pub done: bool,
}

impl View for Task {
    type V = TaskView;

    open spec fn view(&self) -> TaskView {
        TaskView { description: self.description@, done: self.done }
    }
}

/// The tasks of a list, each as a mathematical value, in the list's order.
pub open spec fn task_views(tasks: Seq<Task>) -> Seq<TaskView> {
    tasks.map_values(|task: Task| task@)
}

/// A new task: the description, not yet done.
pub open spec fn open_task(description: Seq<char>) -> TaskView {
    TaskView { description, done: false }
}

/// The task `task`, done.
pub open spec fn done_task(task: TaskView) -> TaskView {
    TaskView { description: task.description, done: true }
}

/// The list with the task at `index` marked as done, or the list itself where
/// it has no such task.
pub open spec fn marked(tasks: Seq<TaskView>, index: int) -> Seq<TaskView> {
    if 0 <= index < tasks.len() {
        tasks.update(index, done_task(tasks[index]))
    } else {
        tasks
    }
}

/// The list without the task at `index`, the tasks behind it moved up by
/// one, or the list itself where it has no such task.
pub open spec fn without(tasks: Seq<TaskView>, index: int) -> Seq<TaskView> {
    if 0 <= index < tasks.len() {
        tasks.remove(index)
    } else {
        tasks
    }
}

/// Puts a task with the given description, not yet done, at the end of the
/// list.
pub fn add_task(tasks: &mut Vec<Task>, description: String)
    ensures
        task_views(final(tasks)@) == task_views(old(tasks)@).push(open_task(description@)),
{
    tasks.push(Task { description, done: false });
}

/// Marks the task at `index` as done and says whether there is such a task.
/// The list is left as it was where there is none.
pub fn mark_done(tasks: &mut Vec<Task>, index: usize) -> (found: bool)
    ensures
        found == (index < old(tasks)@.len()),
        task_views(final(tasks)@) == marked(task_views(old(tasks)@), index as int),
        !found ==> final(tasks)@ == old(tasks)@,
{
    if index < tasks.len() {
        let description = tasks[index].description.clone();
        tasks.set(index, Task { description, done: true });
        true
    } else {
        false
    }
}

/// Takes the task at `index` out of the list and says whether there was such
/// a task.  The tasks behind it move up by one; the list is left as it was
/// where there is none.
pub fn remove_task(tasks: &mut Vec<Task>, index: usize) -> (found: bool)
    ensures
        found == (index < old(tasks)@.len()),
        found ==> final(tasks)@ == old(tasks)@.remove(index as int),
        !found ==> final(tasks)@ == old(tasks)@,
        task_views(final(tasks)@) == without(task_views(old(tasks)@), index as int),
{
    if index < tasks.len() {
        let _ = tasks.remove(index);
        true
    } else {
        false
    }
}

/// The contract of the task list.
pub struct TodoContract;

/// The text of the symbol under which the list is stored.
pub open spec fn tasks_name() -> Seq<char> {
    "tasks"@
}

/// The place of the list in storage.
pub open spec fn tasks_key() -> (StorageKind, StorageKey) {
    persistent_name(tasks_name())
}

/// The stored list, or the empty list where none was stored yet.
pub open spec fn stored_tasks(storage: Map<(StorageKind, StorageKey), StorageValue>) -> Seq<
    TaskView,
> {
    match storage.get(tasks_key()) {
        Some(StorageValue::Tasks(tasks)) => tasks,
        _ => Seq::empty(),
    }
}

/// The storage with `tasks` as the stored list.
pub open spec fn with_tasks(
    storage: Map<(StorageKind, StorageKey), StorageValue>,
    tasks: Seq<TaskView>,
) -> Map<(StorageKind, StorageKey), StorageValue> {
    storage.insert(tasks_key(), StorageValue::Tasks(tasks))
}

/// What the task list asks of its environment: a contract is running, and
/// what is stored as the list, if anything, is a list of tasks.
pub open spec fn usable(env: Env) -> bool {
    &&& host::contract_running(env)
    &&& host::contract_storage(env).contains_key(tasks_key()) ==> host::contract_storage(
        env,
    )[tasks_key()] is Tasks
}

/// The list's name is a text that the host takes as a symbol.
pub proof fn tasks_name_is_symbol()
    ensures
        host::is_symbol_text(tasks_name()),
{
    reveal_strlit("tasks");
}

impl TodoContract {
    /// The stored tasks in their order: none where no list was stored yet.
    pub fn get_tasks(env: &Env) -> (tasks: Vec<Task>)
        requires
            usable(*env),
        ensures
            task_views(tasks@) == stored_tasks(host::contract_storage(*env)),
    {
        proof {
            tasks_name_is_symbol();
        }
        match host::load_tasks(env, "tasks") {
            Some(tasks) => tasks,
            None => {
                let tasks: Vec<Task> = Vec::new();
                tasks
            },
        }
    }

    /// Puts a task with the given description, not yet done, at the end of
    /// the stored list.
    pub fn add_task(env: &mut Env, description: String)
        requires
            usable(*old(env)),
        ensures
            usable(*final(env)),
            host::contract_storage(*final(env)) == with_tasks(
                host::contract_storage(*old(env)),
                stored_tasks(host::contract_storage(*old(env))).push(open_task(description@)),
            ),
    {
        let mut tasks = Self::get_tasks(env);
        add_task(&mut tasks, description);
        proof {
            tasks_name_is_symbol();
        }
        host::store_tasks(env, "tasks", &tasks);
    }

    /// Marks the stored task at `index` as done.  Where there is no such task
    /// nothing is written.
    pub fn mark_done(env: &mut Env, index: u32)
        requires
            usable(*old(env)),
        ensures
            usable(*final(env)),
            host::contract_storage(*final(env)) == if index < stored_tasks(
                host::contract_storage(*old(env)),
            ).len() {
                with_tasks(
                    host::contract_storage(*old(env)),
                    marked(stored_tasks(host::contract_storage(*old(env))), index as int),
                )
            } else {
                host::contract_storage(*old(env))
            },
    {
        let mut tasks = Self::get_tasks(env);
        if mark_done(&mut tasks, index as usize) {
            proof {
                tasks_name_is_symbol();
            }
            host::store_tasks(env, "tasks", &tasks);
        }
    }

    /// Takes the stored task at `index` out of the list; the tasks behind it
    /// move up by one.  Where there is no such task nothing is written.
    pub fn remove_task(env: &mut Env, index: u32)
        requires
            usable(*old(env)),
        ensures
            usable(*final(env)),
            host::contract_storage(*final(env)) == if index < stored_tasks(
                host::contract_storage(*old(env)),
            ).len() {
                with_tasks(
                    host::contract_storage(*old(env)),
                    without(stored_tasks(host::contract_storage(*old(env))), index as int),
                )
            } else {
                host::contract_storage(*old(env))
            },
    {
        let mut tasks = Self::get_tasks(env);
        if remove_task(&mut tasks, index as usize) {
            proof {
                tasks_name_is_symbol();
            }
            host::store_tasks(env, "tasks", &tasks);
        }
    }
}

} // verus!
