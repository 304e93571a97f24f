//! The task store: the ordered list of tasks and the operations on it.
//!
//! A store is whatever the document held, in the document's order. Nothing
//! here assumes that the numbers in it are distinct: a new task is numbered by
//! the length of the store, so after a deletion a number can come twice, and
//! every operation is defined for such a store too.

use vstd::prelude::*;
use crate::task::{Task, TaskView};
use crate::text::{decimal, decimal_string, texts};

verus! {

/// The directory under the user's home directory that holds the document.
pub const STORE_DIR: &'static str = ".task_manager";

/// The name of the document in that directory.
pub const STORE_FILE: &'static str = "tasks.json";

/// The tasks of one document, in insertion order.
#[derive(Debug, PartialEq, Eq)]
pub struct TaskStore {
    pub tasks: Vec<Task>,
}

impl View for TaskStore {
    type V = Seq<TaskView>;

    open spec fn view(&self) -> Seq<TaskView> {
        views(self.tasks@)
    }
}

/// The views of a sequence of tasks, in the same order.
pub open spec fn views(tasks: Seq<Task>) -> Seq<TaskView> {
    tasks.map_values(|task: Task| task@)
}

/// The store after a task with the given text was added: the new task comes
/// last, is not done, and is numbered one more than the tasks before it.
pub open spec fn with_added(store: Seq<TaskView>, text: Seq<char>) -> Seq<TaskView> {
    store.push(TaskView { id: store.len() + 1, text, done: false })
}

/// A task after the flag of number `id` was set to `done`: changed only if it
/// bears that number, and then only in its flag.
pub open spec fn flagged(task: TaskView, id: nat, done: bool) -> TaskView {
    if task.id == id {
        TaskView { done, ..task }
    } else {
        task
    }
}

/// The store after the flag of number `id` was set to `done`, on every task
/// that bears the number.
pub open spec fn with_flag(store: Seq<TaskView>, id: nat, done: bool) -> Seq<TaskView> {
    store.map_values(|task: TaskView| flagged(task, id, done))
}

/// Whether some task of the store bears the number `id`.
pub open spec fn has_id(store: Seq<TaskView>, id: nat) -> bool {
    exists|i: int| 0 <= i < store.len() && (#[trigger] store[i]).id == id
}

/// The store without the tasks that bear the number `id`; the others keep
/// their order.
pub open spec fn without(store: Seq<TaskView>, id: nat) -> Seq<TaskView> {
    store.filter(|task: TaskView| task.id != id)
}

/// The line that shows one task: a box that is ticked if the task is done,
/// the number, a colon, the text.
pub open spec fn task_line(task: TaskView) -> Seq<char> {
    (if task.done {
        "[x] "@
    } else {
        "[ ] "@
    }) + decimal(task.id) + ": "@ + task.text
}

/// The lines that show a store: one line for each task, in order, or a
/// single line that says so if there is none.
pub open spec fn listing(store: Seq<TaskView>) -> Seq<Seq<char>> {
    if store.len() == 0 {
        seq!["No tasks yet."@]
    } else {
        store.map_values(|task: TaskView| task_line(task))
    }
}

/// What a store is once a document was read: the tasks of the document, or
/// nothing where there was no document or none that could be read.
pub open spec fn loaded(document: Option<Seq<TaskView>>) -> Seq<TaskView> {
    match document {
        Some(tasks) => tasks,
        None => Seq::empty(),
    }
}

/// How `without` treats the last task of a store.
proof fn lemma_without_last(store: Seq<TaskView>, id: nat)
    requires
        store.len() > 0,
    ensures
        without(store, id) == if store.last().id != id {
            without(store.drop_last(), id).push(store.last())
        } else {
            without(store.drop_last(), id)
        },
{
    reveal(Seq::filter);
}

impl TaskStore {
    /// A store with no task in it.
    pub fn new() -> (store: TaskStore)
        ensures
            store@ == Seq::<TaskView>::empty(),
    {
        TaskStore { tasks: Vec::new() }
    }

    /// The store of a document that was read, or an empty store where the
    /// document was missing or could not be read.
    pub fn load(document: Option<Vec<Task>>) -> (store: TaskStore)
        ensures
            store@ == loaded(
                match document {
                    Some(tasks) => Some(views(tasks@)),
                    None => None,
                },
            ),
    {
        match document {
            Some(tasks) => TaskStore { tasks },
            None => TaskStore { tasks: Vec::new() },
        }
    }

    /// Appends a task with the given text and returns its number, which is
    /// the new length of the store.
    pub fn add_task(&mut self, text: String) -> (id: u32)
        requires
            old(self)@.len() < u32::MAX,
        ensures
            final(self)@ == with_added(old(self)@, text@),
            id == old(self)@.len() + 1,
    {
        let id = (self.tasks.len() as u32) + 1;
        self.tasks.push(Task::new(id, text));
        id
    }

    /// Sets the flag of every task numbered `id` to `done`.
    fn set_done(&mut self, id: u32, done: bool)
        ensures
            final(self)@ == with_flag(old(self)@, id as nat, done),
    {
        let n = self.tasks.len();
        let mut i: usize = 0;
        while i < n
            invariant
                i <= n,
                n == self.tasks@.len(),
                n == old(self).tasks@.len(),
                forall|j: int|
                    0 <= j < i ==> (#[trigger] self.tasks@[j])@ == flagged(
                        old(self).tasks@[j]@,
                        id as nat,
                        done,
                    ),
                forall|j: int| i <= j < n ==> #[trigger] self.tasks@[j] == old(self).tasks@[j],
            decreases n - i,
        {
            if self.tasks[i].id == id {
                self.tasks[i].done = done;
            }
            i += 1;
        }
    }

    /// Marks every task numbered `id` as done.
    pub fn done(&mut self, id: u32)
        ensures
            final(self)@ == with_flag(old(self)@, id as nat, true),
    {
        self.set_done(id, true);
    }

    /// Marks every task numbered `id` as not done.
    pub fn undone(&mut self, id: u32)
        ensures
            final(self)@ == with_flag(old(self)@, id as nat, false),
    {
        self.set_done(id, false);
    }

    /// Removes every task numbered `id` and says whether there was one.
    pub fn delete(&mut self, id: u32) -> (deleted: bool)
        ensures
            final(self)@ == without(old(self)@, id as nat),
            deleted == has_id(old(self)@, id as nat),
            !deleted ==> final(self)@ == old(self)@,
    {
        let mut all: Vec<Task> = Vec::new();
        core::mem::swap(&mut all, &mut self.tasks);
        let n = all.len();
        let ghost before = views(all@);
        let ghost tasks = all@;
        let mut kept: Vec<Task> = Vec::new();
        for task in it: all
            invariant
                it.seq() == tasks,
                before == views(tasks),
                views(kept@) == without(before.take(it.index()), id as nat),
                kept@.len() <= it.index(),
                kept@.len() == it.index() <==> !has_id(before.take(it.index()), id as nat),
                kept@.len() == it.index() ==> views(kept@) == before.take(it.index()),
        {
            let ghost k = it.index();
            let ghost seen = before.take(k + 1);
            proof {
                assert(seen.drop_last() == before.take(k));
                lemma_without_last(seen, id as nat);
            }
            if task.id != id {
                kept.push(task);
            }
        }
        assert(before.take(n as int) == before);
        let deleted = kept.len() != n;
        self.tasks = kept;
        deleted
    }

    /// The lines that show the store.
    pub fn list_tasks(&self) -> (lines: Vec<String>)
        ensures
            texts(lines@) == listing(self@),
    {
        let mut lines: Vec<String> = Vec::new();
        if self.tasks.len() == 0 {
            lines.push("No tasks yet.".to_owned());
            return lines;
        }
        let n = self.tasks.len();
        let mut i: usize = 0;
        while i < n
            invariant
                i <= n,
                n == self.tasks@.len(),
                lines@.len() == i,
                forall|j: int| 0 <= j < i ==> (#[trigger] lines@[j])@ == task_line(self.tasks@[j]@),
            decreases n - i,
        {
            let task = &self.tasks[i];
            let mut line = if task.done {
                "[x] ".to_owned()
            } else {
                "[ ] ".to_owned()
            };
            line.append(decimal_string(task.id).as_str());
            line.append(": ");
            line.append(task.text.as_str());
            lines.push(line);
            i += 1;
        }
        lines
    }
}

} // verus!
