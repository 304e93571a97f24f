//! A single to-do item and its mathematical view.

use vstd::prelude::*;

verus! {

/// One to-do item: a number, a free-form text and a completion flag.
#[derive(Debug, PartialEq, Eq)]
pub struct Task {
    pub id: u32,
    pub text: String,
    pub done: bool,
}

/// What a task is to the contracts: its number, the characters of its text
/// and its flag.
pub ghost struct TaskView {
    pub id: nat,
    pub text: Seq<char>,
    pub done: bool,
}

impl View for Task {
    type V = TaskView;

    open spec fn view(&self) -> TaskView {
        TaskView { id: self.id as nat, text: self.text@, done: self.done }
    }
}

impl Task {
    /// A task that is not done yet.
    pub fn new(id: u32, text: String) -> (task: Task)
        ensures
            task@ == (TaskView { id: id as nat, text: text@, done: false }),
    {
        Task { id, text, done: false }
    }
}

} // verus!
