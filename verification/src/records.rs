//! The two kinds of record: a profile per account holder and a record per task.

use vstd::prelude::*;
use crate::identity::Identity;

verus! {

/// The profile of one account holder.
///
/// `next_index` is the index that the holder's next task will get. It only
/// grows, so no index is ever given out twice. `active_count` is the number of
/// tasks of the holder that have been added and not deleted.
#[derive(Clone, Copy, Debug, PartialEq, Eq)]
pub struct UserProfile {
    pub owner: Identity,
    pub next_index: u8,
    pub active_count: u8,
}

impl UserProfile {
    /// No more tasks are live than indices were given out.
    pub open spec fn counters_in_order(&self) -> bool {
        self.active_count <= self.next_index
    }

    /// The profile that a holder starts with: no index given out, no task live.
    pub open spec fn fresh(owner: Identity) -> UserProfile {
        UserProfile { owner, next_index: 0, active_count: 0 }
    }
}

/// One task of an account holder.
///
/// `index` is the value that the owner's `next_index` had when the task was
/// added. `done` starts as `false` and can only be set to `true`.
#[derive(Clone, Debug, PartialEq, Eq)]
pub struct Task {
    pub owner: Identity,
    pub index: u8,
    pub done: bool,
    pub content: String,
}

/// The key under which a task is kept: its owner and its index.
#[derive(Clone, Copy, Debug, PartialEq, Eq, Hash)]
pub struct TaskKey {
    pub owner: Identity,
    pub index: u8,
}

/// What a task holds, with its text as a sequence of characters.
pub struct TaskView {
    pub owner: Identity,
    pub index: u8,
    pub done: bool,
    pub content: Seq<char>,
}

impl View for Task {
    type V = TaskView;

    open spec fn view(&self) -> TaskView {
        TaskView { owner: self.owner, index: self.index, done: self.done, content: self.content@ }
    }
}

impl TaskView {
    /// The task as it is when it has just been added.
    pub open spec fn fresh(owner: Identity, index: u8, content: Seq<char>) -> TaskView {
        TaskView { owner, index, done: false, content }
    }

    /// The same task, marked as done.
    pub open spec fn marked(self) -> TaskView {
        TaskView { done: true, ..self }
    }
}

/// The view of a slot that may hold a task.
pub open spec fn slot_view(slot: Option<Task>) -> Option<TaskView> {
    match slot {
        Some(task) => Some(task@),
        None => None,
    }
}

} // verus!
