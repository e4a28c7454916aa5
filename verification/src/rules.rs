//! What each of the four operations decides, as a function of the records it
//! is handed. Every operation checks in a fixed order and reports the first
//! check that fails; only when all pass does it say what the records become.

use vstd::prelude::*;
use crate::error::TodoError;
use crate::identity::Identity;
use crate::records::{TaskView, UserProfile};

verus! {

/// The profile found for `caller`, if there is one and it is the caller's own.
pub open spec fn owned_profile(profile: Option<UserProfile>, caller: Identity) -> Result<
    UserProfile,
    TodoError,
> {
    match profile {
        None => Err(TodoError::NotFound),
        Some(p) => if p.owner == caller {
            Ok(p)
        } else {
            Err(TodoError::Unauthorized)
        },
    }
}

/// The task found for `caller`, if there is one and it is the caller's own.
pub open spec fn owned_task(task: Option<TaskView>, caller: Identity) -> Result<
    TaskView,
    TodoError,
> {
    match task {
        None => Err(TodoError::NotFound),
        Some(t) => if t.owner == caller {
            Ok(t)
        } else {
            Err(TodoError::Unauthorized)
        },
    }
}

/// Creating a profile: refused when the slot is taken, else the fresh profile
/// of `caller`.
pub open spec fn create_profile_rule(slot: Option<UserProfile>, caller: Identity) -> Result<
    UserProfile,
    TodoError,
> {
    if slot is Some {
        Err(TodoError::AlreadyExists)
    } else {
        Ok(UserProfile::fresh(caller))
    }
}

/// Adding a task: the profile must be the caller's, the slot for the new task
/// free, and both counters below their largest value. The new task gets the
/// profile's `next_index`, and both counters grow by one.
pub open spec fn add_task_rule(
    profile: Option<UserProfile>,
    slot: Option<TaskView>,
    caller: Identity,
    content: Seq<char>,
) -> Result<(UserProfile, TaskView), TodoError> {
    match owned_profile(profile, caller) {
        Err(e) => Err(e),
        Ok(p) => if slot is Some {
            Err(TodoError::AlreadyExists)
        } else if p.next_index == u8::MAX || p.active_count == u8::MAX {
            Err(TodoError::CounterOverflow)
        } else {
            Ok(
                (
                    UserProfile {
                        owner: p.owner,
                        next_index: (p.next_index + 1) as u8,
                        active_count: (p.active_count + 1) as u8,
                    },
                    TaskView::fresh(caller, p.next_index, content),
                ),
            )
        },
    }
}

/// Marking a task: profile and task must be the caller's and the task not yet
/// done. The task comes back marked, all else as it was.
pub open spec fn mark_task_rule(
    profile: Option<UserProfile>,
    task: Option<TaskView>,
    caller: Identity,
) -> Result<TaskView, TodoError> {
    match owned_profile(profile, caller) {
        Err(e) => Err(e),
        Ok(_) => match owned_task(task, caller) {
            Err(e) => Err(e),
            Ok(t) => if t.done {
                Err(TodoError::AlreadyMarked)
            } else {
                Ok(t.marked())
            },
        },
    }
}

/// Deleting a task: profile and task must be the caller's and the count of
/// live tasks above zero. The profile comes back with that count one lower
/// and `next_index` as it was.
pub open spec fn delete_task_rule(
    profile: Option<UserProfile>,
    task: Option<TaskView>,
    caller: Identity,
) -> Result<UserProfile, TodoError> {
    match owned_profile(profile, caller) {
        Err(e) => Err(e),
        Ok(p) => match owned_task(task, caller) {
            Err(e) => Err(e),
            Ok(_) => if p.active_count == 0 {
                Err(TodoError::CounterUnderflow)
            } else {
                Ok(
                    UserProfile {
                        owner: p.owner,
                        next_index: p.next_index,
                        active_count: (p.active_count - 1) as u8,
                    },
                )
            },
        },
    }
}

} // verus!
