//! The ledger as mathematics: two maps, and what each operation makes of them.
//!
//! An operation finds its records by key. The key of a profile is the caller;
//! the key of a task is the caller and the task's index. The records found are
//! judged by the rules of the operation, and the records that the rules give
//! back are written under the same keys.

use vstd::prelude::*;
use crate::error::TodoError;
use crate::identity::Identity;
use crate::records::{TaskKey, TaskView, UserProfile};
use crate::rules::{add_task_rule, create_profile_rule, delete_task_rule, mark_task_rule};

verus! {

/// Every record of the ledger, each under its key.
pub struct LedgerView {
    pub profiles: Map<Identity, UserProfile>,
    pub tasks: Map<TaskKey, TaskView>,
}

/// How many of the indices below `bound` have a task of `owner` kept under them.
pub open spec fn live_below(tasks: Map<TaskKey, TaskView>, owner: Identity, bound: nat) -> nat
    decreases bound,
{
    if bound == 0 {
        0
    } else {
        let rest = live_below(tasks, owner, (bound - 1) as nat);
        if tasks.contains_key(TaskKey { owner, index: (bound - 1) as u8 }) {
            rest + 1
        } else {
            rest
        }
    }
}

/// Writing a task under a key adds one to the count of its owner if the key
/// was free and lies below the bound, and leaves every other count alone.
pub proof fn lemma_live_insert(
    tasks: Map<TaskKey, TaskView>,
    key: TaskKey,
    task: TaskView,
    owner: Identity,
    bound: nat,
)
    requires
        bound <= 256,
    ensures
        live_below(tasks.insert(key, task), owner, bound) == live_below(tasks, owner, bound) + (
        if key.owner == owner && key.index < bound && !tasks.contains_key(key) {
            1nat
        } else {
            0nat
        }),
    decreases bound,
{
    if bound > 0 {
        lemma_live_insert(tasks, key, task, owner, (bound - 1) as nat);
        let top = TaskKey { owner, index: (bound - 1) as u8 };
        assert(top == key <==> key.owner == owner && key.index == bound - 1);
    }
}

/// Removing the task under a key takes one from the count of its owner if
/// the key was taken and lies below the bound, and leaves every other count
/// alone.
pub proof fn lemma_live_remove(
    tasks: Map<TaskKey, TaskView>,
    key: TaskKey,
    owner: Identity,
    bound: nat,
)
    requires
        bound <= 256,
    ensures
        live_below(tasks, owner, bound) == live_below(tasks.remove(key), owner, bound) + (
        if key.owner == owner && key.index < bound && tasks.contains_key(key) {
            1nat
        } else {
            0nat
        }),
    decreases bound,
{
    if bound > 0 {
        lemma_live_remove(tasks, key, owner, (bound - 1) as nat);
        let top = TaskKey { owner, index: (bound - 1) as u8 };
        assert(top == key <==> key.owner == owner && key.index == bound - 1);
    }
}

/// Where every task of `owner` is kept under an index below `limit`, the
/// tasks counted below a bound are at most as many as the smaller of the two.
pub proof fn lemma_live_below_bound(
    tasks: Map<TaskKey, TaskView>,
    owner: Identity,
    limit: nat,
    bound: nat,
)
    requires
        bound <= 256,
        forall|key: TaskKey| #[trigger]
            tasks.contains_key(key) && key.owner == owner ==> key.index < limit,
    ensures
        live_below(tasks, owner, bound) <= if bound <= limit {
            bound
        } else {
            limit
        },
    decreases bound,
{
    if bound > 0 {
        lemma_live_below_bound(tasks, owner, limit, (bound - 1) as nat);
        if bound > limit {
            assert(!tasks.contains_key(TaskKey { owner, index: (bound - 1) as u8 }));
        }
    }
}

impl LedgerView {
    /// The number of tasks kept for `owner`.
    pub open spec fn live_count(self, owner: Identity) -> nat {
        live_below(self.tasks, owner, 256)
    }

    /// The state of a ledger on which only the four operations have worked:
    /// every record names the owner, and every task the index, under which
    /// it is kept; every task has a profile and an index that the profile
    /// has given out; and every profile counts the tasks kept for its owner.
    pub open spec fn consistent(self) -> bool {
        &&& forall|owner: Identity| #[trigger]
            self.profiles.contains_key(owner) ==> {
                &&& self.profiles[owner].owner == owner
                &&& self.profiles[owner].active_count == self.live_count(owner)
            }
        &&& forall|key: TaskKey| #[trigger]
            self.tasks.contains_key(key) ==> {
                &&& self.tasks[key].owner == key.owner
                &&& self.tasks[key].index == key.index
                &&& self.profiles.contains_key(key.owner)
                &&& key.index < self.profiles[key.owner].next_index
            }
    }

    /// The ledger without any record.
    pub open spec fn empty() -> LedgerView {
        LedgerView { profiles: Map::empty(), tasks: Map::empty() }
    }

    /// The profile kept under `owner`, if there is one.
    pub open spec fn profile_at(self, owner: Identity) -> Option<UserProfile> {
        if self.profiles.contains_key(owner) {
            Some(self.profiles[owner])
        } else {
            None
        }
    }

    /// The task kept under `key`, if there is one.
    pub open spec fn task_at(self, key: TaskKey) -> Option<TaskView> {
        if self.tasks.contains_key(key) {
            Some(self.tasks[key])
        } else {
            None
        }
    }

    /// The slot in which the next task of `caller` will be put: the one under
    /// the `next_index` of the profile kept for `caller`. Without a profile
    /// there is no such slot.
    pub open spec fn next_slot(self, caller: Identity) -> Option<TaskView> {
        match self.profile_at(caller) {
            Some(profile) => self.task_at(TaskKey { owner: caller, index: profile.next_index }),
            None => None,
        }
    }

    /// The ledger after `caller` asked for a profile, and the answer given.
    pub open spec fn create_profile(self, caller: Identity) -> (LedgerView, Result<(), TodoError>) {
        match create_profile_rule(self.profile_at(caller), caller) {
            Ok(profile) => (
                LedgerView { profiles: self.profiles.insert(caller, profile), tasks: self.tasks },
                Ok(()),
            ),
            Err(e) => (self, Err(e)),
        }
    }

    /// The ledger after `caller` asked to add a task, and the answer given.
    pub open spec fn add_task(self, caller: Identity, content: Seq<char>) -> (
        LedgerView,
        Result<(), TodoError>,
    ) {
        match add_task_rule(self.profile_at(caller), self.next_slot(caller), caller, content) {
            Ok((profile, task)) => (
                LedgerView {
                    profiles: self.profiles.insert(caller, profile),
                    tasks: self.tasks.insert(TaskKey { owner: caller, index: task.index }, task),
                },
                Ok(()),
            ),
            Err(e) => (self, Err(e)),
        }
    }

    /// The ledger after `caller` asked to mark the task with index
    /// `todo_idx`, and the answer given.
    pub open spec fn mark_task(self, caller: Identity, todo_idx: u8) -> (
        LedgerView,
        Result<(), TodoError>,
    ) {
        let key = TaskKey { owner: caller, index: todo_idx };
        match mark_task_rule(self.profile_at(caller), self.task_at(key), caller) {
            Ok(task) => (
                LedgerView { profiles: self.profiles, tasks: self.tasks.insert(key, task) },
                Ok(()),
            ),
            Err(e) => (self, Err(e)),
        }
    }

    /// The ledger after `caller` asked to delete the task with index
    /// `todo_idx`, and the answer given.
    pub open spec fn delete_task(self, caller: Identity, todo_idx: u8) -> (
        LedgerView,
        Result<(), TodoError>,
    ) {
        let key = TaskKey { owner: caller, index: todo_idx };
        match delete_task_rule(self.profile_at(caller), self.task_at(key), caller) {
            Ok(profile) => (
                LedgerView {
                    profiles: self.profiles.insert(caller, profile),
                    tasks: self.tasks.remove(key),
                },
                Ok(()),
            ),
            Err(e) => (self, Err(e)),
        }
    }
}

} // verus!
