//! The ledger: the records of all account holders, and the four operations
//! as calls that find the records by key, apply the operation's rules and
//! write the outcome back.

use vstd::prelude::*;
use crate::error::TodoError;
use crate::handlers::{
    add_todo,
    delete_todo,
    initialize_user,
    mark_todo,
    AddTodo,
    InitializeUser,
    MarkTodo,
    RemoveTodo,
};
use crate::identity::Identity;
use crate::laws::{
    add_task_keeps_consistent,
    create_profile_keeps_consistent,
    delete_task_keeps_consistent,
    mark_task_keeps_consistent,
};
use crate::model::LedgerView;
use crate::records::{slot_view, Task, TaskKey, UserProfile};
use crate::table::Table;

verus! {

/// Profiles and tasks, each kept under its key.
pub struct Ledger {
    profiles: Table<Identity, UserProfile>,
    tasks: Table<TaskKey, Task>,
}

impl View for Ledger {
    type V = LedgerView;

    closed spec fn view(&self) -> LedgerView {
        LedgerView {
            profiles: self.profiles.map(),
            tasks: self.tasks.map().map_values(|task: Task| task@),
        }
    }
}

impl Ledger {
    /// A ledger without any record.
    pub fn new() -> (ledger: Self)
        ensures
            ledger@ == LedgerView::empty(),
            ledger@.consistent(),
    {
        let ledger = Ledger { profiles: Table::new(), tasks: Table::new() };
        assert(ledger@.tasks =~= Map::empty());
        ledger
    }

    /// The profile kept under `owner`, if there is one.
    pub fn profile(&self, owner: &Identity) -> (r: Option<UserProfile>)
        ensures
            r == self@.profile_at(*owner),
    {
        match self.profiles.get(owner) {
            Some(profile) => Some(*profile),
            None => None,
        }
    }

    /// The task kept under `owner` and `index`, if there is one.
    pub fn task(&self, owner: &Identity, index: u8) -> (r: Option<&Task>)
        ensures
            match r {
                Some(task) => self@.task_at(TaskKey { owner: *owner, index }) == Some(task@),
                None => self@.task_at(TaskKey { owner: *owner, index }) is None,
            },
    {
        self.tasks.get(&TaskKey { owner: *owner, index })
    }

    /// Writes `record` as the profile kept under `at`, over what was there.
    /// The owner written in the record is not looked at.
    pub fn put_profile(&mut self, at: Identity, record: UserProfile)
        ensures
            final(self)@ == (LedgerView {
                profiles: old(self)@.profiles.insert(at, record),
                tasks: old(self)@.tasks,
            }),
    {
        self.profiles.insert(at, record);
    }

    /// Writes `record` as the task kept under `at`, over what was there. The
    /// owner and the index written in the record are not looked at.
    pub fn put_task(&mut self, at: TaskKey, record: Task)
        ensures
            final(self)@ == (LedgerView {
                profiles: old(self)@.profiles,
                tasks: old(self)@.tasks.insert(at, record@),
            }),
    {
        self.tasks.insert(at, record);
        assert(self@.tasks =~= old(self)@.tasks.insert(at, record@));
    }

    /// Takes the task kept under `at` out of the ledger, if there is one.
    fn take_task(&mut self, at: &TaskKey) -> (r: Option<Task>)
        ensures
            slot_view(r) == old(self)@.task_at(*at),
            final(self)@ == (LedgerView {
                profiles: old(self)@.profiles,
                tasks: old(self)@.tasks.remove(*at),
            }),
    {
        let r = self.tasks.take(at);
        assert(self@.tasks =~= old(self)@.tasks.remove(*at));
        r
    }

    /// Creates the profile of `caller`, with both counters at zero.
    ///
    /// Fails with `AlreadyExists`, and changes nothing, when a profile is
    /// kept under `caller` already.
    pub fn create_profile(&mut self, caller: Identity) -> (r: Result<(), TodoError>)
        ensures
            (final(self)@, r) == old(self)@.create_profile(caller),
            old(self)@.consistent() ==> final(self)@.consistent(),
    {
        proof {
            if self@.consistent() {
                create_profile_keeps_consistent(self@, caller);
            }
        }
        let mut ctx = InitializeUser { authority: caller, user_profile: self.profile(&caller) };
        let r = initialize_user(&mut ctx);
        if let Some(profile) = ctx.user_profile {
            self.put_profile(caller, profile);
        }
        assert(self@.profiles =~= old(self)@.create_profile(caller).0.profiles);
        r
    }

    /// Adds a task of `caller` with the given text. The task is kept under
    /// the `next_index` of the caller's profile and is not done; both
    /// counters of the profile grow by one.
    ///
    /// Fails, and changes nothing, with `NotFound` when `caller` has no
    /// profile, `Unauthorized` when the profile kept for `caller` names
    /// another owner, `AlreadyExists` when a task is kept under the new
    /// task's key, and `CounterOverflow` when a counter is at its largest
    /// value.
    pub fn add_task(&mut self, caller: Identity, content: String) -> (r: Result<(), TodoError>)
        ensures
            (final(self)@, r) == old(self)@.add_task(caller, content@),
            old(self)@.consistent() ==> final(self)@.consistent(),
    {
        proof {
            if self@.consistent() {
                add_task_keeps_consistent(self@, caller, content@);
            }
        }
        let found = self.profile(&caller);
        let r = match found {
            None => {
                let mut ctx = AddTodo { user_profile: None, todo_account: None, authority: caller };
                add_todo(&mut ctx, content)
            },
            Some(profile) => {
                let key = TaskKey { owner: caller, index: profile.next_index };
                let slot = self.take_task(&key);
                let mut ctx =
                    AddTodo { user_profile: found, todo_account: slot, authority: caller };
                let r = add_todo(&mut ctx, content);
                if let Some(task) = ctx.todo_account {
                    self.put_task(key, task);
                }
                if let Some(profile) = ctx.user_profile {
                    self.put_profile(caller, profile);
                }
                r
            },
        };
        assert(self@.profiles =~= old(self)@.add_task(caller, content@).0.profiles);
        assert(self@.tasks =~= old(self)@.add_task(caller, content@).0.tasks);
        r
    }

    /// Marks the task that `caller` keeps under index `todo_idx` as done.
    ///
    /// Fails, and changes nothing, with `NotFound` when the profile or the
    /// task is missing, `Unauthorized` when either names another owner, and
    /// `AlreadyMarked` when the task is done already.
    pub fn mark_task(&mut self, caller: Identity, todo_idx: u8) -> (r: Result<(), TodoError>)
        ensures
            (final(self)@, r) == old(self)@.mark_task(caller, todo_idx),
            old(self)@.consistent() ==> final(self)@.consistent(),
    {
        proof {
            if self@.consistent() {
                mark_task_keeps_consistent(self@, caller, todo_idx);
            }
        }
        let key = TaskKey { owner: caller, index: todo_idx };
        let found = self.profile(&caller);
        let slot = self.take_task(&key);
        let mut ctx = MarkTodo { user_profile: found, todo_account: slot, authority: caller };
        let r = mark_todo(&mut ctx);
        if let Some(task) = ctx.todo_account {
            self.put_task(key, task);
        }
        assert(self@.tasks =~= old(self)@.mark_task(caller, todo_idx).0.tasks);
        r
    }

    /// Deletes the task that `caller` keeps under index `todo_idx`, and
    /// lowers the profile's count of live tasks by one. `next_index` stays.
    ///
    /// Fails, and changes nothing, with `NotFound` when the profile or the
    /// task is missing, `Unauthorized` when either names another owner, and
    /// `CounterUnderflow` when the count of live tasks is zero.
    pub fn delete_task(&mut self, caller: Identity, todo_idx: u8) -> (r: Result<(), TodoError>)
        ensures
            (final(self)@, r) == old(self)@.delete_task(caller, todo_idx),
            old(self)@.consistent() ==> final(self)@.consistent(),
    {
        proof {
            if self@.consistent() {
                delete_task_keeps_consistent(self@, caller, todo_idx);
            }
        }
        let key = TaskKey { owner: caller, index: todo_idx };
        let found = self.profile(&caller);
        let slot = self.take_task(&key);
        let mut ctx = RemoveTodo { user_profile: found, todo_account: slot, authority: caller };
        let r = delete_todo(&mut ctx);
        if let Some(task) = ctx.todo_account {
            self.put_task(key, task);
        }
        if let Some(profile) = ctx.user_profile {
            self.put_profile(caller, profile);
        }
        assert(self@.profiles =~= old(self)@.delete_task(caller, todo_idx).0.profiles);
        assert(self@.tasks =~= old(self)@.delete_task(caller, todo_idx).0.tasks);
        r
    }
}

} // verus!
