//! The four operations, each on the records that were loaded for it.
//!
//! A context holds the caller and the slots that the operation reads and
//! writes. A slot is `None` when no record lives under its key. An operation
//! that fails leaves its context as it found it.

use vstd::prelude::*;
use crate::error::TodoError;
use crate::identity::Identity;
use crate::records::{slot_view, Task, UserProfile};
use crate::rules::{add_task_rule, create_profile_rule, delete_task_rule, mark_task_rule};

verus! {

/// What creating a profile works on: the caller and the slot for the
/// caller's profile.
#[derive(Clone, Debug, PartialEq, Eq)]
pub struct InitializeUser {
    pub authority: Identity,
    pub user_profile: Option<UserProfile>,
}

/// What adding a task works on: the caller, the slot of the caller's profile,
/// and the slot under the profile's `next_index`, where the new task will go.
#[derive(Clone, Debug, PartialEq, Eq)]
pub struct AddTodo {
    pub user_profile: Option<UserProfile>,
    pub todo_account: Option<Task>,
    pub authority: Identity,
}

/// What marking a task works on: the caller, the slot of the caller's
/// profile, and the slot of the task.
#[derive(Clone, Debug, PartialEq, Eq)]
pub struct MarkTodo {
    pub user_profile: Option<UserProfile>,
    pub todo_account: Option<Task>,
    pub authority: Identity,
}

/// What deleting a task works on: the caller, the slot of the caller's
/// profile, and the slot of the task.
#[derive(Clone, Debug, PartialEq, Eq)]
pub struct RemoveTodo {
    pub user_profile: Option<UserProfile>,
    pub todo_account: Option<Task>,
    pub authority: Identity,
}

/// A profile whose counters were in order is still there, with its counters
/// in order.
pub open spec fn counters_kept_in_order(
    before: Option<UserProfile>,
    after: Option<UserProfile>,
) -> bool {
    match before {
        Some(p) => p.counters_in_order() ==> (after matches Some(q) && q.counters_in_order()),
        None => true,
    }
}

/// Lets `caller` through if it is the owner written in a record.
pub fn assert_owner(owner: &Identity, caller: &Identity) -> (r: Result<(), TodoError>)
    ensures
        r == if *owner == *caller {
            Ok::<(), TodoError>(())
        } else {
            Err::<(), TodoError>(TodoError::Unauthorized)
        },
{
    if *owner == *caller {
        Ok(())
    } else {
        Err(TodoError::Unauthorized)
    }
}

/// Creates the caller's profile in a free slot, with both counters at zero.
/// Fails with `AlreadyExists` when the slot is taken.
pub fn initialize_user(ctx: &mut InitializeUser) -> (r: Result<(), TodoError>)
    ensures
        final(ctx).authority == old(ctx).authority,
        match create_profile_rule(old(ctx).user_profile, old(ctx).authority) {
            Ok(profile) => r == Ok::<(), TodoError>(()) && final(ctx).user_profile == Some(profile),
            Err(e) => r == Err::<(), TodoError>(e) && *final(ctx) == *old(ctx),
        },
{
    if ctx.user_profile.is_some() {
        return Err(TodoError::AlreadyExists);
    }
    ctx.user_profile = Some(UserProfile { owner: ctx.authority, next_index: 0, active_count: 0 });
    Ok(())
}

/// Adds a task with the given text under the profile's `next_index`, not
/// done, and raises both counters of the profile by one.
///
/// Fails with `NotFound` when there is no profile, `Unauthorized` when the
/// profile is not the caller's, `AlreadyExists` when the task's slot is
/// taken, and `CounterOverflow` when a counter is at its largest value.
pub fn add_todo(ctx: &mut AddTodo, content: String) -> (r: Result<(), TodoError>)
    ensures
        final(ctx).authority == old(ctx).authority,
        match add_task_rule(
            old(ctx).user_profile,
            slot_view(old(ctx).todo_account),
            old(ctx).authority,
            content@,
        ) {
            Ok((profile, task)) => {
                &&& r == Ok::<(), TodoError>(())
                &&& final(ctx).user_profile == Some(profile)
                &&& slot_view(final(ctx).todo_account) == Some(task)
            },
            Err(e) => r == Err::<(), TodoError>(e) && *final(ctx) == *old(ctx),
        },
        counters_kept_in_order(old(ctx).user_profile, final(ctx).user_profile),
{
    let profile = match ctx.user_profile {
        Some(profile) => profile,
        None => {
            return Err(TodoError::NotFound);
        },
    };
    assert_owner(&profile.owner, &ctx.authority)?;
    if ctx.todo_account.is_some() {
        return Err(TodoError::AlreadyExists);
    }
    let next_index = match profile.next_index.checked_add(1) {
        Some(n) => n,
        None => {
            return Err(TodoError::CounterOverflow);
        },
    };
    let active_count = match profile.active_count.checked_add(1) {
        Some(n) => n,
        None => {
            return Err(TodoError::CounterOverflow);
        },
    };
    ctx.todo_account = Some(
        Task { owner: ctx.authority, index: profile.next_index, done: false, content },
    );
    ctx.user_profile = Some(UserProfile { owner: profile.owner, next_index, active_count });
    Ok(())
}

/// Marks the task as done. Nothing else changes.
///
/// Fails with `NotFound` when the profile or the task is missing,
/// `Unauthorized` when either is not the caller's, and `AlreadyMarked` when
/// the task is done already.
pub fn mark_todo(ctx: &mut MarkTodo) -> (r: Result<(), TodoError>)
    ensures
        final(ctx).authority == old(ctx).authority,
        final(ctx).user_profile == old(ctx).user_profile,
        match mark_task_rule(
            old(ctx).user_profile,
            slot_view(old(ctx).todo_account),
            old(ctx).authority,
        ) {
            Ok(task) => {
                &&& r == Ok::<(), TodoError>(())
                &&& slot_view(final(ctx).todo_account) == Some(task)
            },
            Err(e) => r == Err::<(), TodoError>(e) && *final(ctx) == *old(ctx),
        },
{
    let profile = match ctx.user_profile {
        Some(profile) => profile,
        None => {
            return Err(TodoError::NotFound);
        },
    };
    assert_owner(&profile.owner, &ctx.authority)?;
    match &mut ctx.todo_account {
        None => Err(TodoError::NotFound),
        Some(task) => {
            assert_owner(&task.owner, &ctx.authority)?;
            if task.done {
                return Err(TodoError::AlreadyMarked);
            }
            task.done = true;
            Ok(())
        },
    }
}

/// Deletes the task: its slot becomes free and the profile's count of live
/// tasks drops by one. `next_index` stays, so the index is not given out again.
///
/// Fails with `NotFound` when the profile or the task is missing,
/// `Unauthorized` when either is not the caller's, and `CounterUnderflow`
/// when the count of live tasks is zero.
pub fn delete_todo(ctx: &mut RemoveTodo) -> (r: Result<(), TodoError>)
    ensures
        final(ctx).authority == old(ctx).authority,
        match delete_task_rule(
            old(ctx).user_profile,
            slot_view(old(ctx).todo_account),
            old(ctx).authority,
        ) {
            Ok(profile) => {
                &&& r == Ok::<(), TodoError>(())
                &&& final(ctx).user_profile == Some(profile)
                &&& final(ctx).todo_account is None
            },
            Err(e) => r == Err::<(), TodoError>(e) && *final(ctx) == *old(ctx),
        },
        counters_kept_in_order(old(ctx).user_profile, final(ctx).user_profile),
{
    let profile = match ctx.user_profile {
        Some(profile) => profile,
        None => {
            return Err(TodoError::NotFound);
        },
    };
    assert_owner(&profile.owner, &ctx.authority)?;
    match &ctx.todo_account {
        None => {
            return Err(TodoError::NotFound);
        },
        Some(task) => {
            assert_owner(&task.owner, &ctx.authority)?;
        },
    }
    let active_count = match profile.active_count.checked_sub(1) {
        Some(n) => n,
        None => {
            return Err(TodoError::CounterUnderflow);
        },
    };
    ctx.todo_account = None;
    ctx.user_profile = Some(
        UserProfile { owner: profile.owner, next_index: profile.next_index, active_count },
    );
    Ok(())
}

} // verus!
