//! What holds of the four operations taken together, proved of the ledger as
//! mathematics. The calls of `Ledger` are proved to do exactly what that
//! mathematics says, so each statement here holds of them too.

use vstd::prelude::*;
use crate::error::TodoError;
use crate::identity::Identity;
use crate::model::{
    lemma_live_below_bound,
    lemma_live_insert,
    lemma_live_remove,
    LedgerView,
};
use crate::records::{TaskKey, TaskView, UserProfile};

verus! {

/// In a consistent ledger no profile counts more live tasks than it has
/// given out indices.
pub proof fn counters_stay_in_order(ledger: LedgerView, owner: Identity)
    requires
        ledger.consistent(),
        ledger.profiles.contains_key(owner),
    ensures
        ledger.profiles[owner].counters_in_order(),
{
    lemma_live_below_bound(ledger.tasks, owner, ledger.profiles[owner].next_index as nat, 256);
}

/// The empty ledger is consistent.
pub proof fn empty_is_consistent()
    ensures
        LedgerView::empty().consistent(),
{
}

/// Creating a profile keeps a consistent ledger consistent.
pub proof fn create_profile_keeps_consistent(ledger: LedgerView, caller: Identity)
    requires
        ledger.consistent(),
    ensures
        ledger.create_profile(caller).0.consistent(),
{
    if !ledger.profiles.contains_key(caller) {
        lemma_live_below_bound(ledger.tasks, caller, 0, 256);
    }
}

/// Adding a task keeps a consistent ledger consistent.
pub proof fn add_task_keeps_consistent(ledger: LedgerView, caller: Identity, content: Seq<char>)
    requires
        ledger.consistent(),
    ensures
        ledger.add_task(caller, content).0.consistent(),
{
    let after = ledger.add_task(caller, content).0;
    if ledger.add_task(caller, content).1 is Ok {
        let profile = ledger.profiles[caller];
        let key = TaskKey { owner: caller, index: profile.next_index };
        let task = TaskView::fresh(caller, profile.next_index, content);
        assert(after.tasks == ledger.tasks.insert(key, task));
        assert forall|owner: Identity| #[trigger] after.profiles.contains_key(owner) implies {
            &&& after.profiles[owner].owner == owner
            &&& after.profiles[owner].active_count == after.live_count(owner)
        } by {
            lemma_live_insert(ledger.tasks, key, task, owner, 256);
        }
    }
}

/// Marking a task keeps a consistent ledger consistent.
pub proof fn mark_task_keeps_consistent(ledger: LedgerView, caller: Identity, todo_idx: u8)
    requires
        ledger.consistent(),
    ensures
        ledger.mark_task(caller, todo_idx).0.consistent(),
{
    let after = ledger.mark_task(caller, todo_idx).0;
    if ledger.mark_task(caller, todo_idx).1 is Ok {
        let key = TaskKey { owner: caller, index: todo_idx };
        assert(after.tasks == ledger.tasks.insert(key, ledger.tasks[key].marked()));
        assert forall|owner: Identity| #[trigger] after.profiles.contains_key(owner) implies {
            &&& after.profiles[owner].owner == owner
            &&& after.profiles[owner].active_count == after.live_count(owner)
        } by {
            lemma_live_insert(ledger.tasks, key, ledger.tasks[key].marked(), owner, 256);
        }
    }
}

/// Deleting a task keeps a consistent ledger consistent.
pub proof fn delete_task_keeps_consistent(ledger: LedgerView, caller: Identity, todo_idx: u8)
    requires
        ledger.consistent(),
    ensures
        ledger.delete_task(caller, todo_idx).0.consistent(),
{
    let after = ledger.delete_task(caller, todo_idx).0;
    if ledger.delete_task(caller, todo_idx).1 is Ok {
        let key = TaskKey { owner: caller, index: todo_idx };
        assert(after.tasks == ledger.tasks.remove(key));
        assert forall|owner: Identity| #[trigger] after.profiles.contains_key(owner) implies {
            &&& after.profiles[owner].owner == owner
            &&& after.profiles[owner].active_count == after.live_count(owner)
        } by {
            lemma_live_remove(ledger.tasks, key, owner, 256);
        }
    }
}

/// In a consistent ledger the checks that guard against a damaged ledger
/// never fire. Adding a task fails only for want of a profile or of a free
/// index; marking fails only for want of the task or because it is done;
/// deleting fails only for want of the task.
pub proof fn consistent_ledger_answers(
    ledger: LedgerView,
    caller: Identity,
    todo_idx: u8,
    content: Seq<char>,
)
    requires
        ledger.consistent(),
    ensures
        ledger.add_task(caller, content).1 == if !ledger.profiles.contains_key(caller) {
            Err::<(), TodoError>(TodoError::NotFound)
        } else if ledger.profiles[caller].next_index == u8::MAX {
            Err::<(), TodoError>(TodoError::CounterOverflow)
        } else {
            Ok::<(), TodoError>(())
        },
        ledger.mark_task(caller, todo_idx).1 == if !ledger.tasks.contains_key(
            TaskKey { owner: caller, index: todo_idx },
        ) {
            Err::<(), TodoError>(TodoError::NotFound)
        } else if ledger.tasks[TaskKey { owner: caller, index: todo_idx }].done {
            Err::<(), TodoError>(TodoError::AlreadyMarked)
        } else {
            Ok::<(), TodoError>(())
        },
        ledger.delete_task(caller, todo_idx).1 == if !ledger.tasks.contains_key(
            TaskKey { owner: caller, index: todo_idx },
        ) {
            Err::<(), TodoError>(TodoError::NotFound)
        } else {
            Ok::<(), TodoError>(())
        },
{
    let key = TaskKey { owner: caller, index: todo_idx };
    if ledger.profiles.contains_key(caller) {
        counters_stay_in_order(ledger, caller);
    }
    if ledger.tasks.contains_key(key) {
        lemma_live_remove(ledger.tasks, key, caller, 256);
    }
}

/// Asking twice for a profile: whatever the first request did, the second is
/// refused with `AlreadyExists` and changes nothing.
pub proof fn second_create_is_refused(ledger: LedgerView, caller: Identity)
    ensures
        ({
            let after = ledger.create_profile(caller).0;
            after.create_profile(caller) == (after, Err::<(), TodoError>(TodoError::AlreadyExists))
        }),
{
}

/// In a consistent ledger, a caller whose profile has an index left can add
/// a task. The task is new, is kept under the profile's `next_index`, holds
/// the text and is not done; both counters grow by one; no other record
/// changes.
pub proof fn add_task_takes_next_index(ledger: LedgerView, caller: Identity, content: Seq<char>)
    requires
        ledger.consistent(),
        ledger.profiles.contains_key(caller),
        ledger.profiles[caller].next_index < u8::MAX,
    ensures
        ({
            let before = ledger.profiles[caller];
            let key = TaskKey { owner: caller, index: before.next_index };
            let (after, answer) = ledger.add_task(caller, content);
            &&& answer == Ok::<(), TodoError>(())
            &&& !ledger.tasks.contains_key(key)
            &&& after.tasks == ledger.tasks.insert(
                key,
                TaskView { owner: caller, index: before.next_index, done: false, content },
            )
            &&& after.profiles == ledger.profiles.insert(
                caller,
                UserProfile {
                    owner: caller,
                    next_index: (before.next_index + 1) as u8,
                    active_count: (before.active_count + 1) as u8,
                },
            )
            &&& before.active_count < u8::MAX
        }),
{
    counters_stay_in_order(ledger, caller);
}

/// In a consistent ledger, marking a task that is there and not done
/// succeeds and changes nothing but its `done`, which becomes `true`;
/// marking it once more is refused with `AlreadyMarked` and changes nothing.
pub proof fn mark_task_works_once(ledger: LedgerView, caller: Identity, todo_idx: u8)
    requires
        ledger.consistent(),
        ledger.tasks.contains_key(TaskKey { owner: caller, index: todo_idx }),
        !ledger.tasks[TaskKey { owner: caller, index: todo_idx }].done,
    ensures
        ({
            let key = TaskKey { owner: caller, index: todo_idx };
            let before = ledger.tasks[key];
            let (after, answer) = ledger.mark_task(caller, todo_idx);
            &&& answer == Ok::<(), TodoError>(())
            &&& after.profiles == ledger.profiles
            &&& after.tasks == ledger.tasks.insert(
                key,
                TaskView {
                    owner: before.owner,
                    index: before.index,
                    done: true,
                    content: before.content,
                },
            )
            &&& after.mark_task(caller, todo_idx) == (
                after,
                Err::<(), TodoError>(TodoError::AlreadyMarked),
            )
        }),
{
}

/// Once a task has been deleted, marking it and deleting it again are both
/// refused with `NotFound` and change nothing.
pub proof fn deleted_task_is_not_found(ledger: LedgerView, caller: Identity, todo_idx: u8)
    requires
        ledger.delete_task(caller, todo_idx).1 is Ok,
    ensures
        ({
            let after = ledger.delete_task(caller, todo_idx).0;
            &&& after.mark_task(caller, todo_idx) == (
                after,
                Err::<(), TodoError>(TodoError::NotFound),
            )
            &&& after.delete_task(caller, todo_idx) == (
                after,
                Err::<(), TodoError>(TodoError::NotFound),
            )
        }),
{
}

/// A caller who is not the owner written in the profile kept for it is
/// refused with `Unauthorized` by every operation on tasks, and so is a
/// caller who is not the owner written in the task; nothing changes.
pub proof fn stranger_is_refused(
    ledger: LedgerView,
    caller: Identity,
    todo_idx: u8,
    content: Seq<char>,
)
    ensures
        ledger.profiles.contains_key(caller) && ledger.profiles[caller].owner != caller ==> {
            &&& ledger.add_task(caller, content) == (
                ledger,
                Err::<(), TodoError>(TodoError::Unauthorized),
            )
            &&& ledger.mark_task(caller, todo_idx) == (
                ledger,
                Err::<(), TodoError>(TodoError::Unauthorized),
            )
            &&& ledger.delete_task(caller, todo_idx) == (
                ledger,
                Err::<(), TodoError>(TodoError::Unauthorized),
            )
        },
        ({
            let key = TaskKey { owner: caller, index: todo_idx };
            ledger.profiles.contains_key(caller) && ledger.profiles[caller].owner == caller
                && ledger.tasks.contains_key(key) && ledger.tasks[key].owner != caller ==> {
                &&& ledger.mark_task(caller, todo_idx) == (
                    ledger,
                    Err::<(), TodoError>(TodoError::Unauthorized),
                )
                &&& ledger.delete_task(caller, todo_idx) == (
                    ledger,
                    Err::<(), TodoError>(TodoError::Unauthorized),
                )
            }
        }),
{
}

/// An operation that is refused, for whatever reason, changes nothing.
pub proof fn refusal_changes_nothing(
    ledger: LedgerView,
    caller: Identity,
    todo_idx: u8,
    content: Seq<char>,
)
    ensures
        ledger.create_profile(caller).1 is Err ==> ledger.create_profile(caller).0 == ledger,
        ledger.add_task(caller, content).1 is Err ==> ledger.add_task(caller, content).0 == ledger,
        ledger.mark_task(caller, todo_idx).1 is Err ==> ledger.mark_task(caller, todo_idx).0
            == ledger,
        ledger.delete_task(caller, todo_idx).1 is Err ==> ledger.delete_task(caller, todo_idx).0
            == ledger,
{
}

/// No operation takes a profile away, changes its owner or lowers its
/// `next_index`.
pub proof fn profiles_only_move_forward(
    ledger: LedgerView,
    caller: Identity,
    todo_idx: u8,
    content: Seq<char>,
    owner: Identity,
)
    requires
        ledger.profiles.contains_key(owner),
    ensures
        later_profile(ledger, ledger.create_profile(caller).0, owner),
        later_profile(ledger, ledger.add_task(caller, content).0, owner),
        later_profile(ledger, ledger.mark_task(caller, todo_idx).0, owner),
        later_profile(ledger, ledger.delete_task(caller, todo_idx).0, owner),
{
}

/// The profile kept under `owner` is still there, names the same owner and
/// has a `next_index` that is no lower.
pub open spec fn later_profile(before: LedgerView, after: LedgerView, owner: Identity) -> bool {
    &&& after.profiles.contains_key(owner)
    &&& after.profiles[owner].owner == before.profiles[owner].owner
    &&& after.profiles[owner].next_index >= before.profiles[owner].next_index
}

/// As long as a task is kept, no operation changes its owner, its index or
/// its text, and none sets a `done` that is `true` back to `false`.
pub proof fn tasks_only_move_forward(
    ledger: LedgerView,
    caller: Identity,
    todo_idx: u8,
    content: Seq<char>,
    key: TaskKey,
)
    requires
        ledger.tasks.contains_key(key),
    ensures
        later_task(ledger, ledger.create_profile(caller).0, key),
        later_task(ledger, ledger.add_task(caller, content).0, key),
        later_task(ledger, ledger.mark_task(caller, todo_idx).0, key),
        later_task(ledger, ledger.delete_task(caller, todo_idx).0, key),
{
}

/// If the task kept under `key` is still there, it has the same owner, index
/// and text, and is done if it was done.
pub open spec fn later_task(before: LedgerView, after: LedgerView, key: TaskKey) -> bool {
    after.tasks.contains_key(key) ==> {
        &&& after.tasks[key].owner == before.tasks[key].owner
        &&& after.tasks[key].index == before.tasks[key].index
        &&& after.tasks[key].content == before.tasks[key].content
        &&& before.tasks[key].done ==> after.tasks[key].done
    }
}

/// In a consistent ledger, a key whose index the profile has given out and
/// under which no task is kept stays free whatever operation comes next: a
/// deleted task does not come back, and its index goes to no other task.
pub proof fn free_index_stays_free(
    ledger: LedgerView,
    key: TaskKey,
    caller: Identity,
    todo_idx: u8,
    content: Seq<char>,
)
    requires
        ledger.consistent(),
        ledger.profiles.contains_key(key.owner),
        key.index < ledger.profiles[key.owner].next_index,
        !ledger.tasks.contains_key(key),
    ensures
        !ledger.create_profile(caller).0.tasks.contains_key(key),
        !ledger.add_task(caller, content).0.tasks.contains_key(key),
        !ledger.mark_task(caller, todo_idx).0.tasks.contains_key(key),
        !ledger.delete_task(caller, todo_idx).0.tasks.contains_key(key),
{
}

/// In a consistent ledger, where the caller's profile has two indices left:
/// a task is added and gets the profile's `next_index`, say `n`; it is
/// deleted; the task added next gets `n + 1`, and the key with `n` stays free.
pub proof fn index_is_not_reused(
    ledger: LedgerView,
    caller: Identity,
    first: Seq<char>,
    second: Seq<char>,
)
    requires
        ledger.consistent(),
        ledger.profiles.contains_key(caller),
        ledger.profiles[caller].next_index + 1 < u8::MAX,
    ensures
        ({
            let n = ledger.profiles[caller].next_index;
            let (added, first_answer) = ledger.add_task(caller, first);
            let (deleted, second_answer) = added.delete_task(caller, n);
            let (again, third_answer) = deleted.add_task(caller, second);
            &&& first_answer is Ok && second_answer is Ok && third_answer is Ok
            &&& added.tasks.contains_key(TaskKey { owner: caller, index: n })
            &&& !again.tasks.contains_key(TaskKey { owner: caller, index: n })
            &&& again.tasks.contains_key(TaskKey { owner: caller, index: (n + 1) as u8 })
            &&& again.tasks[TaskKey { owner: caller, index: (n + 1) as u8 }] == TaskView::fresh(
                caller,
                (n + 1) as u8,
                second,
            )
            &&& again.profiles[caller].next_index == n + 2
            &&& again.profiles[caller].active_count == ledger.profiles[caller].active_count + 1
        }),
{
    let n = ledger.profiles[caller].next_index;
    add_task_takes_next_index(ledger, caller, first);
    add_task_keeps_consistent(ledger, caller, first);
    let added = ledger.add_task(caller, first).0;
    consistent_ledger_answers(added, caller, n, second);
    delete_task_keeps_consistent(added, caller, n);
    let deleted = added.delete_task(caller, n).0;
    add_task_takes_next_index(deleted, caller, second);
}

} // verus!
