use todo_ledger::error::TodoError;
use todo_ledger::identity::Identity;
use todo_ledger::ledger::Ledger;
use todo_ledger::records::{Task, TaskKey, UserProfile};

fn id(byte: u8) -> Identity {
    Identity { bytes: [byte; 32] }
}

fn task(owner: Identity, index: u8, done: bool, content: &str) -> Task {
    Task { owner, index, done, content: content.to_string() }
}

#[test]
fn new_ledger_is_empty() {
    let ledger = Ledger::new();
    assert_eq!(ledger.profile(&id(1)), None);
    assert_eq!(ledger.task(&id(1), 0), None);
}

#[test]
fn create_profile_starts_at_zero() {
    let mut ledger = Ledger::new();
    assert_eq!(ledger.create_profile(id(1)), Ok(()));
    assert_eq!(
        ledger.profile(&id(1)),
        Some(UserProfile { owner: id(1), next_index: 0, active_count: 0 })
    );
    assert_eq!(ledger.profile(&id(2)), None);
}

#[test]
fn create_profile_twice_is_refused() {
    let mut ledger = Ledger::new();
    assert_eq!(ledger.create_profile(id(1)), Ok(()));
    assert_eq!(ledger.add_task(id(1), "a".to_string()), Ok(()));
    let before = ledger.profile(&id(1));
    assert_eq!(ledger.create_profile(id(1)), Err(TodoError::AlreadyExists));
    assert_eq!(ledger.profile(&id(1)), before);
    assert_eq!(
        before,
        Some(UserProfile { owner: id(1), next_index: 1, active_count: 1 })
    );
}

#[test]
fn add_task_takes_next_index_and_raises_counters() {
    let mut ledger = Ledger::new();
    ledger.put_profile(id(7), UserProfile { owner: id(7), next_index: 41, active_count: 3 });
    assert_eq!(ledger.add_task(id(7), "water plants".to_string()), Ok(()));
    assert_eq!(
        ledger.profile(&id(7)),
        Some(UserProfile { owner: id(7), next_index: 42, active_count: 4 })
    );
    assert_eq!(ledger.task(&id(7), 41), Some(&task(id(7), 41, false, "water plants")));
    assert_eq!(ledger.task(&id(7), 42), None);
}

#[test]
fn add_task_without_profile_is_not_found() {
    let mut ledger = Ledger::new();
    assert_eq!(ledger.add_task(id(1), "a".to_string()), Err(TodoError::NotFound));
    assert_eq!(ledger.profile(&id(1)), None);
    assert_eq!(ledger.task(&id(1), 0), None);
}

#[test]
fn add_task_under_a_taken_key_already_exists() {
    let mut ledger = Ledger::new();
    assert_eq!(ledger.create_profile(id(1)), Ok(()));
    ledger.put_task(TaskKey { owner: id(1), index: 0 }, task(id(1), 0, true, "old"));
    assert_eq!(ledger.add_task(id(1), "new".to_string()), Err(TodoError::AlreadyExists));
    assert_eq!(ledger.task(&id(1), 0), Some(&task(id(1), 0, true, "old")));
    assert_eq!(
        ledger.profile(&id(1)),
        Some(UserProfile { owner: id(1), next_index: 0, active_count: 0 })
    );
}

#[test]
fn add_task_at_the_last_index_overflows() {
    let mut ledger = Ledger::new();
    ledger.put_profile(id(1), UserProfile { owner: id(1), next_index: 255, active_count: 0 });
    assert_eq!(ledger.add_task(id(1), "a".to_string()), Err(TodoError::CounterOverflow));
    assert_eq!(
        ledger.profile(&id(1)),
        Some(UserProfile { owner: id(1), next_index: 255, active_count: 0 })
    );
    assert_eq!(ledger.task(&id(1), 255), None);
}

#[test]
fn add_task_with_a_full_count_overflows() {
    let mut ledger = Ledger::new();
    ledger.put_profile(id(1), UserProfile { owner: id(1), next_index: 3, active_count: 255 });
    assert_eq!(ledger.add_task(id(1), "a".to_string()), Err(TodoError::CounterOverflow));
    assert_eq!(
        ledger.profile(&id(1)),
        Some(UserProfile { owner: id(1), next_index: 3, active_count: 255 })
    );
    assert_eq!(ledger.task(&id(1), 3), None);
}

#[test]
fn a_profile_gives_out_255_indices() {
    let mut ledger = Ledger::new();
    assert_eq!(ledger.create_profile(id(1)), Ok(()));
    let mut added: u32 = 0;
    while ledger.add_task(id(1), "x".to_string()) == Ok(()) {
        added += 1;
        assert!(added <= 300);
    }
    assert_eq!(added, 255);
    assert_eq!(
        ledger.profile(&id(1)),
        Some(UserProfile { owner: id(1), next_index: 255, active_count: 255 })
    );
    assert_eq!(ledger.task(&id(1), 254), Some(&task(id(1), 254, false, "x")));
    assert_eq!(ledger.task(&id(1), 255), None);
    assert_eq!(ledger.add_task(id(1), "x".to_string()), Err(TodoError::CounterOverflow));
}

#[test]
fn mark_task_works_once() {
    let mut ledger = Ledger::new();
    assert_eq!(ledger.create_profile(id(1)), Ok(()));
    assert_eq!(ledger.add_task(id(1), "call mum".to_string()), Ok(()));
    assert_eq!(ledger.mark_task(id(1), 0), Ok(()));
    assert_eq!(ledger.task(&id(1), 0), Some(&task(id(1), 0, true, "call mum")));
    let profile = ledger.profile(&id(1));
    assert_eq!(ledger.mark_task(id(1), 0), Err(TodoError::AlreadyMarked));
    assert_eq!(ledger.task(&id(1), 0), Some(&task(id(1), 0, true, "call mum")));
    assert_eq!(ledger.profile(&id(1)), profile);
    assert_eq!(profile, Some(UserProfile { owner: id(1), next_index: 1, active_count: 1 }));
}

#[test]
fn mark_task_that_is_missing_is_not_found() {
    let mut ledger = Ledger::new();
    assert_eq!(ledger.mark_task(id(1), 0), Err(TodoError::NotFound));
    assert_eq!(ledger.create_profile(id(1)), Ok(()));
    assert_eq!(ledger.mark_task(id(1), 0), Err(TodoError::NotFound));
    assert_eq!(ledger.add_task(id(1), "a".to_string()), Ok(()));
    assert_eq!(ledger.mark_task(id(1), 1), Err(TodoError::NotFound));
    assert_eq!(ledger.task(&id(1), 0), Some(&task(id(1), 0, false, "a")));
}

#[test]
fn delete_task_frees_the_key_and_lowers_the_count() {
    let mut ledger = Ledger::new();
    assert_eq!(ledger.create_profile(id(1)), Ok(()));
    assert_eq!(ledger.add_task(id(1), "a".to_string()), Ok(()));
    assert_eq!(ledger.add_task(id(1), "b".to_string()), Ok(()));
    assert_eq!(ledger.delete_task(id(1), 0), Ok(()));
    assert_eq!(ledger.task(&id(1), 0), None);
    assert_eq!(ledger.task(&id(1), 1), Some(&task(id(1), 1, false, "b")));
    assert_eq!(
        ledger.profile(&id(1)),
        Some(UserProfile { owner: id(1), next_index: 2, active_count: 1 })
    );
}

#[test]
fn deleted_task_is_not_found_afterwards() {
    let mut ledger = Ledger::new();
    assert_eq!(ledger.create_profile(id(1)), Ok(()));
    assert_eq!(ledger.add_task(id(1), "a".to_string()), Ok(()));
    assert_eq!(ledger.delete_task(id(1), 0), Ok(()));
    let profile = ledger.profile(&id(1));
    assert_eq!(ledger.mark_task(id(1), 0), Err(TodoError::NotFound));
    assert_eq!(ledger.delete_task(id(1), 0), Err(TodoError::NotFound));
    assert_eq!(ledger.profile(&id(1)), profile);
    assert_eq!(ledger.task(&id(1), 0), None);
}

#[test]
fn a_marked_task_can_be_deleted() {
    let mut ledger = Ledger::new();
    assert_eq!(ledger.create_profile(id(1)), Ok(()));
    assert_eq!(ledger.add_task(id(1), "a".to_string()), Ok(()));
    assert_eq!(ledger.mark_task(id(1), 0), Ok(()));
    assert_eq!(ledger.delete_task(id(1), 0), Ok(()));
    assert_eq!(ledger.task(&id(1), 0), None);
}

#[test]
fn delete_task_with_a_zero_count_underflows() {
    let mut ledger = Ledger::new();
    ledger.put_profile(id(1), UserProfile { owner: id(1), next_index: 1, active_count: 0 });
    ledger.put_task(TaskKey { owner: id(1), index: 0 }, task(id(1), 0, false, "a"));
    assert_eq!(ledger.delete_task(id(1), 0), Err(TodoError::CounterUnderflow));
    assert_eq!(ledger.task(&id(1), 0), Some(&task(id(1), 0, false, "a")));
    assert_eq!(
        ledger.profile(&id(1)),
        Some(UserProfile { owner: id(1), next_index: 1, active_count: 0 })
    );
}

#[test]
fn a_profile_of_another_owner_is_unauthorized() {
    let mut ledger = Ledger::new();
    ledger.put_profile(id(1), UserProfile { owner: id(2), next_index: 1, active_count: 1 });
    ledger.put_task(TaskKey { owner: id(1), index: 0 }, task(id(1), 0, false, "a"));
    assert_eq!(ledger.add_task(id(1), "b".to_string()), Err(TodoError::Unauthorized));
    assert_eq!(ledger.mark_task(id(1), 0), Err(TodoError::Unauthorized));
    assert_eq!(ledger.delete_task(id(1), 0), Err(TodoError::Unauthorized));
    assert_eq!(
        ledger.profile(&id(1)),
        Some(UserProfile { owner: id(2), next_index: 1, active_count: 1 })
    );
    assert_eq!(ledger.task(&id(1), 0), Some(&task(id(1), 0, false, "a")));
    assert_eq!(ledger.task(&id(1), 1), None);
}

#[test]
fn a_task_of_another_owner_is_unauthorized() {
    let mut ledger = Ledger::new();
    ledger.put_profile(id(1), UserProfile { owner: id(1), next_index: 1, active_count: 1 });
    ledger.put_task(TaskKey { owner: id(1), index: 0 }, task(id(2), 0, false, "a"));
    assert_eq!(ledger.mark_task(id(1), 0), Err(TodoError::Unauthorized));
    assert_eq!(ledger.delete_task(id(1), 0), Err(TodoError::Unauthorized));
    assert_eq!(ledger.task(&id(1), 0), Some(&task(id(2), 0, false, "a")));
    assert_eq!(
        ledger.profile(&id(1)),
        Some(UserProfile { owner: id(1), next_index: 1, active_count: 1 })
    );
}

#[test]
fn a_caller_cannot_reach_the_tasks_of_another() {
    let mut ledger = Ledger::new();
    assert_eq!(ledger.create_profile(id(1)), Ok(()));
    assert_eq!(ledger.create_profile(id(2)), Ok(()));
    assert_eq!(ledger.add_task(id(1), "mine".to_string()), Ok(()));
    assert_eq!(ledger.mark_task(id(2), 0), Err(TodoError::NotFound));
    assert_eq!(ledger.delete_task(id(2), 0), Err(TodoError::NotFound));
    assert_eq!(ledger.task(&id(1), 0), Some(&task(id(1), 0, false, "mine")));
    assert_eq!(
        ledger.profile(&id(2)),
        Some(UserProfile { owner: id(2), next_index: 0, active_count: 0 })
    );
}

#[test]
fn an_index_is_not_given_out_again() {
    let mut ledger = Ledger::new();
    assert_eq!(ledger.create_profile(id(1)), Ok(()));
    assert_eq!(ledger.add_task(id(1), "first".to_string()), Ok(()));
    assert_eq!(ledger.task(&id(1), 0), Some(&task(id(1), 0, false, "first")));
    assert_eq!(ledger.delete_task(id(1), 0), Ok(()));
    assert_eq!(ledger.add_task(id(1), "second".to_string()), Ok(()));
    assert_eq!(ledger.task(&id(1), 0), None);
    assert_eq!(ledger.task(&id(1), 1), Some(&task(id(1), 1, false, "second")));
    assert_eq!(
        ledger.profile(&id(1)),
        Some(UserProfile { owner: id(1), next_index: 2, active_count: 1 })
    );
}

#[test]
fn one_holder_from_profile_to_second_task() {
    let a = id(0xA1);
    let mut ledger = Ledger::new();
    assert_eq!(ledger.create_profile(a), Ok(()));
    assert_eq!(
        ledger.profile(&a),
        Some(UserProfile { owner: a, next_index: 0, active_count: 0 })
    );
    assert_eq!(ledger.add_task(a, "buy milk".to_string()), Ok(()));
    assert_eq!(ledger.task(&a, 0), Some(&task(a, 0, false, "buy milk")));
    assert_eq!(
        ledger.profile(&a),
        Some(UserProfile { owner: a, next_index: 1, active_count: 1 })
    );
    assert_eq!(ledger.mark_task(a, 0), Ok(()));
    assert_eq!(ledger.task(&a, 0), Some(&task(a, 0, true, "buy milk")));
    assert_eq!(ledger.delete_task(a, 0), Ok(()));
    assert_eq!(
        ledger.profile(&a),
        Some(UserProfile { owner: a, next_index: 1, active_count: 0 })
    );
    assert_eq!(ledger.task(&a, 0), None);
    assert_eq!(ledger.add_task(a, "buy bread".to_string()), Ok(()));
    assert_eq!(ledger.task(&a, 1), Some(&task(a, 1, false, "buy bread")));
    assert_eq!(ledger.task(&a, 0), None);
}

#[test]
fn put_writes_over_what_was_there() {
    let mut ledger = Ledger::new();
    ledger.put_profile(id(1), UserProfile { owner: id(1), next_index: 5, active_count: 2 });
    ledger.put_profile(id(1), UserProfile { owner: id(1), next_index: 6, active_count: 3 });
    assert_eq!(
        ledger.profile(&id(1)),
        Some(UserProfile { owner: id(1), next_index: 6, active_count: 3 })
    );
    ledger.put_task(TaskKey { owner: id(1), index: 4 }, task(id(1), 4, false, "a"));
    ledger.put_task(TaskKey { owner: id(1), index: 4 }, task(id(1), 4, true, "b"));
    assert_eq!(ledger.task(&id(1), 4), Some(&task(id(1), 4, true, "b")));
    assert_eq!(ledger.task(&id(1), 5), None);
    assert_eq!(ledger.task(&id(2), 4), None);
}

#[test]
fn identities_differ_by_any_byte() {
    let mut other = [9u8; 32];
    assert!(Identity { bytes: other } == id(9));
    other[31] = 8;
    assert!(Identity { bytes: other } != id(9));
    let mut first = [9u8; 32];
    first[0] = 0;
    assert!(Identity { bytes: first } != id(9));
    let mut ledger = Ledger::new();
    assert_eq!(ledger.create_profile(id(9)), Ok(()));
    assert_eq!(ledger.create_profile(Identity { bytes: other }), Ok(()));
    assert_eq!(ledger.create_profile(Identity { bytes: other }), Err(TodoError::AlreadyExists));
}
