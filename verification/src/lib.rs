//! A per-user task list kept as keyed records: one profile per identity and
//! one record per task, each found by a key computed from the owner and the
//! task's index.
//!
//! `handlers` holds the four operations on records that were loaded for
//! them; `ledger` holds the records of all account holders and runs the
//! operations by key; `model` and `laws` say and prove what the operations
//! do; `address` gives the seeds and the program address of each record.

pub mod address;
pub mod error;
pub mod handlers;
pub mod identity;
pub mod laws;
pub mod ledger;
pub mod model;
pub mod records;
pub mod rules;
mod table;

pub use crate::error::TodoError;
pub use crate::handlers::{
    add_todo, assert_owner, delete_todo, initialize_user, mark_todo, AddTodo, InitializeUser,
    MarkTodo, RemoveTodo,
};
pub use crate::identity::Identity;
pub use crate::ledger::Ledger;
pub use crate::records::{Task, TaskKey, UserProfile};
