//! A to-do list: an ordered sequence of items with a last-modified instant,
//! its persisted document form, and the decisions of its menu driver.

pub mod codec;
pub mod command;
pub mod models;
pub mod number;
pub mod timestamp;

pub use codec::{
    dump_todo_list, load_todo_list, or_empty_if_missing, IoErrorKind, SerdeError, StoredList,
};
pub use command::{Command, CommandError, Outcome, Plan, ProgramInterface};
pub use number::parse_integer;
pub use models::{ItemView, ListView, TodoItem, TodoList};
pub use timestamp::Timestamp;
