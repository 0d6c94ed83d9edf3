//! The decisions of the numbered menu that drives a list: which command a
//! choice stands for, which further input it needs, whether an entered
//! position is valid, and what running a command does to the list.

use vstd::prelude::*;

use crate::models::{moved, toggled, ItemView, TodoItem, TodoList};

verus! {

/// A command that the user can select.
#[derive(Debug)]
pub enum Command {
    Add(String),
    Remove(usize),
    ToggleCompletion(usize),
    Move(usize, usize),
    Help,
    Quit,
}

impl Command {
    /// Whether this command is `Quit`.
    pub fn is_quit(&self) -> (r: bool)
        ensures
            r == (self is Quit),
    {
        match self {
            Command::Quit => true,
            _ => false,
        }
    }

    /// Whether every position that this command names is valid for a list
    /// of `len` items (for `Move`, the target is a position of the list once
    /// the moved item is out).
    pub open spec fn fits_spec(&self, len: int) -> bool {
        match *self {
            Command::Remove(i) => i < len,
            Command::ToggleCompletion(i) => i < len,
            Command::Move(i, j) => i < len && j < len,
            _ => true,
        }
    }

    /// Whether every position that this command names is valid for a list
    /// of `len` items.
    pub fn fits(&self, len: usize) -> (r: bool)
        ensures
            r == self.fits_spec(len as int),
    {
        match self {
            Command::Remove(i) => *i < len,
            Command::ToggleCompletion(i) => *i < len,
            Command::Move(i, j) => *i < len && *j < len,
            _ => true,
        }
    }
}

/// Why a menu choice cannot be taken.
#[derive(Clone, Copy, Debug, PartialEq, Eq, Structural)]
pub enum CommandError {
    /// The choice needs a list of at least this many items.
    InsufficientItems(usize),
    /// The number is not one of the menu's choices.
    UnknownChoice,
}

/// What a menu choice needs before it becomes a command.
#[derive(Debug)]
pub enum Plan {
    /// The command is settled.
    Ready(Command),
    /// Add an item: ask for its description.
    AskDescription,
    /// Remove an item: ask which.
    AskRemoveIndex,
    /// Toggle an item: ask which.
    AskToggleIndex,
    /// Move an item: ask which, then where to.
    AskMoveIndices,
}

/// What running a command did, with positions counted from 1.
#[derive(Clone, Copy, Debug, PartialEq, Eq, Structural)]
pub enum Outcome {
    /// An item was added; the list now holds this many.
    Added(usize),
    /// The item at this position was removed.
    Removed(usize),
    /// The item at this position is now completed (`true`) or not.
    Toggled(usize, bool),
    /// The item at the first position went to the second.
    Moved(usize, usize),
    /// The help text is to be shown.
    Help,
    /// The session ends.
    Quit,
}

/// The plan for menu choice `choice` on a list of `len` items: where the list
/// is too short for it, the command that needs no question, or the question
/// to ask.
pub open spec fn plan_spec(choice: usize, len: usize) -> Result<Plan, CommandError> {
    if choice == 1 {
        Ok(Plan::AskDescription)
    } else if choice == 2 || choice == 3 {
        if len < 1 {
            Err(CommandError::InsufficientItems(1))
        } else if len == 1 {
            Ok(Plan::Ready(if choice == 2 { Command::Remove(0) } else { Command::ToggleCompletion(0) }))
        } else if choice == 2 {
            Ok(Plan::AskRemoveIndex)
        } else {
            Ok(Plan::AskToggleIndex)
        }
    } else if choice == 4 {
        if len < 2 {
            Err(CommandError::InsufficientItems(2))
        } else if len == 2 {
            Ok(Plan::Ready(Command::Move(0, 1)))
        } else {
            Ok(Plan::AskMoveIndices)
        }
    } else if choice == 5 {
        Ok(Plan::Ready(Command::Help))
    } else if choice == 0 {
        Ok(Plan::Ready(Command::Quit))
    } else {
        Err(CommandError::UnknownChoice)
    }
}

/// A list and the menu that drives it.
#[derive(Debug)]
pub struct ProgramInterface {
    pub todo_list: TodoList,
}

impl ProgramInterface {
    /// A menu over `todo_list`.
    pub fn new(todo_list: TodoList) -> (r: ProgramInterface)
        ensures
            r.todo_list@ == todo_list@,
    {
        ProgramInterface { todo_list }
    }

    /// Decides what menu choice `choice` needs, given the current list.
    pub fn input_command_arguments(&self, choice: usize) -> (r: Result<Plan, CommandError>)
        ensures
            r == plan_spec(choice, self.todo_list@.items.len() as usize),
    {
        let len = self.todo_list.len();
        if choice == 1 {
            Ok(Plan::AskDescription)
        } else if choice == 2 || choice == 3 {
            if len < 1 {
                Err(CommandError::InsufficientItems(1))
            } else if len == 1 {
                if choice == 2 {
                    Ok(Plan::Ready(Command::Remove(0)))
                } else {
                    Ok(Plan::Ready(Command::ToggleCompletion(0)))
                }
            } else if choice == 2 {
                Ok(Plan::AskRemoveIndex)
            } else {
                Ok(Plan::AskToggleIndex)
            }
        } else if choice == 4 {
            if len < 2 {
                Err(CommandError::InsufficientItems(2))
            } else if len == 2 {
                Ok(Plan::Ready(Command::Move(0, 1)))
            } else {
                Ok(Plan::AskMoveIndices)
            }
        } else if choice == 5 {
            Ok(Plan::Ready(Command::Help))
        } else if choice == 0 {
            Ok(Plan::Ready(Command::Quit))
        } else {
            Err(CommandError::UnknownChoice)
        }
    }

    /// The item position (from 0) for the number `n` that the user entered,
    /// counting from 1; `None` where `n` is not between 1 and the list's
    /// length.
    pub fn input_item_index(&self, n: usize) -> (r: Option<usize>)
        ensures
            1 <= n <= self.todo_list@.items.len() ==> r == Some((n - 1) as usize),
            !(1 <= n <= self.todo_list@.items.len()) ==> r is None,
    {
        let length = self.todo_list.len();
        if n < 1 || n > length {
            None
        } else {
            Some(n - 1)
        }
    }

    /// Runs `command` on the list and reports what it did.
    pub fn exec_command(&mut self, command: &Command) -> (r: Outcome)
        requires
            command.fits_spec(old(self).todo_list@.items.len() as int),
        ensures
            match *command {
                Command::Add(d) => final(self).todo_list@.items == old(self).todo_list@.items.push(
                    ItemView { description: d@, completed: false },
                ) && r == Outcome::Added(final(self).todo_list@.items.len() as usize),
                Command::Remove(i) => final(self).todo_list@.items == old(self).todo_list@.items.remove(
                    i as int,
                ) && r == Outcome::Removed((i + 1) as usize),
                Command::ToggleCompletion(i) => final(self).todo_list@.items == toggled(
                    old(self).todo_list@.items,
                    i as int,
                ) && r == Outcome::Toggled((i + 1) as usize, final(self).todo_list@.items[i as int].completed),
                Command::Move(i, j) => final(self).todo_list@.items == moved(
                    old(self).todo_list@.items,
                    i as int,
                    j as int,
                ) && r == Outcome::Moved((i + 1) as usize, (j + 1) as usize),
                Command::Help => final(self).todo_list@ == old(self).todo_list@ && r == Outcome::Help,
                Command::Quit => final(self).todo_list@ == old(self).todo_list@ && r == Outcome::Quit,
            },
            !(*command is Help || *command is Quit) ==> final(self).todo_list@.last_updated.wf()
                && final(self).todo_list@.last_updated.nanos < 1_000_000_000,
    {
        // the length is a `usize`, so positions below it count from 1 in one
        let _len = self.todo_list.len();
        match command {
            Command::Add(description) => {
                self.todo_list.add_item(TodoItem::new(description.clone()));
                Outcome::Added(self.todo_list.len())
            },
            Command::Remove(index) => {
                self.todo_list.remove_item(*index);
                Outcome::Removed(*index + 1)
            },
            Command::ToggleCompletion(index) => {
                let completed = self.todo_list.toggle_completion(*index);
                Outcome::Toggled(*index + 1, completed)
            },
            Command::Move(ix_old, ix_new) => {
                self.todo_list.move_item(*ix_old, *ix_new);
                Outcome::Moved(*ix_old + 1, *ix_new + 1)
            },
            Command::Help => Outcome::Help,
            Command::Quit => Outcome::Quit,
        }
    }
}

} // verus!
