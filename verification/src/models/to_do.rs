//! To-do lists and their items.

use vstd::prelude::*;
use crate::models::{Id, Timestamp};

verus! {

/// A stored to-do item.
#[derive(Clone, Debug)]
pub struct ToDo {
    pub id: Id,
    pub list_id: Id,
    pub title: String,
    pub description: Option<String>,
    pub priority: PriorityType,
    pub active: bool,
    pub created_at: Timestamp,
    pub updated_at: Timestamp,
}

/// A to-do item not stored yet.
#[derive(Clone, Debug)]
pub struct InsertableToDo {
    pub list_id: Id,
    pub title: String,
    pub description: Option<String>,
    pub priority: PriorityType,
    pub active: bool,
}

impl InsertableToDo {
    /// A new item of the list `list_id`.
    pub fn new(
        list_id: Id,
        title: String,
        description: Option<String>,
        priority: PriorityType,
        active: bool,
    ) -> (r: Self)
        ensures
            r.list_id == list_id,
            r.title == title,
            r.description == description,
            r.priority == priority,
            r.active == active,
    {
        InsertableToDo { list_id, title, description, priority, active }
    }
}

impl ToDo {
    /// The status an item takes when it is toggled: active items become
    /// inactive and inactive ones active.
    pub fn toggled_status(&self) -> (r: bool)
        ensures
            r == !self.active,
    {
        match self.active {
            true => false,
            false => true,
        }
    }
}

/// A stored to-do list of a user.
#[derive(Clone, Debug)]
pub struct ToDoList {
    pub id: Id,
    pub user_id: Id,
    pub created_at: Timestamp,
    pub updated_at: Timestamp,
}

/// A to-do list not stored yet.
#[derive(Clone, Debug)]
pub struct InsertableToDoList {
    pub user_id: Id,
}

/// How urgent a to-do item is.
#[derive(Clone, Copy, Debug, PartialEq, Eq, Structural)]
pub enum PriorityType {
    Low,
    Medium,
    High,
}

} // verus!
