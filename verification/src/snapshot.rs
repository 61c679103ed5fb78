//! The whole state of a list as plain data, for saving and loading.

use crate::model::TodoListView;
use crate::todo::{views, Todo};
use vstd::prelude::*;

verus! {

/// What a saved document holds: the records in order, and the id that the
/// next new record will get. Any values can stand in it; `TodoList::restore`
/// accepts those that describe a list.
#[derive(Debug)]
pub struct Snapshot {
    pub todos: Vec<Todo>,
    pub next_id: usize,
}

impl View for Snapshot {
    type V = TodoListView;

    open spec fn view(&self) -> TodoListView {
        TodoListView { todos: views(self.todos@), next_id: self.next_id as int }
    }
}

/// Why a snapshot describes no list.
#[derive(Clone, Copy, Debug, PartialEq, Eq, Structural)]
pub enum SnapshotError {
    /// `next_id` is 0, or some record's id is 0 or not below `next_id`.
    IdOutOfRange,
    /// Every id is in range, but two records share one.
    DuplicateId,
}

} // verus!
