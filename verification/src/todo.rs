//! One todo record.

use crate::model::TodoView;
use crate::timestamp::Timestamp;
use vstd::prelude::*;

verus! {

/// A task: its id, its text, whether it is done, and when it was created and
/// last touched.
///
/// A list hands out its records by shared reference or as copies, so a
/// record that a caller holds or builds never changes what a list holds.
#[derive(Debug)]
pub struct Todo {
    pub id: usize,
    pub title: String,
    pub description: String,
    pub completed: bool,
    pub created_at: Timestamp,
    pub updated_at: Timestamp,
}

impl View for Todo {
    type V = TodoView;

    open spec fn view(&self) -> TodoView {
        TodoView {
            id: self.id as int,
            title: self.title@,
            description: self.description@,
            completed: self.completed,
            created_at: self.created_at,
            updated_at: self.updated_at,
        }
    }
}

impl Clone for Todo {
    fn clone(&self) -> (copy: Todo)
        ensures
            copy@ == self@,
    {
        Todo {
            id: self.id,
            title: self.title.clone(),
            description: self.description.clone(),
            completed: self.completed,
            created_at: self.created_at,
            updated_at: self.updated_at,
        }
    }
}

impl PartialEq for Todo {
    fn eq(&self, other: &Todo) -> (same: bool) {
        self.id == other.id && self.title == other.title && self.description == other.description
            && self.completed == other.completed && self.created_at == other.created_at
            && self.updated_at == other.updated_at
    }
}

impl vstd::std_specs::cmp::PartialEqSpecImpl for Todo {
    open spec fn obeys_eq_spec() -> bool {
        true
    }

    /// Two records are equal when they hold the same.
    open spec fn eq_spec(&self, other: &Todo) -> bool {
        self@ == other@
    }
}

impl Eq for Todo {

}

/// What a run of records holds, one for one.
pub open spec fn views(todos: Seq<Todo>) -> Seq<TodoView> {
    todos.map_values(|todo: Todo| todo@)
}

} // verus!
