//! The list of todo records and its operations.

use crate::model::{TodoListView, TodoView};
use crate::snapshot::{Snapshot, SnapshotError};
use crate::timestamp::Timestamp;
use crate::todo::{views, Todo};
use std::collections::HashSet;
use vstd::prelude::*;

verus! {

/// The records in insertion order, and the counter that gives each new record
/// its id.
///
/// Every list is well formed (`TodoListView::wf`): the fields are private and
/// each operation keeps them so.
#[derive(Debug)]
pub struct TodoList {
    todos: Vec<Todo>,
    next_id: usize,
}

impl Default for TodoList {
    /// The empty list, as `TodoList::new` gives it.
    fn default() -> (list: TodoList)
        ensures
            list@ == TodoListView::empty(),
            list@.wf(),
    {
        TodoList::new()
    }
}

impl View for TodoList {
    type V = TodoListView;

    closed spec fn view(&self) -> TodoListView {
        TodoListView { todos: views(self.todos@), next_id: self.next_id as int }
    }
}

impl TodoList {
    #[verifier::type_invariant]
    spec fn well_formed(&self) -> bool {
        self@.wf()
    }

    /// The empty list; its first record will get the id 1.
    pub fn new() -> (list: TodoList)
        ensures
            list@ == TodoListView::empty(),
            list@.wf(),
    {
        let list = TodoList { todos: Vec::new(), next_id: 1 };
        assert(list@.todos =~= Seq::<TodoView>::empty());
        list
    }

    /// Appends a record created at `now` and returns a copy of it.
    ///
    /// The counter must have room for one more id.
    pub fn add_todo_at(
        &mut self,
        title: String,
        description: String,
        now: Timestamp,
    ) -> (todo: Todo)
        requires
            old(self)@.next_id < usize::MAX,
        ensures
            final(self)@ == old(self)@.created(title@, description@, now),
            final(self)@.wf(),
            todo@ == TodoView::fresh(old(self)@.next_id, title@, description@, now),
    {
        proof {
            use_type_invariant(&*self);
        }
        let todo = Todo {
            id: self.next_id,
            title,
            description,
            completed: false,
            created_at: now,
            updated_at: now,
        };
        let copy = todo.clone();
        let mut todos = Vec::new();
        std::mem::swap(&mut todos, &mut self.todos);
        todos.push(todo);
        self.next_id = self.next_id + 1;
        assert(views(todos@) =~= old(self)@.todos.push(copy@));
        self.todos = todos;
        copy
    }

    /// Appends a record created at the present time and returns a copy of
    /// it.
    ///
    /// The counter must have room for one more id.
    pub fn add_todo(&mut self, title: String, description: String) -> (todo: Todo)
        requires
            old(self)@.next_id < usize::MAX,
        ensures
            final(self)@ == old(self)@.created(title@, description@, todo.created_at),
            final(self)@.wf(),
            todo@ == TodoView::fresh(old(self)@.next_id, title@, description@, todo.created_at),
    {
        let now = Timestamp::now();
        self.add_todo_at(title, description, now)
    }

    /// The place of the first record with this id.
    fn index_of(&self, id: usize) -> (place: Option<usize>)
        ensures
            self@.wf(),
            match place {
                Some(i) => self@.first_at(id as int, i as int) && i < self.todos.len(),
                None => !self@.contains_id(id as int),
            },
    {
        proof {
            use_type_invariant(self);
        }
        let mut i: usize = 0;
        while i < self.todos.len()
            invariant
                self@.wf(),
                i <= self.todos.len(),
                forall|j: int| 0 <= j < i ==> (#[trigger] self@.todos[j]).id != id,
            decreases self.todos.len() - i,
        {
            if self.todos[i].id == id {
                return Some(i);
            }
            i = i + 1;
        }
        None
    }

    /// The record with this id, if the list holds one.
    pub fn get_todo(&self, id: usize) -> (found: Option<&Todo>)
        ensures
            self@.wf(),
            match found {
                Some(todo) => self@.find(id as int) == Some(todo@),
                None => self@.find(id as int) is None,
            },
    {
        match self.index_of(id) {
            Some(i) => {
                proof {
                    self@.lemma_first_at_unique(id as int, i as int);
                }
                Some(&self.todos[i])
            },
            None => None,
        }
    }

    /// Gives the record `id` a new title and description and marks it as
    /// touched at `now`. Returns whether the list holds such a record; where
    /// it does not, nothing changes.
    pub fn edit_todo_at(
        &mut self,
        id: usize,
        title: String,
        description: String,
        now: Timestamp,
    ) -> (found: bool)
        ensures
            found == old(self)@.contains_id(id as int),
            final(self)@ == old(self)@.edited(id as int, title@, description@, now),
            final(self)@.wf(),
    {
        match self.index_of(id) {
            Some(i) => {
                proof {
                    self@.lemma_first_at_unique(id as int, i as int);
                }
                let mut todos = Vec::new();
                std::mem::swap(&mut todos, &mut self.todos);
                todos[i].title = title;
                todos[i].description = description;
                todos[i].updated_at = now;
                assert(views(todos@) =~= old(self)@.todos.update(
                    i as int,
                    old(self)@.todos[i as int].rewritten(title@, description@, now),
                ));
                self.todos = todos;
                true
            },
            None => false,
        }
    }

    /// Gives the record `id` a new title and description and marks it as
    /// touched at the present time. Returns whether the list holds such a
    /// record; where it does not, nothing changes.
    pub fn edit_todo(&mut self, id: usize, title: String, description: String) -> (found: bool)
        ensures
            found == old(self)@.contains_id(id as int),
            exists|now: Timestamp|
                final(self)@ == #[trigger] old(self)@.edited(id as int, title@, description@, now),
            final(self)@.wf(),
    {
        let now = Timestamp::now();
        self.edit_todo_at(id, title, description, now)
    }

    /// Takes the record `id` out of the list; the others keep their order.
    /// Returns whether the list held such a record.
    pub fn delete_todo(&mut self, id: usize) -> (found: bool)
        ensures
            found == old(self)@.contains_id(id as int),
            final(self)@ == old(self)@.removed(id as int),
            final(self)@.wf(),
    {
        match self.index_of(id) {
            Some(i) => {
                proof {
                    self@.lemma_first_at_unique(id as int, i as int);
                }
                let mut todos = Vec::new();
                std::mem::swap(&mut todos, &mut self.todos);
                let _ = todos.remove(i);
                assert(views(todos@) =~= old(self)@.todos.remove(i as int));
                self.todos = todos;
                true
            },
            None => false,
        }
    }

    /// Flips the completion flag of the record `id` and marks it as touched
    /// at `now`. Returns whether the list holds such a record; where it does
    /// not, nothing changes.
    pub fn toggle_completed_at(&mut self, id: usize, now: Timestamp) -> (found: bool)
        ensures
            found == old(self)@.contains_id(id as int),
            final(self)@ == old(self)@.toggled(id as int, now),
            final(self)@.wf(),
    {
        match self.index_of(id) {
            Some(i) => {
                proof {
                    self@.lemma_first_at_unique(id as int, i as int);
                }
                let mut todos = Vec::new();
                std::mem::swap(&mut todos, &mut self.todos);
                todos[i].completed = !todos[i].completed;
                todos[i].updated_at = now;
                assert(views(todos@) =~= old(self)@.todos.update(
                    i as int,
                    old(self)@.todos[i as int].flipped(now),
                ));
                self.todos = todos;
                true
            },
            None => false,
        }
    }

    /// Flips the completion flag of the record `id` and marks it as touched
    /// at the present time. Returns whether the list holds such a record;
    /// where it does not, nothing changes.
    pub fn toggle_completed(&mut self, id: usize) -> (found: bool)
        ensures
            found == old(self)@.contains_id(id as int),
            exists|now: Timestamp| final(self)@ == #[trigger] old(self)@.toggled(id as int, now),
            final(self)@.wf(),
    {
        let now = Timestamp::now();
        self.toggle_completed_at(id, now)
    }

    /// All records, in insertion order.
    pub fn list_todos(&self) -> (todos: &Vec<Todo>)
        ensures
            views(todos@) == self@.todos,
            self@.wf(),
    {
        proof {
            use_type_invariant(self);
        }
        &self.todos
    }

    /// The id that the next new record will get.
    pub fn next_id(&self) -> (id: usize)
        ensures
            id == self@.next_id,
            self@.wf(),
    {
        proof {
            use_type_invariant(self);
        }
        self.next_id
    }

    /// The whole state as plain data, with a copy of each record.
    pub fn snapshot(&self) -> (snapshot: Snapshot)
        ensures
            snapshot@ == self@,
            self@.wf(),
    {
        proof {
            use_type_invariant(self);
        }
        let mut todos: Vec<Todo> = Vec::new();
        let mut i: usize = 0;
        while i < self.todos.len()
            invariant
                i <= self.todos.len(),
                todos.len() == i,
                forall|j: int| 0 <= j < i ==> (#[trigger] todos@[j])@ == self.todos@[j]@,
            decreases self.todos.len() - i,
        {
            todos.push(self.todos[i].clone());
            i = i + 1;
        }
        assert(views(todos@) =~= views(self.todos@));
        Snapshot { todos, next_id: self.next_id }
    }

    /// The list that a snapshot describes: the same records in the same
    /// order, and the same counter. A snapshot that breaks what holds of
    /// every list (`TodoListView::wf`) is refused.
    pub fn from_snapshot(snapshot: Snapshot) -> (loaded: Result<TodoList, SnapshotError>)
        ensures
            match loaded {
                Ok(list) => snapshot@.wf() && list@ == snapshot@,
                Err(SnapshotError::IdOutOfRange) => !snapshot@.ids_in_range(),
                Err(SnapshotError::DuplicateId) => snapshot@.ids_in_range()
                    && !snapshot@.ids_distinct(),
            },
    {
        broadcast use vstd::std_specs::hash::group_hash_axioms;

        let ghost model = snapshot@;
        let Snapshot { todos, next_id } = snapshot;
        if next_id == 0 {
            return Err(SnapshotError::IdOutOfRange);
        }
        let mut i: usize = 0;
        while i < todos.len()
            invariant
                i <= todos.len(),
                model == snapshot@,
                model.todos == views(todos@),
                model.next_id == next_id,
                forall|j: int| 0 <= j < i ==> 1 <= (#[trigger] model.todos[j]).id < next_id,
            decreases todos.len() - i,
        {
            if todos[i].id == 0 || todos[i].id >= next_id {
                assert(!(1 <= model.todos[i as int].id < model.next_id));
                return Err(SnapshotError::IdOutOfRange);
            }
            i = i + 1;
        }
        let mut seen: HashSet<usize> = HashSet::new();
        let mut k: usize = 0;
        while k < todos.len()
            invariant
                k <= todos.len(),
                model == snapshot@,
                model.todos == views(todos@),
                model.next_id == next_id,
                model.ids_in_range(),
                forall|a: int, b: int|
                    0 <= a < b < k ==> (#[trigger] model.todos[a]).id
                        != (#[trigger] model.todos[b]).id,
                forall|id: usize|
                    seen@.contains(id) <==> exists|a: int|
                        0 <= a < k && (#[trigger] model.todos[a]).id == id,
            decreases todos.len() - k,
        {
            let fresh = seen.insert(todos[k].id);
            if !fresh {
                let ghost a = choose|a: int|
                    0 <= a < k && (#[trigger] model.todos[a]).id == todos[k as int].id;
                assert(model.todos[a].id == model.todos[k as int].id);
                return Err(SnapshotError::DuplicateId);
            }
            assert forall|id: usize| seen@.contains(id) implies exists|a: int|
                0 <= a < k + 1 && (#[trigger] model.todos[a]).id == id by {
                if id == todos[k as int].id {
                    assert(model.todos[k as int].id == id);
                } else {
                    let a = choose|a: int| 0 <= a < k && (#[trigger] model.todos[a]).id == id;
                    assert(model.todos[a].id == id);
                }
            }
            k = k + 1;
        }
        Ok(TodoList { todos, next_id })
    }

    /// The list to start with: a new one where nothing was saved, else the
    /// one that the saved snapshot describes.
    pub fn restore(saved: Option<Snapshot>) -> (loaded: Result<TodoList, SnapshotError>)
        ensures
            match saved {
                None => loaded matches Ok(list) && list@ == TodoListView::empty(),
                Some(snapshot) => match loaded {
                    Ok(list) => snapshot@.wf() && list@ == snapshot@,
                    Err(SnapshotError::IdOutOfRange) => !snapshot@.ids_in_range(),
                    Err(SnapshotError::DuplicateId) => snapshot@.ids_in_range()
                        && !snapshot@.ids_distinct(),
                },
            },
    {
        match saved {
            None => Ok(TodoList::new()),
            Some(snapshot) => TodoList::from_snapshot(snapshot),
        }
    }
}

} // verus!
