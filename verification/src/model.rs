//! The mathematical model of a todo list: what a list is, and what each
//! operation makes of it.

use crate::timestamp::Timestamp;
use vstd::prelude::*;

verus! {

/// What a record holds.
pub struct TodoView {
    pub id: int,
    pub title: Seq<char>,
    pub description: Seq<char>,
    pub completed: bool,
    pub created_at: Timestamp,
    pub updated_at: Timestamp,
}

/// What a list holds: its records in insertion order, and the id that the
/// next new record will get.
pub struct TodoListView {
    pub todos: Seq<TodoView>,
    pub next_id: int,
}

impl TodoView {
    /// The record that `TodoListView::created` appends.
    pub open spec fn fresh(
        id: int,
        title: Seq<char>,
        description: Seq<char>,
        now: Timestamp,
    ) -> TodoView {
        TodoView { id, title, description, completed: false, created_at: now, updated_at: now }
    }

    /// The record with a new text, touched at `now`.
    pub open spec fn rewritten(
        self,
        title: Seq<char>,
        description: Seq<char>,
        now: Timestamp,
    ) -> TodoView {
        TodoView { title, description, updated_at: now, ..self }
    }

    /// The record with its completion flag flipped, touched at `now`.
    pub open spec fn flipped(self, now: Timestamp) -> TodoView {
        TodoView { completed: !self.completed, updated_at: now, ..self }
    }

    /// The record was not touched before it was created.
    pub open spec fn chronological(self) -> bool {
        self.created_at.le(self.updated_at)
    }
}

impl TodoListView {
    /// The list that holds nothing and has issued no id.
    pub open spec fn empty() -> TodoListView {
        TodoListView { todos: Seq::empty(), next_id: 1 }
    }

    /// `next_id` is positive, and every id is positive and below it.
    pub open spec fn ids_in_range(self) -> bool {
        &&& 1 <= self.next_id
        &&& forall|i: int|
            0 <= i < self.todos.len() ==> 1 <= (#[trigger] self.todos[i]).id < self.next_id
    }

    /// No two records share an id.
    pub open spec fn ids_distinct(self) -> bool {
        forall|i: int, j: int|
            0 <= i < j < self.todos.len() ==> (#[trigger] self.todos[i]).id
                != (#[trigger] self.todos[j]).id
    }

    /// What holds of every list: each id was issued by the counter, and to
    /// one record only.
    pub open spec fn wf(self) -> bool {
        self.ids_in_range() && self.ids_distinct()
    }

    /// No record was touched before it was created.
    pub open spec fn chronological(self) -> bool {
        forall|i: int| 0 <= i < self.todos.len() ==> (#[trigger] self.todos[i]).chronological()
    }

    /// Some record has this id.
    pub open spec fn contains_id(self, id: int) -> bool {
        exists|i: int| 0 <= i < self.todos.len() && (#[trigger] self.todos[i]).id == id
    }

    /// `i` is the place of the first record with this id.
    pub open spec fn first_at(self, id: int, i: int) -> bool {
        &&& 0 <= i < self.todos.len()
        &&& self.todos[i].id == id
        &&& forall|j: int| 0 <= j < i ==> (#[trigger] self.todos[j]).id != id
    }

    /// The place of the first record with this id, where there is one.
    pub open spec fn position(self, id: int) -> int {
        choose|i: int| self.first_at(id, i)
    }

    /// The first record with this id.
    pub open spec fn find(self, id: int) -> Option<TodoView> {
        if self.contains_id(id) {
            Some(self.todos[self.position(id)])
        } else {
            None
        }
    }

    /// The list after a record was created at `now`: it stands last, under
    /// the id `next_id`, and `next_id` has moved on by one.
    pub open spec fn created(
        self,
        title: Seq<char>,
        description: Seq<char>,
        now: Timestamp,
    ) -> TodoListView {
        TodoListView {
            todos: self.todos.push(TodoView::fresh(self.next_id, title, description, now)),
            next_id: self.next_id + 1,
        }
    }

    /// The list after the record `id` got a new text at `now`; the list
    /// itself where no record has that id.
    pub open spec fn edited(
        self,
        id: int,
        title: Seq<char>,
        description: Seq<char>,
        now: Timestamp,
    ) -> TodoListView {
        if self.contains_id(id) {
            let i = self.position(id);
            TodoListView {
                todos: self.todos.update(i, self.todos[i].rewritten(title, description, now)),
                ..self
            }
        } else {
            self
        }
    }

    /// The list after the record `id` had its completion flag flipped at
    /// `now`; the list itself where no record has that id.
    pub open spec fn toggled(self, id: int, now: Timestamp) -> TodoListView {
        if self.contains_id(id) {
            let i = self.position(id);
            TodoListView { todos: self.todos.update(i, self.todos[i].flipped(now)), ..self }
        } else {
            self
        }
    }

    /// The list without the record `id`, the others in their order; the list
    /// itself where no record has that id.
    pub open spec fn removed(self, id: int) -> TodoListView {
        if self.contains_id(id) {
            TodoListView { todos: self.todos.remove(self.position(id)), ..self }
        } else {
            self
        }
    }

    /// A record with this id is first found at exactly one place.
    pub proof fn lemma_first_at_unique(self, id: int, i: int)
        requires
            self.first_at(id, i),
        ensures
            self.contains_id(id),
            self.position(id) == i,
    {
        let k = self.position(id);
        assert(self.first_at(id, k));
        if k < i {
            assert(self.todos[k].id != id);
        }
        if i < k {
            assert(self.todos[i].id != id);
        }
    }

    /// Where a record has this id, `position` is the place of the first.
    pub proof fn lemma_position_is_first(self, id: int)
        requires
            self.contains_id(id),
        ensures
            self.first_at(id, self.position(id)),
    {
        let k = choose|k: int| 0 <= k < self.todos.len() && (#[trigger] self.todos[k]).id == id;
        self.lemma_first_exists_upto(id, k);
    }

    proof fn lemma_first_exists_upto(self, id: int, k: int)
        requires
            0 <= k < self.todos.len(),
            self.todos[k].id == id,
        ensures
            exists|i: int| self.first_at(id, i),
        decreases k,
    {
        if forall|j: int| 0 <= j < k ==> (#[trigger] self.todos[j]).id != id {
            assert(self.first_at(id, k));
        } else {
            let j = choose|j: int| 0 <= j < k && (#[trigger] self.todos[j]).id == id;
            self.lemma_first_exists_upto(id, j);
        }
    }
}

} // verus!
