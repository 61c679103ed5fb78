//! What finding a record shows after it was created, edited or toggled, and
//! how the time stamps of a list stay in order.

use crate::history::Op;
use crate::model::{TodoListView, TodoView};
use crate::timestamp::Timestamp;
use vstd::prelude::*;

verus! {

impl Timestamp {
    /// The order of instants is reflexive, transitive and total.
    pub proof fn lemma_le_is_total_order(self, b: Timestamp, c: Timestamp)
        ensures
            self.le(self),
            self.le(b) && b.le(c) ==> self.le(c),
            self.le(b) && b.le(self) ==> self == b,
            self.le(b) || b.le(self),
    {
    }
}

impl TodoListView {
    /// An operation on the record `id` leaves it where it stood, and
    /// replaces it: the proof that the three laws below share.
    proof fn lemma_replaced_in_place(self, id: int, record: TodoView)
        requires
            self.contains_id(id),
            record.id == id,
        ensures
            (TodoListView { todos: self.todos.update(self.position(id), record), ..self }).find(id)
                == Some(record),
    {
        self.lemma_position_is_first(id);
        let i = self.position(id);
        let after = TodoListView { todos: self.todos.update(i, record), ..self };
        assert forall|j: int| 0 <= j < i implies (#[trigger] after.todos[j]).id != id by {
            assert(self.todos[j].id != id);
        }
        after.lemma_first_at_unique(id, i);
    }

    /// A new record is found under the id it was given, as it was created:
    /// not completed, and touched when it was created.
    pub proof fn lemma_find_after_create(
        self,
        title: Seq<char>,
        description: Seq<char>,
        now: Timestamp,
    )
        requires
            self.wf(),
        ensures
            self.created(title, description, now).find(self.next_id) == Some(
                TodoView::fresh(self.next_id, title, description, now),
            ),
    {
        let after = self.created(title, description, now);
        let last = self.todos.len() as int;
        assert forall|j: int| 0 <= j < last implies (#[trigger] after.todos[j]).id
            != self.next_id by {
            assert(self.todos[j].id < self.next_id);
        }
        after.lemma_first_at_unique(self.next_id, last);
    }

    /// After an edit, the record is found with the new title and
    /// description and is otherwise what it was, but for the time of its
    /// last touch, which is `now`: not earlier than before, unless the clock
    /// was set back.
    pub proof fn lemma_find_after_edit(
        self,
        id: int,
        title: Seq<char>,
        description: Seq<char>,
        now: Timestamp,
    )
        requires
            self.contains_id(id),
            self.find(id)->0.updated_at.le(now),
        ensures
            self.edited(id, title, description, now).find(id) matches Some(record) && {
                &&& record.title == title
                &&& record.description == description
                &&& record.updated_at == now
                &&& self.find(id)->0.updated_at.le(record.updated_at)
                &&& record.id == id
                &&& record.completed == self.find(id)->0.completed
                &&& record.created_at == self.find(id)->0.created_at
            },
    {
        self.lemma_position_is_first(id);
        let old = self.todos[self.position(id)];
        self.lemma_replaced_in_place(id, old.rewritten(title, description, now));
    }

    /// After a toggle, the record is found with its flag flipped and is
    /// otherwise what it was, but for the time of its last touch.
    pub proof fn lemma_find_after_toggle(self, id: int, now: Timestamp)
        requires
            self.contains_id(id),
        ensures
            self.toggled(id, now).find(id) == Some(self.find(id)->0.flipped(now)),
    {
        self.lemma_position_is_first(id);
        let old = self.todos[self.position(id)];
        self.lemma_replaced_in_place(id, old.flipped(now));
    }

    /// Two toggles of the same record bring its flag back to what it was
    /// and change nothing else in the list but the time of the record's last
    /// touch, which each toggle sets: it moves on with each of them, as long
    /// as the clock is not set back.
    pub proof fn lemma_toggle_twice(self, id: int, first: Timestamp, second: Timestamp)
        requires
            self.contains_id(id),
            self.find(id)->0.updated_at.le(first),
            first.le(second),
        ensures
            self.toggled(id, first).toggled(id, second) == (TodoListView {
                todos: self.todos.update(
                    self.position(id),
                    TodoView { updated_at: second, ..self.find(id)->0 },
                ),
                ..self
            }),
            self.toggled(id, first).toggled(id, second).find(id) == Some(
                TodoView { updated_at: second, ..self.find(id)->0 },
            ),
            self.toggled(id, first).find(id)->0.updated_at == first,
            self.find(id)->0.updated_at.le(self.toggled(id, first).find(id)->0.updated_at),
            self.toggled(id, first).find(id)->0.updated_at.le(
                self.toggled(id, first).toggled(id, second).find(id)->0.updated_at,
            ),
    {
        self.lemma_position_is_first(id);
        let i = self.position(id);
        let old = self.todos[i];
        let once = self.toggled(id, first);
        self.lemma_find_after_toggle(id, first);
        assert forall|j: int| 0 <= j < i implies (#[trigger] once.todos[j]).id != id by {
            assert(self.todos[j].id != id);
        }
        once.lemma_first_at_unique(id, i);
        let twice = once.toggled(id, second);
        once.lemma_find_after_toggle(id, second);
        assert(twice.todos =~= self.todos.update(i, TodoView { updated_at: second, ..old }));
    }

    /// The operation does not touch a record at a time before the record
    /// was created: what a clock that is never set back gives.
    pub open spec fn in_time(self, op: Op) -> bool {
        match op {
            Op::Create { title, description, now } => true,
            Op::Edit { id, title, description, now } => self.contains_id(id) ==> self.find(
                id,
            )->0.created_at.le(now),
            Op::Delete { id } => true,
            Op::Toggle { id, now } => self.contains_id(id) ==> self.find(id)->0.created_at.le(now),
        }
    }

    /// Where no record was touched before it was created, none is after an
    /// operation that is in time.
    pub proof fn lemma_apply_keeps_chronological(self, op: Op)
        requires
            self.chronological(),
            self.in_time(op),
        ensures
            self.apply(op).chronological(),
    {
        let after = self.apply(op);
        assert forall|k: int| 0 <= k < after.todos.len() implies (#[trigger] after.todos[k])
            .chronological() by {
            match op {
                Op::Create { title, description, now } => {
                    if k < self.todos.len() {
                        assert(self.todos[k].chronological());
                    }
                },
                Op::Edit { id, title, description, now } => {
                    if self.contains_id(id) {
                        self.lemma_position_is_first(id);
                    }
                    assert(self.todos[k].chronological());
                },
                Op::Delete { id } => {
                    if self.contains_id(id) {
                        self.lemma_position_is_first(id);
                        if k < self.position(id) {
                            assert(self.todos[k].chronological());
                        } else {
                            assert(self.todos[k + 1].chronological());
                        }
                    } else {
                        assert(self.todos[k].chronological());
                    }
                },
                Op::Toggle { id, now } => {
                    if self.contains_id(id) {
                        self.lemma_position_is_first(id);
                    }
                    assert(self.todos[k].chronological());
                },
            }
        }
    }

    /// Every operation of the run is in time for the list that it meets.
    pub open spec fn all_in_time(self, ops: Seq<Op>) -> bool {
        forall|k: int|
            0 <= k < ops.len() ==> self.apply_all(#[trigger] ops.take(k)).in_time(ops[k])
    }

    /// Where no record was touched before it was created, none is after a
    /// run of operations that are all in time.
    pub proof fn lemma_apply_all_keeps_chronological(self, ops: Seq<Op>)
        requires
            self.chronological(),
            self.all_in_time(ops),
        ensures
            self.apply_all(ops).chronological(),
        decreases ops.len(),
    {
        if ops.len() > 0 {
            let front = ops.drop_last();
            assert forall|k: int| 0 <= k < front.len() implies self.apply_all(
                #[trigger] front.take(k),
            ).in_time(front[k]) by {
                assert(front.take(k) =~= ops.take(k));
            }
            self.lemma_apply_all_keeps_chronological(front);
            assert(ops.take(ops.len() - 1) =~= front);
            self.apply_all(front).lemma_apply_keeps_chronological(ops.last());
        }
    }
}

} // verus!
