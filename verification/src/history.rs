//! Runs of operations on the model of a list, and what holds of every run.

use crate::model::TodoListView;
use crate::timestamp::Timestamp;
use vstd::prelude::*;

verus! {

/// One operation that changes a list.
pub enum Op {
    Create { title: Seq<char>, description: Seq<char>, now: Timestamp },
    Edit { id: int, title: Seq<char>, description: Seq<char>, now: Timestamp },
    Delete { id: int },
    Toggle { id: int, now: Timestamp },
}

impl TodoListView {
    /// The list after one operation.
    pub open spec fn apply(self, op: Op) -> TodoListView {
        match op {
            Op::Create { title, description, now } => self.created(title, description, now),
            Op::Edit { id, title, description, now } => self.edited(id, title, description, now),
            Op::Delete { id } => self.removed(id),
            Op::Toggle { id, now } => self.toggled(id, now),
        }
    }

    /// The list after a run of operations, the first of them first.
    pub open spec fn apply_all(self, ops: Seq<Op>) -> TodoListView
        decreases ops.len(),
    {
        if ops.len() == 0 {
            self
        } else {
            self.apply_all(ops.drop_last()).apply(ops.last())
        }
    }

    /// The ids that the `Create` operations of a run give to their records,
    /// in the order of the run.
    pub open spec fn issued(self, ops: Seq<Op>) -> Seq<int>
        decreases ops.len(),
    {
        if ops.len() == 0 {
            Seq::empty()
        } else {
            let before = self.issued(ops.drop_last());
            if ops.last() is Create {
                before.push(self.apply_all(ops.drop_last()).next_id)
            } else {
                before
            }
        }
    }

    /// Every operation keeps a list well formed.
    pub proof fn lemma_apply_keeps_wf(self, op: Op)
        requires
            self.wf(),
        ensures
            self.apply(op).wf(),
    {
        match op {
            Op::Create { title, description, now } => {},
            Op::Edit { id, title, description, now } => {
                if self.contains_id(id) {
                    self.lemma_position_is_first(id);
                }
            },
            Op::Delete { id } => {
                if self.contains_id(id) {
                    self.lemma_position_is_first(id);
                }
            },
            Op::Toggle { id, now } => {
                if self.contains_id(id) {
                    self.lemma_position_is_first(id);
                }
            },
        }
    }

    /// Only `Create` moves the counter, and by one; and an operation brings
    /// in no id but the one that `Create` takes from the counter.
    pub proof fn lemma_apply_ids(self, op: Op, id: int)
        ensures
            self.apply(op).next_id == if op is Create {
                self.next_id + 1
            } else {
                self.next_id
            },
            self.apply(op).contains_id(id) ==> self.contains_id(id) || (op is Create && id
                == self.next_id),
    {
        let after = self.apply(op);
        if after.contains_id(id) {
            let k = choose|k: int| 0 <= k < after.todos.len() && (#[trigger] after.todos[k]).id == id;
            match op {
                Op::Create { title, description, now } => {
                    if k < self.todos.len() {
                        assert(self.todos[k].id == id);
                    }
                },
                Op::Edit { id: target, title, description, now } => {
                    if self.contains_id(target) {
                        self.lemma_position_is_first(target);
                        assert(self.todos[k].id == id);
                    }
                },
                Op::Delete { id: target } => {
                    if self.contains_id(target) {
                        self.lemma_position_is_first(target);
                        let p = self.position(target);
                        if k < p {
                            assert(self.todos[k].id == id);
                        } else {
                            assert(self.todos[k + 1].id == id);
                        }
                    }
                },
                Op::Toggle { id: target, now } => {
                    if self.contains_id(target) {
                        self.lemma_position_is_first(target);
                        assert(self.todos[k].id == id);
                    }
                },
            }
        }
    }

    /// Every run keeps a list well formed.
    pub proof fn lemma_apply_all_keeps_wf(self, ops: Seq<Op>)
        requires
            self.wf(),
        ensures
            self.apply_all(ops).wf(),
        decreases ops.len(),
    {
        if ops.len() > 0 {
            self.lemma_apply_all_keeps_wf(ops.drop_last());
            self.apply_all(ops.drop_last()).lemma_apply_keeps_wf(ops.last());
        }
    }

    /// The ids that a run issues count up by one from the list's counter,
    /// whatever else the run edits, toggles or deletes in between; and the
    /// counter ends past the last of them. From the empty list they are
    /// 1, 2, 3 and so on.
    pub proof fn lemma_issued_ids_count_up(self, ops: Seq<Op>)
        ensures
            forall|k: int|
                0 <= k < self.issued(ops).len() ==> #[trigger] self.issued(ops)[k] == self.next_id
                    + k,
            self.apply_all(ops).next_id == self.next_id + self.issued(ops).len(),
            self == TodoListView::empty() ==> self.issued(ops) =~= Seq::new(
                self.issued(ops).len(),
                |k: int| k + 1,
            ),
        decreases ops.len(),
    {
        if ops.len() > 0 {
            self.lemma_issued_ids_count_up(ops.drop_last());
            self.apply_all(ops.drop_last()).lemma_apply_ids(ops.last(), 0);
        }
    }

    /// An id below the counter that no record has is never seen again: no
    /// run issues it, and no list that a run leads to holds it.
    pub proof fn lemma_absent_id_stays_absent(self, id: int, ops: Seq<Op>)
        requires
            !self.contains_id(id),
            id < self.next_id,
        ensures
            !self.apply_all(ops).contains_id(id),
            !self.issued(ops).contains(id),
        decreases ops.len(),
    {
        self.lemma_issued_ids_count_up(ops);
        if ops.len() > 0 {
            let before = self.apply_all(ops.drop_last());
            self.lemma_absent_id_stays_absent(id, ops.drop_last());
            self.lemma_issued_ids_count_up(ops.drop_last());
            before.lemma_apply_ids(ops.last(), id);
        }
    }

    /// Once a record was deleted, its id is gone for good: the list no longer
    /// finds it, no later run of operations issues the id again, and no list
    /// that such a run leads to holds it.
    pub proof fn lemma_deleted_id_is_never_reused(self, id: int, ops: Seq<Op>)
        requires
            self.wf(),
            self.contains_id(id),
        ensures
            self.removed(id).find(id) is None,
            !self.removed(id).issued(ops).contains(id),
            self.removed(id).apply_all(ops).find(id) is None,
    {
        let gone = self.removed(id);
        self.lemma_position_is_first(id);
        let p = self.position(id);
        if gone.contains_id(id) {
            let k = choose|k: int| 0 <= k < gone.todos.len() && (#[trigger] gone.todos[k]).id == id;
            if k < p {
                assert(self.todos[k].id == id);
            } else {
                assert(self.todos[k + 1].id == id);
            }
        }
        gone.lemma_absent_id_stays_absent(id, ops);
    }
}

} // verus!
