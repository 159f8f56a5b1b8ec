//! The relational store, modeled as an in-memory table of todo records whose
//! invariant is that no two live records share an identifier. Each operation
//! is a single atomic step: it either fully succeeds and is visible to
//! subsequent reads, or leaves the table unchanged.

use vstd::prelude::*;

use crate::models::{
    created_record, replaced_record, NewTodo, Todo, TodoView, UpdateTodo,
};

verus! {

/// A table holds a record with the given identifier.
pub open spec fn contains_id(s: Seq<TodoView>, id: u128) -> bool {
    exists|i: int| 0 <= i < s.len() && #[trigger] s[i].id == id
}

/// The position of the record with the given identifier; meaningful only
/// when the table contains the identifier, unambiguous when ids are distinct.
pub open spec fn index_of_id(s: Seq<TodoView>, id: u128) -> int {
    choose|i: int| 0 <= i < s.len() && #[trigger] s[i].id == id
}

/// The record stored under the given identifier.
pub open spec fn record_of(s: Seq<TodoView>, id: u128) -> TodoView {
    s[index_of_id(s, id)]
}

/// No two live records share an identifier.
pub open spec fn distinct_ids(s: Seq<TodoView>) -> bool {
    forall|i: int, j: int|
        #![trigger s[i].id, s[j].id]
        0 <= i < j < s.len() ==> s[i].id != s[j].id
}

/// With distinct identifiers, any position holding the identifier is the
/// position `index_of_id` denotes.
pub proof fn lemma_index_of_id_unique(s: Seq<TodoView>, id: u128, k: int)
    requires
        distinct_ids(s),
        0 <= k < s.len(),
        s[k].id == id,
    ensures
        contains_id(s, id),
        index_of_id(s, id) == k,
        record_of(s, id) == s[k],
{
    assert(contains_id(s, id));
    let i = index_of_id(s, id);
    if i < k {
        assert(s[i].id != s[k].id);
    } else if k < i {
        assert(s[k].id != s[i].id);
    }
}

/// Law: inserting a record with a fresh identifier keeps identifiers
/// distinct, and looking that identifier up afterwards finds exactly the
/// inserted record.
pub proof fn lemma_insert_then_find(s: Seq<TodoView>, t: TodoView)
    requires
        distinct_ids(s),
        !contains_id(s, t.id),
    ensures
        distinct_ids(s.push(t)),
        contains_id(s.push(t), t.id),
        record_of(s.push(t), t.id) == t,
{
    let s2 = s.push(t);
    assert forall|i: int, j: int|
        #![trigger s2[i].id, s2[j].id]
        0 <= i < j < s2.len() implies s2[i].id != s2[j].id by {
        if j < s.len() as int {
            assert(s[i].id != s[j].id);
        } else {
            assert(s2[j] == t);
            assert(s2[i] == s[i]);
            assert(s[i].id != t.id);
        }
    }
    lemma_index_of_id_unique(s2, t.id, s.len() as int);
}

/// Law: deleting a record removes its identifier for good — with distinct
/// identifiers, the table left behind no longer contains it, so a second
/// delete of the same identifier finds nothing.
pub proof fn lemma_delete_is_final(s: Seq<TodoView>, id: u128)
    requires
        distinct_ids(s),
        contains_id(s, id),
    ensures
        distinct_ids(s.remove(index_of_id(s, id))),
        !contains_id(s.remove(index_of_id(s, id)), id),
{
    let i = index_of_id(s, id);
    let s2 = s.remove(i);
    assert forall|k: int| 0 <= k < s2.len() implies #[trigger] s2[k].id != id by {
        if k < i {
            assert(s2[k] == s[k]);
            assert(s[k].id != s[i].id);
        } else {
            assert(s2[k] == s[k + 1]);
            assert(s[i].id != s[k + 1].id);
        }
    }
    assert forall|a: int, b: int|
        #![trigger s2[a].id, s2[b].id]
        0 <= a < b < s2.len() implies s2[a].id != s2[b].id by {
        let a0: int = if a < i { a } else { a + 1 };
        let b0: int = if b < i { b } else { b + 1 };
        assert(s2[a] == s[a0]);
        assert(s2[b] == s[b0]);
        assert(s[a0].id != s[b0].id);
    }
}

/// The in-memory table of persisted records.
pub struct Store {
    rows: Vec<Todo>,
}

impl Store {
    /// The table's model: the sequence of record images, in storage order.
    pub closed spec fn view(&self) -> Seq<TodoView> {
        self.rows@.map_values(|t: Todo| t@)
    }

    /// Well-formedness: every live record has a unique identifier.
    pub open spec fn wf(&self) -> bool {
        distinct_ids(self@)
    }

    /// An empty table.
    pub fn new() -> (s: Store)
        ensures
            s@ == Seq::<TodoView>::empty(),
            s.wf(),
    {
        let s = Store { rows: Vec::new() };
        proof {
            assert(s@ =~= Seq::<TodoView>::empty());
        }
        s
    }

    /// The position of the row holding the identifier, if any.
    fn find_index(&self, id: u128) -> (r: Option<usize>)
        ensures
            match r {
                Some(i) => i < self@.len() && self@[i as int].id == id,
                None => !contains_id(self@, id),
            },
    {
        let n: usize = self.rows.len();
        let mut i: usize = 0;
        while i < n
            invariant
                n == self.rows.len(),
                i <= n,
                forall|j: int| 0 <= j < i ==> #[trigger] self@[j].id != id,
            decreases n - i,
        {
            if self.rows[i].id == id {
                return Some(i);
            }
            i += 1;
        }
        None
    }

    /// All records, in storage order.
    pub fn list(&self) -> (r: Vec<Todo>)
        ensures
            r@.len() == self@.len(),
            forall|i: int| 0 <= i < r@.len() ==> #[trigger] r@[i]@ == self@[i],
    {
        let n: usize = self.rows.len();
        let mut out: Vec<Todo> = Vec::new();
        let mut i: usize = 0;
        while i < n
            invariant
                n == self.rows.len(),
                i <= n,
                out@.len() == i,
                forall|j: int| 0 <= j < i ==> #[trigger] out@[j]@ == self@[j],
            decreases n - i,
        {
            out.push(self.rows[i].clone());
            i += 1;
        }
        out
    }

    /// Look a record up by primary key: the stored record when the
    /// identifier is live, nothing otherwise.
    pub fn find_by_id(&self, id: u128) -> (r: Option<Todo>)
        requires
            self.wf(),
        ensures
            match r {
                Some(t) => contains_id(self@, id) && t@ == record_of(self@, id),
                None => !contains_id(self@, id),
            },
    {
        match self.find_index(id) {
            Some(i) => {
                proof {
                    lemma_index_of_id_unique(self@, id, i as int);
                }
                Some(self.rows[i].clone())
            },
            None => None,
        }
    }

    /// Insert a new record under a store-assigned identifier and creation
    /// time. Fails, leaving the table unchanged, when the identifier is
    /// already live (the primary-key constraint).
    pub fn insert(&mut self, new: &NewTodo, id: u128, now: i64) -> (r: Option<Todo>)
        requires
            old(self).wf(),
        ensures
            final(self).wf(),
            match r {
                Some(t) => !contains_id(old(self)@, id) && t@ == created_record(new@, id, now)
                    && final(self)@ == old(self)@.push(t@) && record_of(final(self)@, id) == t@
                    && contains_id(final(self)@, id),
                None => contains_id(old(self)@, id) && final(self)@ == old(self)@,
            },
    {
        match self.find_index(id) {
            Some(_) => None,
            None => {
                let t = Todo {
                    id: id,
                    todo: new.todo.clone(),
                    done: match new.done {
                        Some(b) => b,
                        None => false,
                    },
                    created_at: Some(now),
                    updated_at: None,
                };
                let out = t.clone();
                self.rows.push(t);
                proof {
                    assert(self@ =~= old(self)@.push(out@));
                    lemma_insert_then_find(old(self)@, out@);
                }
                Some(out)
            },
        }
    }

    /// Replace-style update by primary key: sets the text and completion
    /// flag (defaults when absent) and the update time, keeps the identifier
    /// and creation time, and returns the row left behind. Fails, leaving
    /// the table unchanged, when the identifier matches no row.
    pub fn update_replace(&mut self, id: u128, upd: &UpdateTodo, now: i64) -> (r: Option<Todo>)
        requires
            old(self).wf(),
        ensures
            final(self).wf(),
            match r {
                Some(t) => contains_id(old(self)@, id)
                    && t@ == replaced_record(record_of(old(self)@, id), upd@, now)
                    && final(self)@ == old(self)@.update(index_of_id(old(self)@, id), t@),
                None => !contains_id(old(self)@, id) && final(self)@ == old(self)@,
            },
    {
        match self.find_index(id) {
            Some(i) => {
                proof {
                    lemma_index_of_id_unique(self@, id, i as int);
                }
                let prev_created: Option<i64> = self.rows[i].created_at;
                let t = Todo {
                    id: id,
                    todo: match &upd.todo {
                        Some(text) => text.clone(),
                        None => String::new(),
                    },
                    done: match upd.done {
                        Some(b) => b,
                        None => false,
                    },
                    created_at: prev_created,
                    updated_at: Some(now),
                };
                let out = t.clone();
                self.rows[i] = t;
                proof {
                    assert(self@ =~= old(self)@.update(i as int, out@));
                    assert forall|a: int, b: int|
                        #![trigger self@[a].id, self@[b].id]
                        0 <= a < b < self@.len() implies self@[a].id != self@[b].id by {
                        assert(self@[a].id == old(self)@[a].id);
                        assert(self@[b].id == old(self)@[b].id);
                        assert(old(self)@[a].id != old(self)@[b].id);
                    }
                }
                Some(out)
            },
            None => None,
        }
    }

    /// Delete by primary key: removes the single matching row and reports
    /// whether one was removed. Never removes more than one row, and a
    /// removed identifier is gone for good.
    pub fn delete_by_id(&mut self, id: u128) -> (r: bool)
        requires
            old(self).wf(),
        ensures
            final(self).wf(),
            r == contains_id(old(self)@, id),
            r ==> final(self)@ == old(self)@.remove(index_of_id(old(self)@, id))
                && !contains_id(final(self)@, id),
            !r ==> final(self)@ == old(self)@,
    {
        match self.find_index(id) {
            Some(i) => {
                proof {
                    lemma_index_of_id_unique(self@, id, i as int);
                }
                self.rows.remove(i);
                proof {
                    assert(self@ =~= old(self)@.remove(i as int));
                    lemma_delete_is_final(old(self)@, id);
                }
                true
            },
            None => false,
        }
    }
}

} // verus!
