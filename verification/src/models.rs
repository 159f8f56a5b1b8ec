//! The record model: the persisted todo entity, its two input payloads, and
//! the model-level images that contracts are stated over.

use vstd::prelude::*;

verus! {

/// Model-level image of a persisted todo record: the identifier as a plain
/// 128-bit number, the text as a character sequence, and the two timestamps
/// as microsecond counts.
pub struct TodoView {
    pub id: u128,
    pub todo: Seq<char>,
    pub done: bool,
    pub created_at: Option<i64>,
    pub updated_at: Option<i64>,
}

/// A persisted todo record. The identifier is assigned by the store at
/// creation and never changes; `created_at` is set once at insertion;
/// `updated_at` stays absent until the first successful update.
pub struct Todo {
    pub id: u128,
    pub todo: String,
    pub done: bool,
    pub created_at: Option<i64>,
    pub updated_at: Option<i64>,
}

impl View for Todo {
    type V = TodoView;

    open spec fn view(&self) -> TodoView {
        TodoView {
            id: self.id,
            todo: self.todo@,
            done: self.done,
            created_at: self.created_at,
            updated_at: self.updated_at,
        }
    }
}

impl Clone for Todo {
    fn clone(&self) -> (r: Self)
        ensures
            r@ == self@,
    {
        Todo {
            id: self.id,
            todo: self.todo.clone(),
            done: self.done,
            created_at: self.created_at,
            updated_at: self.updated_at,
        }
    }
}

/// Model-level image of a creation payload.
pub struct NewTodoView {
    pub todo: Seq<char>,
    pub done: Option<bool>,
}

/// Creation payload: the text is required, the completion flag optional and
/// taken as `false` when absent.
pub struct NewTodo {
    pub todo: String,
    pub done: Option<bool>,
}

impl View for NewTodo {
    type V = NewTodoView;

    open spec fn view(&self) -> NewTodoView {
        NewTodoView { todo: self.todo@, done: self.done }
    }
}

/// Model-level image of an update payload.
pub struct UpdateTodoView {
    pub todo: Option<Seq<char>>,
    pub done: Option<bool>,
}

/// Update payload: both fields are optional. This service applies a
/// replace-style update: an omitted field is set to its default (empty text,
/// not done) rather than preserved.
pub struct UpdateTodo {
    pub todo: Option<String>,
    pub done: Option<bool>,
}

impl View for UpdateTodo {
    type V = UpdateTodoView;

    open spec fn view(&self) -> UpdateTodoView {
        UpdateTodoView {
            todo: match self.todo {
                Some(ref t) => Some(t@),
                None => None,
            },
            done: self.done,
        }
    }
}

/// Legacy payload shape kept for backward compatibility with older clients.
pub struct Data {
    pub todo: String,
    pub done: bool,
}

/// The completion flag a record gets when the payload leaves it out.
pub open spec fn default_done(done: Option<bool>) -> bool {
    match done {
        Some(b) => b,
        None => false,
    }
}

/// The record materialized by a successful create: store-assigned identifier
/// and creation time, payload text, defaulted completion flag, and no update
/// time yet.
pub open spec fn created_record(new: NewTodoView, id: u128, now: i64) -> TodoView {
    TodoView {
        id: id,
        todo: new.todo,
        done: default_done(new.done),
        created_at: Some(now),
        updated_at: None,
    }
}

/// The record a successful replace-style update leaves behind: identifier and
/// creation time are kept, text and completion flag are taken from the
/// payload (or their defaults when absent), and the update time is set.
pub open spec fn replaced_record(prev: TodoView, upd: UpdateTodoView, now: i64) -> TodoView {
    TodoView {
        id: prev.id,
        todo: match upd.todo {
            Some(t) => t,
            None => Seq::<char>::empty(),
        },
        done: default_done(upd.done),
        created_at: prev.created_at,
        updated_at: Some(now),
    }
}

/// Law: a successful update stamps exactly the issued time and keeps the
/// identifier and creation time; and provided no earlier stamp lies after
/// the issued time — the one assumption, which only a clock stepped
/// backwards between the two updates would break — the update time never
/// decreases.
pub proof fn lemma_update_time_monotone(prev: TodoView, upd: UpdateTodoView, now: i64)
    requires
        prev.updated_at matches Some(p) ==> p <= now,
    ensures
        ({
            let u = replaced_record(prev, upd, now);
            u.updated_at == Some(now) && u.created_at == prev.created_at && u.id == prev.id && (
            prev.updated_at matches Some(p) ==> u.updated_at matches Some(q) && p <= q)
        }),
{
}

} // verus!
