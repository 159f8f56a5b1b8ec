//! The storage gateway and the five operation handlers.
//!
//! The gateway brokers bounded concurrent access to the store: every
//! operation first acquires a connection, does its single unit of work, and
//! releases the connection on every exit path. Each handler is a total
//! function from (gateway state, validated input) to a success payload or a
//! classified failure.

use vstd::prelude::*;

use crate::clock::now_micros;
use crate::ids::fresh_id;
use crate::models::{
    created_record, default_done, replaced_record, NewTodo, Todo, TodoView, UpdateTodo,
};
use crate::store::{contains_id, distinct_ids, index_of_id, record_of, Store};

verus! {

/// The classified failures an operation can end in.
#[derive(Clone, Copy, Debug, PartialEq, Eq, Structural)]
pub enum ApiError {
    /// The identifier matches no live record.
    NotFound,
    /// No connection could be acquired, or the store failed the statement
    /// for a reason other than "no match".
    StoreUnavailable,
    /// The path identifier does not parse as a UUID.
    MalformedId,
}

impl ApiError {
    /// The transport status each failure is surfaced as.
    pub open spec fn status_spec(&self) -> u16 {
        match self {
            ApiError::NotFound => 404,
            ApiError::StoreUnavailable => 500,
            ApiError::MalformedId => 400,
        }
    }

    /// Map a failure to its transport status code.
    pub fn status_code(&self) -> (r: u16)
        ensures
            r == self.status_spec(),
    {
        match self {
            ApiError::NotFound => 404,
            ApiError::StoreUnavailable => 500,
            ApiError::MalformedId => 400,
        }
    }
}

/// The storage gateway: the store together with a bounded pool of
/// connections. Acquisition fails when all connections are in use.
pub struct Gateway {
    store: Store,
    capacity: usize,
    in_use: usize,
}

/// The pool's bookkeeping is untouched between entry and exit: whatever a
/// handler acquired, it released.
pub open spec fn pool_preserved(pre: Gateway, post: Gateway) -> bool {
    post.pool_capacity() == pre.pool_capacity() && post.pool_in_use() == pre.pool_in_use()
}

impl Gateway {
    /// The store's contents, as a sequence of record images.
    pub closed spec fn contents(&self) -> Seq<TodoView> {
        self.store@
    }

    /// How many connections the pool was built with.
    pub closed spec fn pool_capacity(&self) -> nat {
        self.capacity as nat
    }

    /// How many connections are checked out.
    pub closed spec fn pool_in_use(&self) -> nat {
        self.in_use as nat
    }

    /// A connection can be acquired.
    pub open spec fn available(&self) -> bool {
        self.pool_in_use() < self.pool_capacity()
    }

    /// Well-formedness: no two live records share an identifier.
    pub open spec fn wf(&self) -> bool {
        distinct_ids(self.contents())
    }

    /// A gateway over an empty store, with the given pool bound.
    pub fn new(capacity: usize) -> (g: Gateway)
        ensures
            g.wf(),
            g.contents() == Seq::<TodoView>::empty(),
            g.pool_capacity() == capacity,
            g.pool_in_use() == 0,
    {
        Gateway { store: Store::new(), capacity: capacity, in_use: 0 }
    }

    /// Check a connection out; fails exactly when the pool is exhausted.
    fn acquire(&mut self) -> (r: bool)
        ensures
            final(self).contents() == old(self).contents(),
            final(self).pool_capacity() == old(self).pool_capacity(),
            r == old(self).available(),
            r ==> final(self).pool_in_use() == old(self).pool_in_use() + 1,
            !r ==> final(self).pool_in_use() == old(self).pool_in_use(),
    {
        if self.in_use < self.capacity {
            self.in_use = self.in_use + 1;
            true
        } else {
            false
        }
    }

    /// Return a checked-out connection to the pool.
    fn release(&mut self)
        requires
            old(self).pool_in_use() > 0,
        ensures
            final(self).contents() == old(self).contents(),
            final(self).pool_capacity() == old(self).pool_capacity(),
            final(self).pool_in_use() == old(self).pool_in_use() - 1,
    {
        self.in_use = self.in_use - 1;
    }
}

/// List every record. An empty store yields an empty sequence, never a
/// failure; the only failure is an exhausted pool.
pub fn get_todos(g: &mut Gateway) -> (r: Result<Vec<Todo>, ApiError>)
    requires
        old(g).wf(),
    ensures
        final(g).wf(),
        pool_preserved(*old(g), *final(g)),
        final(g).contents() == old(g).contents(),
        match r {
            Ok(v) => old(g).available() && v@.len() == old(g).contents().len() && forall|i: int|
                0 <= i < v@.len() ==> #[trigger] v@[i]@ == old(g).contents()[i],
            Err(e) => e == ApiError::StoreUnavailable && !old(g).available(),
        },
{
    if !g.acquire() {
        return Err(ApiError::StoreUnavailable);
    }
    let rows = g.store.list();
    g.release();
    Ok(rows)
}

/// Law: a listing of a well-formed gateway never shows the same identifier
/// twice. The records `get_todos` hands out mirror the store's contents,
/// and a well-formed store keeps its identifiers pairwise distinct.
pub proof fn lemma_listing_ids_distinct(g: Gateway, v: Seq<TodoView>)
    requires
        g.wf(),
        v.len() == g.contents().len(),
        forall|i: int| 0 <= i < v.len() ==> #[trigger] v[i] == g.contents()[i],
    ensures
        forall|i: int, j: int|
            #![trigger v[i].id, v[j].id]
            0 <= i < j < v.len() ==> v[i].id != v[j].id,
{
    assert forall|i: int, j: int|
        #![trigger v[i].id, v[j].id]
        0 <= i < j < v.len() implies v[i].id != v[j].id by {
        assert(v[i] == g.contents()[i]);
        assert(v[j] == g.contents()[j]);
        assert(g.contents()[i].id != g.contents()[j].id);
    }
}

/// Look one record up by identifier: the matching record, `NotFound` when
/// none matches, `StoreUnavailable` when no connection can be acquired.
pub fn get_todo(g: &mut Gateway, todo_id: u128) -> (r: Result<Todo, ApiError>)
    requires
        old(g).wf(),
    ensures
        final(g).wf(),
        pool_preserved(*old(g), *final(g)),
        final(g).contents() == old(g).contents(),
        match r {
            Ok(t) => old(g).available() && contains_id(old(g).contents(), todo_id) && t@
                == record_of(old(g).contents(), todo_id),
            Err(e) => (e == ApiError::StoreUnavailable && !old(g).available()) || (e
                == ApiError::NotFound && old(g).available() && !contains_id(
                old(g).contents(),
                todo_id,
            )),
        },
{
    if !g.acquire() {
        return Err(ApiError::StoreUnavailable);
    }
    let found = g.store.find_by_id(todo_id);
    g.release();
    match found {
        Some(t) => Ok(t),
        None => Err(ApiError::NotFound),
    }
}

/// Create a record under the given store-assigned identifier and creation
/// time. Succeeds exactly when a connection is available and the identifier
/// is fresh; a duplicate identifier is a store-level constraint violation,
/// surfaced like any other server-side failure.
pub fn create_todo_with(g: &mut Gateway, new: &NewTodo, id: u128, now: i64) -> (r: Result<
    Todo,
    ApiError,
>)
    requires
        old(g).wf(),
    ensures
        final(g).wf(),
        pool_preserved(*old(g), *final(g)),
        match r {
            Ok(t) => old(g).available() && !contains_id(old(g).contents(), id) && t@
                == created_record(new@, id, now) && final(g).contents() == old(g).contents().push(t@) && contains_id(final(g).contents(), id) && record_of(
                final(g).contents(),
                id,
            ) == t@,
            Err(e) => e == ApiError::StoreUnavailable && final(g).contents() == old(g).contents()
                && (!old(g).available() || contains_id(old(g).contents(), id)),
        },
{
    if !g.acquire() {
        return Err(ApiError::StoreUnavailable);
    }
    let inserted = g.store.insert(new, id, now);
    g.release();
    match inserted {
        Some(t) => Ok(t),
        None => Err(ApiError::StoreUnavailable),
    }
}

/// Create a record: the store draws a fresh random identifier and stamps the
/// creation time. Whatever identifier was drawn, a success holds the payload
/// text, the defaulted completion flag, a creation time and no update time,
/// and appends exactly that record to the store. A failure can only come
/// from an exhausted pool or from the drawn identifier colliding with a live
/// record: with a connection available and an empty store, creation
/// succeeds.
pub fn create_todo(g: &mut Gateway, new: &NewTodo) -> (r: Result<Todo, ApiError>)
    requires
        old(g).wf(),
    ensures
        final(g).wf(),
        pool_preserved(*old(g), *final(g)),
        match r {
            Ok(t) => old(g).available() && t@.todo == new@.todo && t@.done == default_done(
                new@.done,
            ) && t@.created_at is Some && t@.updated_at is None && !contains_id(
                old(g).contents(),
                t@.id,
            ) && final(g).contents() == old(g).contents().push(t@) && contains_id(
                final(g).contents(),
                t@.id,
            ) && record_of(final(g).contents(), t@.id) == t@,
            Err(e) => e == ApiError::StoreUnavailable && final(g).contents() == old(g).contents()
                && (!old(g).available() || old(g).contents().len() > 0),
        },
{
    let id = fresh_id();
    let now = now_micros();
    create_todo_with(g, new, id, now)
}

/// Replace-style update under the given update time: succeeds exactly when a
/// connection is available and the identifier is live, and then rewrites the
/// matching row as `replaced_record` says.
pub fn update_todo_with(g: &mut Gateway, todo_id: u128, upd: &UpdateTodo, now: i64) -> (r: Result<
    Todo,
    ApiError,
>)
    requires
        old(g).wf(),
    ensures
        final(g).wf(),
        pool_preserved(*old(g), *final(g)),
        match r {
            Ok(t) => old(g).available() && contains_id(old(g).contents(), todo_id) && t@
                == replaced_record(record_of(old(g).contents(), todo_id), upd@, now) && final(g).contents() == old(g).contents().update(index_of_id(old(g).contents(), todo_id), t@),
            Err(e) => final(g).contents() == old(g).contents() && ((e == ApiError::StoreUnavailable
                && !old(g).available()) || (e == ApiError::NotFound && old(g).available()
                && !contains_id(old(g).contents(), todo_id))),
        },
{
    if !g.acquire() {
        return Err(ApiError::StoreUnavailable);
    }
    let updated = g.store.update_replace(todo_id, upd, now);
    g.release();
    match updated {
        Some(t) => Ok(t),
        None => Err(ApiError::NotFound),
    }
}

/// Replace-style update stamped with the current wall-clock time: succeeds
/// exactly when a connection is available and the identifier is live. The
/// row left behind keeps its identifier and creation time, carries the
/// payload's text and flag (defaults when absent), and gets an update time.
pub fn update_todo(g: &mut Gateway, todo_id: u128, upd: &UpdateTodo) -> (r: Result<Todo, ApiError>)
    requires
        old(g).wf(),
    ensures
        final(g).wf(),
        pool_preserved(*old(g), *final(g)),
        match r {
            Ok(t) => old(g).available() && contains_id(old(g).contents(), todo_id) && (
            exists|now: i64|
                t@ == #[trigger] replaced_record(
                    record_of(old(g).contents(), todo_id),
                    upd@,
                    now,
                )) && t@.updated_at is Some && final(g).contents() == old(g).contents().update(
                index_of_id(old(g).contents(), todo_id),
                t@,
            ),
            Err(e) => final(g).contents() == old(g).contents() && ((e == ApiError::StoreUnavailable
                && !old(g).available()) || (e == ApiError::NotFound && old(g).available()
                && !contains_id(old(g).contents(), todo_id))),
        },
{
    let now = now_micros();
    let r = update_todo_with(g, todo_id, upd, now);
    proof {
        if r is Ok {
            let t = r->Ok_0;
            assert(t@ == replaced_record(record_of(old(g).contents(), todo_id), upd@, now));
        }
    }
    r
}

/// Delete by identifier: removes the single matching row, reports `Ok` when
/// exactly one row was removed, `NotFound` when none matched. A removed
/// identifier stays gone: a second delete of it yields `NotFound`.
pub fn delete_todo(g: &mut Gateway, todo_id: u128) -> (r: Result<(), ApiError>)
    requires
        old(g).wf(),
    ensures
        final(g).wf(),
        pool_preserved(*old(g), *final(g)),
        match r {
            Ok(u) => old(g).available() && contains_id(old(g).contents(), todo_id) && final(g).contents() == old(g).contents().remove(index_of_id(old(g).contents(), todo_id))
                && !contains_id(final(g).contents(), todo_id),
            Err(e) => final(g).contents() == old(g).contents() && ((e == ApiError::StoreUnavailable
                && !old(g).available()) || (e == ApiError::NotFound && old(g).available()
                && !contains_id(old(g).contents(), todo_id))),
        },
{
    if !g.acquire() {
        return Err(ApiError::StoreUnavailable);
    }
    let removed = g.store.delete_by_id(todo_id);
    g.release();
    if removed {
        Ok(())
    } else {
        Err(ApiError::NotFound)
    }
}

} // verus!
