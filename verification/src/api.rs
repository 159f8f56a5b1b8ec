//! The router's pure half: path-identifier validation and the uniform
//! mapping from operation outcomes to transport status codes and bodies.
//!
//! A malformed identifier is rejected here, before any store interaction;
//! every other outcome is produced by the matching handler and mapped to its
//! status without reinterpretation.

use vstd::prelude::*;

use crate::handlers::{
    create_todo, delete_todo, get_todo, get_todos, pool_preserved, ApiError, Gateway, update_todo,
};
use crate::ids::{parse_uuid_num, uuid_num_of};
use crate::models::{default_done, replaced_record, NewTodo, Todo, UpdateTodo};
use crate::store::{contains_id, index_of_id, record_of};

verus! {

/// Validate a path identifier: the number it denotes when it parses as a
/// UUID, `MalformedId` exactly when it does not.
pub fn parse_todo_id(s: &str) -> (r: Result<u128, ApiError>)
    ensures
        match r {
            Ok(id) => uuid_num_of(s@) == Some(id),
            Err(e) => e == ApiError::MalformedId && uuid_num_of(s@) is None,
        },
{
    match parse_uuid_num(s) {
        Some(id) => Ok(id),
        None => Err(ApiError::MalformedId),
    }
}

/// An inbound request, already dispatched by method and path shape; item
/// requests still carry their raw path identifier.
pub enum TodoRequest {
    /// `GET` on the collection path.
    List,
    /// `GET` on an item path.
    Get(String),
    /// `POST` on the collection path.
    Create(NewTodo),
    /// `PUT` on an item path.
    Update(String, UpdateTodo),
    /// `DELETE` on an item path.
    Delete(String),
}

/// What a response carries besides its status.
pub enum ResponseBody {
    /// The full set of records, for a collection read.
    Records(Vec<Todo>),
    /// One record, for a single-item success.
    Record(Todo),
    /// Nothing: every failure, and a successful delete.
    Empty,
}

/// A transport-level response: a status code and a body.
pub struct ApiResponse {
    pub status: u16,
    pub body: ResponseBody,
}

/// An item request whose path identifier does not parse as a UUID.
pub open spec fn malformed_item_request(req: TodoRequest) -> bool {
    match req {
        TodoRequest::Get(s) => uuid_num_of(s@) is None,
        TodoRequest::Update(s, _) => uuid_num_of(s@) is None,
        TodoRequest::Delete(s) => uuid_num_of(s@) is None,
        _ => false,
    }
}

/// Dispatch one request: validate the identifier where the path carries
/// one, run the matching handler, and map the outcome to its status code —
/// 200 for a success with a body, 204 for a successful delete, 400 for a
/// malformed identifier, 404 when the identifier matches no live record,
/// 500 when no connection can be acquired or the store fails the statement.
///
/// A malformed path identifier on any item request is rejected before any
/// store interaction: the response is a client error and the store is left
/// exactly as it was — the second clause below states this once, for the
/// three item methods together.
pub fn dispatch(g: &mut Gateway, req: TodoRequest) -> (r: ApiResponse)
    requires
        old(g).wf(),
    ensures
        final(g).wf(),
        pool_preserved(*old(g), *final(g)),
        malformed_item_request(req) ==> r.status == 400 && r.body is Empty && final(g).contents()
            == old(g).contents(),
        match req {
            TodoRequest::List => final(g).contents() == old(g).contents() && (if old(g).available() {
                r.status == 200 && (r.body matches ResponseBody::Records(v) && v@.len() == old(g).contents().len() && forall|i: int|
                    0 <= i < v@.len() ==> #[trigger] v@[i]@ == old(g).contents()[i])
            } else {
                r.status == 500 && r.body is Empty
            }),
            TodoRequest::Get(id_str) => final(g).contents() == old(g).contents() && (match
                uuid_num_of(id_str@) {
                None => r.status == 400 && r.body is Empty,
                Some(id) => if !old(g).available() {
                    r.status == 500 && r.body is Empty
                } else if contains_id(old(g).contents(), id) {
                    r.status == 200 && (r.body matches ResponseBody::Record(t) && t@ == record_of(
                        old(g).contents(),
                        id,
                    ))
                } else {
                    r.status == 404 && r.body is Empty
                },
            }),
            TodoRequest::Create(new) => if !old(g).available() {
                r.status == 500 && r.body is Empty && final(g).contents() == old(g).contents()
            } else {
                (r.status == 200 && (r.body matches ResponseBody::Record(t) && t@.todo == new@.todo
                    && t@.done == default_done(new@.done) && t@.created_at is Some
                    && t@.updated_at is None && !contains_id(old(g).contents(), t@.id) && final(g).contents() == old(g).contents().push(t@))) || (r.status == 500
                    && r.body is Empty && final(g).contents() == old(g).contents()
                    && old(g).contents().len() > 0)
            },
            TodoRequest::Update(id_str, upd) => match uuid_num_of(id_str@) {
                None => r.status == 400 && r.body is Empty && final(g).contents() == old(g).contents(),
                Some(id) => if !old(g).available() {
                    r.status == 500 && r.body is Empty && final(g).contents() == old(g).contents()
                } else if contains_id(old(g).contents(), id) {
                    r.status == 200 && (r.body matches ResponseBody::Record(t) && (exists|now: i64|
                        t@ == #[trigger] replaced_record(
                            record_of(old(g).contents(), id),
                            upd@,
                            now,
                        )) && t@.updated_at is Some && final(g).contents() == old(g).contents().update(index_of_id(old(g).contents(), id), t@))
                } else {
                    r.status == 404 && r.body is Empty && final(g).contents() == old(g).contents()
                },
            },
            TodoRequest::Delete(id_str) => match uuid_num_of(id_str@) {
                None => r.status == 400 && r.body is Empty && final(g).contents() == old(g).contents(),
                Some(id) => if !old(g).available() {
                    r.status == 500 && r.body is Empty && final(g).contents() == old(g).contents()
                } else if contains_id(old(g).contents(), id) {
                    r.status == 204 && r.body is Empty && final(g).contents() == old(g).contents().remove(index_of_id(old(g).contents(), id)) && !contains_id(
                        final(g).contents(),
                        id,
                    )
                } else {
                    r.status == 404 && r.body is Empty && final(g).contents() == old(g).contents()
                },
            },
        },
{
    match req {
        TodoRequest::List => match get_todos(g) {
            Ok(v) => ApiResponse { status: 200, body: ResponseBody::Records(v) },
            Err(e) => ApiResponse { status: e.status_code(), body: ResponseBody::Empty },
        },
        TodoRequest::Get(id_str) => match parse_todo_id(id_str.as_str()) {
            Ok(id) => match get_todo(g, id) {
                Ok(t) => ApiResponse { status: 200, body: ResponseBody::Record(t) },
                Err(e) => ApiResponse { status: e.status_code(), body: ResponseBody::Empty },
            },
            Err(e) => ApiResponse { status: e.status_code(), body: ResponseBody::Empty },
        },
        TodoRequest::Create(new) => match create_todo(g, &new) {
            Ok(t) => ApiResponse { status: 200, body: ResponseBody::Record(t) },
            Err(e) => ApiResponse { status: e.status_code(), body: ResponseBody::Empty },
        },
        TodoRequest::Update(id_str, upd) => match parse_todo_id(id_str.as_str()) {
            Ok(id) => match update_todo(g, id, &upd) {
                Ok(t) => ApiResponse { status: 200, body: ResponseBody::Record(t) },
                Err(e) => ApiResponse { status: e.status_code(), body: ResponseBody::Empty },
            },
            Err(e) => ApiResponse { status: e.status_code(), body: ResponseBody::Empty },
        },
        TodoRequest::Delete(id_str) => match parse_todo_id(id_str.as_str()) {
            Ok(id) => match delete_todo(g, id) {
                Ok(_) => ApiResponse { status: 204, body: ResponseBody::Empty },
                Err(e) => ApiResponse { status: e.status_code(), body: ResponseBody::Empty },
            },
            Err(e) => ApiResponse { status: e.status_code(), body: ResponseBody::Empty },
        },
    }
}

} // verus!
