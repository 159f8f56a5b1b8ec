use todo_api::handlers::{
    create_todo, create_todo_with, delete_todo, get_todo, get_todos, update_todo, ApiError,
    Gateway,
};
use todo_api::models::{Data, NewTodo, UpdateTodo};

fn fresh_gateway() -> Gateway {
    Gateway::new(8)
}

#[test]
fn create_defaults_and_round_trip() {
    let mut g = fresh_gateway();
    let created = create_todo(&mut g, &NewTodo { todo: String::from("x"), done: None }).unwrap();
    assert_eq!(created.todo, "x");
    assert!(!created.done);
    assert!(created.created_at.is_some());
    assert!(created.updated_at.is_none());

    let fetched = get_todo(&mut g, created.id).unwrap();
    assert_eq!(fetched.id, created.id);
    assert_eq!(fetched.todo, created.todo);
    assert_eq!(fetched.done, created.done);
    assert_eq!(fetched.created_at, created.created_at);
    assert_eq!(fetched.updated_at, created.updated_at);
}

#[test]
fn create_keeps_explicit_done() {
    let mut g = fresh_gateway();
    let created =
        create_todo(&mut g, &NewTodo { todo: String::from("done already"), done: Some(true) })
            .unwrap();
    assert!(created.done);
}

#[test]
fn listing_empty_store_yields_empty_sequence() {
    let mut g = fresh_gateway();
    let rows = get_todos(&mut g).unwrap();
    assert!(rows.is_empty());
}

#[test]
fn listing_after_creates_yields_distinct_ids() {
    let mut g = fresh_gateway();
    for text in ["a", "b", "c"] {
        create_todo(&mut g, &NewTodo { todo: String::from(text), done: None }).unwrap();
    }
    let rows = get_todos(&mut g).unwrap();
    assert_eq!(rows.len(), 3);
    for i in 0..rows.len() {
        for j in 0..i {
            assert_ne!(rows[i].id, rows[j].id);
        }
    }
}

#[test]
fn unassigned_id_yields_not_found_everywhere() {
    let mut g = fresh_gateway();
    let stranger: u128 = 0x550e8400e29b41d4a716446655440000;
    assert!(matches!(get_todo(&mut g, stranger), Err(ApiError::NotFound)));
    let upd = UpdateTodo { todo: Some(String::from("y")), done: None };
    assert!(matches!(update_todo(&mut g, stranger, &upd), Err(ApiError::NotFound)));
    assert!(matches!(delete_todo(&mut g, stranger), Err(ApiError::NotFound)));
    assert!(get_todos(&mut g).unwrap().is_empty());
}

#[test]
fn delete_succeeds_once_then_not_found() {
    let mut g = fresh_gateway();
    let created = create_todo(&mut g, &NewTodo { todo: String::from("gone"), done: None }).unwrap();
    assert!(delete_todo(&mut g, created.id).is_ok());
    assert!(matches!(delete_todo(&mut g, created.id), Err(ApiError::NotFound)));
    assert!(matches!(get_todo(&mut g, created.id), Err(ApiError::NotFound)));
}

#[test]
fn update_sets_timestamp_and_keeps_created_at() {
    let mut g = fresh_gateway();
    let created = create_todo(&mut g, &NewTodo { todo: String::from("before"), done: None }).unwrap();
    assert!(created.updated_at.is_none());

    let upd = UpdateTodo { todo: Some(String::from("after")), done: Some(true) };
    let updated = update_todo(&mut g, created.id, &upd).unwrap();
    assert_eq!(updated.id, created.id);
    assert_eq!(updated.todo, "after");
    assert!(updated.done);
    assert_eq!(updated.created_at, created.created_at);
    assert!(updated.updated_at.is_some());

    let fetched = get_todo(&mut g, created.id).unwrap();
    assert_eq!(fetched.todo, "after");
    assert_eq!(fetched.updated_at, updated.updated_at);
}

#[test]
fn update_replaces_omitted_fields_with_defaults() {
    let mut g = fresh_gateway();
    let created =
        create_todo(&mut g, &NewTodo { todo: String::from("full"), done: Some(true) }).unwrap();
    let updated =
        update_todo(&mut g, created.id, &UpdateTodo { todo: None, done: None }).unwrap();
    assert_eq!(updated.todo, "");
    assert!(!updated.done);
    assert_eq!(updated.created_at, created.created_at);
}

#[test]
fn exhausted_pool_fails_every_operation() {
    let mut g = Gateway::new(0);
    assert!(matches!(get_todos(&mut g), Err(ApiError::StoreUnavailable)));
    assert!(matches!(get_todo(&mut g, 7), Err(ApiError::StoreUnavailable)));
    let new = NewTodo { todo: String::from("nope"), done: None };
    assert!(matches!(create_todo(&mut g, &new), Err(ApiError::StoreUnavailable)));
    let upd = UpdateTodo { todo: None, done: None };
    assert!(matches!(update_todo(&mut g, 7, &upd), Err(ApiError::StoreUnavailable)));
    assert!(matches!(delete_todo(&mut g, 7), Err(ApiError::StoreUnavailable)));
}

#[test]
fn duplicate_identifier_is_a_server_failure() {
    let mut g = fresh_gateway();
    let first =
        create_todo_with(&mut g, &NewTodo { todo: String::from("one"), done: None }, 42, 1000)
            .unwrap();
    assert_eq!(first.id, 42);
    assert_eq!(first.created_at, Some(1000));
    let clash = create_todo_with(&mut g, &NewTodo { todo: String::from("two"), done: None }, 42, 2000);
    assert!(matches!(clash, Err(ApiError::StoreUnavailable)));
    assert_eq!(get_todos(&mut g).unwrap().len(), 1);
}

#[test]
fn empty_text_is_degenerate_but_accepted() {
    let mut g = fresh_gateway();
    let created = create_todo(&mut g, &NewTodo { todo: String::new(), done: None }).unwrap();
    assert_eq!(created.todo, "");
    let fetched = get_todo(&mut g, created.id).unwrap();
    assert_eq!(fetched.todo, "");
}

#[test]
fn legacy_data_shape_carries_its_fields() {
    let d = Data { todo: String::from("legacy"), done: true };
    assert_eq!(d.todo, "legacy");
    assert!(d.done);
}
