use todo_api::api::{dispatch, parse_todo_id, ApiResponse, ResponseBody, TodoRequest};
use todo_api::handlers::{ApiError, Gateway};
use todo_api::models::{NewTodo, UpdateTodo};

const SAMPLE: &str = "550e8400-e29b-41d4-a716-446655440000";
const SAMPLE_NUM: u128 = 0x550e8400e29b41d4a716446655440000;

#[test]
fn parse_accepts_hyphenated_and_simple_forms() {
    assert_eq!(parse_todo_id(SAMPLE), Ok(SAMPLE_NUM));
    assert_eq!(parse_todo_id("550e8400e29b41d4a716446655440000"), Ok(SAMPLE_NUM));
}

#[test]
fn parse_rejects_malformed_text() {
    assert_eq!(parse_todo_id("not-a-uuid"), Err(ApiError::MalformedId));
    assert_eq!(parse_todo_id(""), Err(ApiError::MalformedId));
    assert_eq!(parse_todo_id("550e8400-e29b-41d4-a716-44665544000"), Err(ApiError::MalformedId));
}

#[test]
fn status_codes_follow_the_failure_taxonomy() {
    assert_eq!(ApiError::NotFound.status_code(), 404);
    assert_eq!(ApiError::StoreUnavailable.status_code(), 500);
    assert_eq!(ApiError::MalformedId.status_code(), 400);
}

#[test]
fn malformed_identifier_is_rejected_with_400_before_the_store() {
    let mut g = Gateway::new(8);
    let r = dispatch(&mut g, TodoRequest::Get(String::from("not-a-uuid")));
    assert_eq!(r.status, 400);
    assert!(matches!(r.body, ResponseBody::Empty));
    let r = dispatch(&mut g, TodoRequest::Update(String::from("?"), UpdateTodo { todo: None, done: None }));
    assert_eq!(r.status, 400);
    let r = dispatch(&mut g, TodoRequest::Delete(String::from("?")));
    assert_eq!(r.status, 400);
    match dispatch(&mut g, TodoRequest::List) {
        ApiResponse { status: 200, body: ResponseBody::Records(rows) } => assert!(rows.is_empty()),
        _ => panic!("listing should still succeed on an untouched store"),
    }
}

#[test]
fn full_crud_flow_over_dispatch() {
    let mut g = Gateway::new(8);

    let created = match dispatch(
        &mut g,
        TodoRequest::Create(NewTodo { todo: String::from("ship it"), done: None }),
    ) {
        ApiResponse { status: 200, body: ResponseBody::Record(t) } => t,
        r => panic!("create failed with status {}", r.status),
    };
    let id_text = uuid::Uuid::from_u128(created.id).hyphenated().to_string();

    let fetched = match dispatch(&mut g, TodoRequest::Get(id_text.clone())) {
        ApiResponse { status: 200, body: ResponseBody::Record(t) } => t,
        r => panic!("get failed with status {}", r.status),
    };
    assert_eq!(fetched.id, created.id);
    assert_eq!(fetched.todo, "ship it");

    let updated = match dispatch(
        &mut g,
        TodoRequest::Update(
            id_text.clone(),
            UpdateTodo { todo: Some(String::from("shipped")), done: Some(true) },
        ),
    ) {
        ApiResponse { status: 200, body: ResponseBody::Record(t) } => t,
        r => panic!("update failed with status {}", r.status),
    };
    assert_eq!(updated.todo, "shipped");
    assert!(updated.done);
    assert!(updated.updated_at.is_some());

    let deleted = dispatch(&mut g, TodoRequest::Delete(id_text.clone()));
    assert_eq!(deleted.status, 204);
    assert!(matches!(deleted.body, ResponseBody::Empty));

    let gone = dispatch(&mut g, TodoRequest::Get(id_text));
    assert_eq!(gone.status, 404);
}

#[test]
fn unassigned_identifier_maps_to_404() {
    let mut g = Gateway::new(8);
    let r = dispatch(&mut g, TodoRequest::Get(String::from(SAMPLE)));
    assert_eq!(r.status, 404);
    let r = dispatch(&mut g, TodoRequest::Delete(String::from(SAMPLE)));
    assert_eq!(r.status, 404);
}

#[test]
fn exhausted_pool_maps_to_500() {
    let mut g = Gateway::new(0);
    let r = dispatch(&mut g, TodoRequest::List);
    assert_eq!(r.status, 500);
    let r = dispatch(&mut g, TodoRequest::Create(NewTodo { todo: String::from("x"), done: None }));
    assert_eq!(r.status, 500);
    let r = dispatch(&mut g, TodoRequest::Get(String::from(SAMPLE)));
    assert_eq!(r.status, 500);
}
