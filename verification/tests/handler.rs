use todo_core::clock::Timestamp;
use todo_core::error::StoreError;
use todo_core::handler::{
    create, created, delete, get_all, get_by_id, location, update, update_at, update_written,
    Body, Reply, StatusCode, UpdateStep,
};
use todo_core::model::{Todo, TodoRequest, TodoResponse};
use todo_core::repository;
use todo_core::status::TodoStatus;

const ID: u128 = 0xa1a2a3a4_b1b2_c1c2_d1d2_d3d4d5d6d7d8;

fn todo(id: u128, title: &str) -> Todo {
    Todo {
        id,
        title: title.to_string(),
        description: None,
        status: TodoStatus::Pending,
        finished_at: None,
        created_at: Timestamp { secs: 100, nanos: 0 },
    }
}

fn request(title: &str, status: Option<TodoStatus>) -> TodoRequest {
    TodoRequest { title: title.to_string(), description: None, status }
}

fn failure(message: &str) -> Reply {
    Reply {
        status: StatusCode::InternalServerError,
        location: None,
        body: Body::Text(message.to_string()),
    }
}

fn not_found() -> Reply {
    Reply { status: StatusCode::NotFound, location: None, body: Body::Empty }
}

/// Stands in for the store: keeps the row of a statement that writes one and
/// hands it back, as `RETURNING *` does.
fn stored(statement: repository::Statement) -> Result<Todo, StoreError> {
    match statement {
        repository::Statement::Insert { row } => repository::read_one(Some(&row)),
        other => panic!("not a statement that stores a row: {:?}", other),
    }
}

#[test]
fn status_codes_have_their_numbers() {
    assert_eq!(StatusCode::Okay.as_u16(), 200);
    assert_eq!(StatusCode::Created.as_u16(), 201);
    assert_eq!(StatusCode::NoContent.as_u16(), 204);
    assert_eq!(StatusCode::NotFound.as_u16(), 404);
    assert_eq!(StatusCode::InternalServerError.as_u16(), 500);
}

#[test]
fn post_buy_milk_then_get_it() {
    let todo = request("buy milk", None).into_todo();
    let id = todo.id;
    let outcome = stored(repository::create(todo));
    let posted = create(outcome.clone());
    assert_eq!(posted.status.as_u16(), 201);
    let shown = match &posted.body {
        Body::Todo(shown) => shown.clone(),
        other => panic!("the reply carries {:?}", other),
    };
    assert_eq!(shown.id, id);
    assert_eq!(shown.title, "buy milk");
    assert_eq!(shown.status, TodoStatus::Pending);
    assert_eq!(shown.finished_at, None);
    assert_eq!(posted.location, Some(format!("/todos/{}", uuid::Uuid::from_u128(id))));

    let fetched = get_by_id(outcome);
    assert_eq!(fetched.status.as_u16(), 200);
    assert_eq!(fetched.location, None);
    assert_eq!(fetched.body, posted.body);
}

#[test]
fn put_done_finishes_the_todo() {
    let found = Ok(todo(ID, "buy milk"));
    let step = update(found, request("buy milk", Some(TodoStatus::Done)));
    let changed = match step {
        UpdateStep::Write(changed) => changed,
        UpdateStep::Answer(reply) => panic!("the update ended with {:?}", reply),
    };
    let reply = update_written(Ok(changed));
    assert_eq!(reply.status.as_u16(), 200);
    match reply.body {
        Body::Todo(shown) => {
            assert_eq!(shown.id, ID);
            assert_eq!(shown.title, "buy milk");
            assert_eq!(shown.status, TodoStatus::Done);
            assert!(shown.finished_at.is_some());
        }
        other => panic!("the reply carries {:?}", other),
    }
}

#[test]
fn delete_of_an_id_never_created_is_404() {
    let reply = delete(repository::deleted(0));
    assert_eq!(reply.status.as_u16(), 404);
    assert_eq!(reply, not_found());
}

#[test]
fn get_all_shows_the_todos_in_order() {
    let reply = get_all(Ok(vec![todo(2, "b"), todo(1, "a")]));
    assert_eq!(
        reply,
        Reply {
            status: StatusCode::Okay,
            location: None,
            body: Body::Todos(vec![
                TodoResponse::from_todo(&todo(2, "b")),
                TodoResponse::from_todo(&todo(1, "a")),
            ]),
        }
    );
}

#[test]
fn get_all_of_an_empty_store_is_an_empty_list() {
    assert_eq!(
        get_all(Ok(vec![])),
        Reply { status: StatusCode::Okay, location: None, body: Body::Todos(vec![]) }
    );
}

#[test]
fn get_all_fails_with_500_on_any_error() {
    for error in [StoreError::NotFound, StoreError::Decode, StoreError::Driver] {
        assert_eq!(get_all(Err(error)), failure("Failed to get todos"));
    }
}

#[test]
fn get_by_id_shows_the_todo() {
    assert_eq!(
        get_by_id(Ok(todo(ID, "buy milk"))),
        Reply {
            status: StatusCode::Okay,
            location: None,
            body: Body::Todo(TodoResponse::from_todo(&todo(ID, "buy milk"))),
        }
    );
}

#[test]
fn get_by_id_of_a_missing_todo_is_404() {
    assert_eq!(get_by_id(Err(StoreError::NotFound)), not_found());
    assert_eq!(get_by_id(repository::read_one(None)), not_found());
}

#[test]
fn get_by_id_fails_with_500_on_other_errors() {
    assert_eq!(get_by_id(Err(StoreError::Driver)), failure("Failed to get todo"));
    assert_eq!(get_by_id(Err(StoreError::Decode)), failure("Failed to get todo"));
}

#[test]
fn location_is_the_path_of_the_todo() {
    assert_eq!(location("abc"), "/todos/abc");
    assert_eq!(location(""), "/todos/");
}

#[test]
fn created_announces_the_todo_under_the_given_text() {
    assert_eq!(
        created(&todo(5, "buy milk"), "five"),
        Reply {
            status: StatusCode::Created,
            location: Some("/todos/five".to_string()),
            body: Body::Todo(TodoResponse::from_todo(&todo(5, "buy milk"))),
        }
    );
}

#[test]
fn create_points_at_the_hyphenated_identifier() {
    assert_eq!(
        create(Ok(todo(ID, "buy milk"))),
        Reply {
            status: StatusCode::Created,
            location: Some("/todos/a1a2a3a4-b1b2-c1c2-d1d2-d3d4d5d6d7d8".to_string()),
            body: Body::Todo(TodoResponse::from_todo(&todo(ID, "buy milk"))),
        }
    );
    assert_eq!(
        create(Ok(todo(0, "nil"))).location,
        Some("/todos/00000000-0000-0000-0000-000000000000".to_string())
    );
}

#[test]
fn create_fails_with_500_on_any_error() {
    for error in [StoreError::NotFound, StoreError::Decode, StoreError::Driver] {
        assert_eq!(create(Err(error)), failure("Failed to create todo"));
    }
}

#[test]
fn update_of_a_missing_todo_is_404() {
    assert_eq!(
        update(Err(StoreError::NotFound), request("x", None)),
        UpdateStep::Answer(not_found())
    );
    assert_eq!(
        update(repository::read_one(None), request("x", Some(TodoStatus::Done))),
        UpdateStep::Answer(not_found())
    );
}

#[test]
fn update_fails_with_500_when_the_lookup_fails() {
    for error in [StoreError::Decode, StoreError::Driver] {
        assert_eq!(
            update(Err(error), request("x", None)),
            UpdateStep::Answer(failure("Failed to update todo"))
        );
    }
}

#[test]
fn update_at_writes_the_changed_todo() {
    let found = Todo { description: Some("old".to_string()), ..todo(ID, "buy milk") };
    let at = Timestamp { secs: 500, nanos: 1 };
    assert_eq!(
        update_at(Ok(found.clone()), request("buy bread", Some(TodoStatus::Done)), at),
        UpdateStep::Write(Todo {
            title: "buy bread".to_string(),
            status: TodoStatus::Done,
            finished_at: Some(at),
            ..found.clone()
        })
    );
    assert_eq!(
        update_at(Ok(found.clone()), request("buy bread", None), at),
        UpdateStep::Write(Todo { title: "buy bread".to_string(), ..found })
    );
}

#[test]
fn update_at_lets_a_done_todo_go_back() {
    let done = Todo {
        status: TodoStatus::Done,
        finished_at: Some(Timestamp { secs: 1, nanos: 1 }),
        ..todo(ID, "buy milk")
    };
    let at = Timestamp { secs: 500, nanos: 1 };
    assert_eq!(
        update_at(Ok(done), request("buy milk", Some(TodoStatus::Pending)), at),
        UpdateStep::Write(todo(ID, "buy milk"))
    );
}

#[test]
fn update_at_of_a_missing_or_unreadable_todo_writes_nothing() {
    let at = Timestamp { secs: 500, nanos: 1 };
    assert_eq!(
        update_at(Err(StoreError::NotFound), request("x", None), at),
        UpdateStep::Answer(not_found())
    );
    assert_eq!(
        update_at(Err(StoreError::Driver), request("x", None), at),
        UpdateStep::Answer(failure("Failed to update todo"))
    );
}

#[test]
fn the_same_update_twice_ends_in_the_same_todo() {
    let at = Timestamp { secs: 500, nanos: 1 };
    let later = Timestamp { secs: 900, nanos: 0 };
    for status in [None, Some(TodoStatus::Pending), Some(TodoStatus::Doing), Some(TodoStatus::Done)] {
        let once = match update_at(Ok(todo(ID, "a")), request("b", status), at) {
            UpdateStep::Write(changed) => changed,
            UpdateStep::Answer(reply) => panic!("the update ended with {:?}", reply),
        };
        let first = update_written(Ok(once.clone()));
        let twice = match update_at(Ok(once.clone()), request("b", status), later) {
            UpdateStep::Write(changed) => changed,
            UpdateStep::Answer(reply) => panic!("the update ended with {:?}", reply),
        };
        assert_eq!(twice, once);
        let second = update_written(Ok(twice));
        assert_eq!(second.status.as_u16(), 200);
        assert_eq!(second, first);
    }
}

#[test]
fn put_done_twice_shows_the_first_completion_time() {
    let first = match update(Ok(todo(ID, "buy milk")), request("buy milk", Some(TodoStatus::Done))) {
        UpdateStep::Write(changed) => changed,
        UpdateStep::Answer(reply) => panic!("the update ended with {:?}", reply),
    };
    let second = match update(Ok(first.clone()), request("buy milk", Some(TodoStatus::Done))) {
        UpdateStep::Write(changed) => changed,
        UpdateStep::Answer(reply) => panic!("the update ended with {:?}", reply),
    };
    assert!(first.finished_at.is_some());
    assert_eq!(second, first);
    assert_eq!(update_written(Ok(second)), update_written(Ok(first)));
}

#[test]
fn update_written_shows_the_stored_todo() {
    assert_eq!(
        update_written(Ok(todo(ID, "buy milk"))),
        Reply {
            status: StatusCode::Okay,
            location: None,
            body: Body::Todo(TodoResponse::from_todo(&todo(ID, "buy milk"))),
        }
    );
}

#[test]
fn update_written_fails_with_500_on_any_error() {
    for error in [StoreError::NotFound, StoreError::Decode, StoreError::Driver] {
        assert_eq!(update_written(Err(error)), failure("Failed to update todo"));
    }
}

#[test]
fn delete_answers_204_without_a_body() {
    assert_eq!(
        delete(Ok(())),
        Reply { status: StatusCode::NoContent, location: None, body: Body::Empty }
    );
    assert_eq!(delete(repository::deleted(1)).status.as_u16(), 204);
}

#[test]
fn delete_twice_is_404_the_second_time() {
    assert_eq!(delete(repository::deleted(1)).status, StatusCode::NoContent);
    assert_eq!(delete(repository::deleted(0)), not_found());
}

#[test]
fn delete_fails_with_500_on_other_errors() {
    for error in [StoreError::Decode, StoreError::Driver] {
        assert_eq!(delete(Err(error)), failure("Failed to update todo"));
    }
}
