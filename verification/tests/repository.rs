use todo_core::clock::Timestamp;
use todo_core::error::StoreError;
use todo_core::model::{Todo, TodoRow};
use todo_core::repository::{
    create, delete, deleted, get_all, get_by_id, read_all, read_one, update, Statement,
    DELETE_COMMAND, GET_ALL_QUERY, GET_BY_ID_QUERY, INSERT_COMMAND, UPDATE_COMMAND,
};
use todo_core::status::TodoStatus;

fn row(id: u128, title: &str, status: i16) -> TodoRow {
    TodoRow {
        id,
        title: title.to_string(),
        description: None,
        status,
        finished_at: None,
        created_at: Timestamp { secs: 100, nanos: 0 },
    }
}

fn todo(id: u128, title: &str, status: TodoStatus) -> Todo {
    Todo {
        id,
        title: title.to_string(),
        description: None,
        status,
        finished_at: None,
        created_at: Timestamp { secs: 100, nanos: 0 },
    }
}

#[test]
fn statements_have_their_text() {
    assert_eq!(GET_ALL_QUERY, "SELECT * FROM todos");
    assert_eq!(GET_BY_ID_QUERY, "SELECT * FROM todos WHERE id = $1");
    assert_eq!(
        INSERT_COMMAND,
        "INSERT INTO todos (id, title, description, status, finished_at, created_at) VALUES ($1, $2, $3, $4, $5, $6) RETURNING *"
    );
    assert_eq!(
        UPDATE_COMMAND,
        "UPDATE todos SET title = $1, description = $2, status = $3, finished_at = $4 WHERE id = $5 RETURNING *"
    );
    assert_eq!(DELETE_COMMAND, "DELETE FROM todos WHERE id = $1");
}

#[test]
fn each_statement_goes_out_with_its_own_text() {
    assert_eq!(get_all().sql(), GET_ALL_QUERY);
    assert_eq!(get_by_id(1).sql(), GET_BY_ID_QUERY);
    assert_eq!(create(todo(1, "a", TodoStatus::Pending)).sql(), INSERT_COMMAND);
    assert_eq!(update(1, todo(1, "a", TodoStatus::Pending)).sql(), UPDATE_COMMAND);
    assert_eq!(delete(1).sql(), DELETE_COMMAND);
}

#[test]
fn lookups_and_removals_carry_the_identifier() {
    assert_eq!(get_all(), Statement::GetAll);
    assert_eq!(get_by_id(7), Statement::GetById { id: 7 });
    assert_eq!(delete(9), Statement::Delete { id: 9 });
}

#[test]
fn create_stores_every_field() {
    let new = Todo {
        id: 11,
        title: "buy milk".to_string(),
        description: Some("two litres".to_string()),
        status: TodoStatus::Done,
        finished_at: Some(Timestamp { secs: 200, nanos: 5 }),
        created_at: Timestamp { secs: 100, nanos: 0 },
    };
    assert_eq!(
        create(new),
        Statement::Insert {
            row: TodoRow {
                id: 11,
                title: "buy milk".to_string(),
                description: Some("two litres".to_string()),
                status: 2,
                finished_at: Some(Timestamp { secs: 200, nanos: 5 }),
                created_at: Timestamp { secs: 100, nanos: 0 },
            }
        }
    );
}

#[test]
fn update_writes_under_the_identifier_it_is_given() {
    let changed = Todo {
        id: 11,
        title: "buy milk".to_string(),
        description: Some("two litres".to_string()),
        status: TodoStatus::Doing,
        finished_at: None,
        created_at: Timestamp { secs: 100, nanos: 0 },
    };
    assert_eq!(
        update(12, changed),
        Statement::Update {
            title: "buy milk".to_string(),
            description: Some("two litres".to_string()),
            status: 1,
            finished_at: None,
            id: 12,
        }
    );
}

#[test]
fn read_all_of_nothing_is_an_empty_list() {
    assert_eq!(read_all(&vec![]), Ok(vec![]));
}

#[test]
fn read_all_keeps_the_order_of_the_rows() {
    let rows = vec![row(3, "c", 2), row(1, "a", 0), row(2, "b", 1)];
    assert_eq!(
        read_all(&rows),
        Ok(vec![
            todo(3, "c", TodoStatus::Done),
            todo(1, "a", TodoStatus::Pending),
            todo(2, "b", TodoStatus::Doing),
        ])
    );
}

#[test]
fn read_all_fails_on_one_unreadable_row() {
    assert_eq!(read_all(&vec![row(1, "a", 0), row(2, "b", 3)]), Err(StoreError::Decode));
    assert_eq!(read_all(&vec![row(1, "a", -1), row(2, "b", 0)]), Err(StoreError::Decode));
    assert_eq!(read_all(&vec![row(1, "a", 9)]), Err(StoreError::Decode));
}

#[test]
fn read_one_of_no_row_is_not_found() {
    assert_eq!(read_one(None), Err(StoreError::NotFound));
}

#[test]
fn read_one_decodes_the_row() {
    assert_eq!(read_one(Some(&row(4, "d", 1))), Ok(todo(4, "d", TodoStatus::Doing)));
    assert_eq!(read_one(Some(&row(4, "d", 5))), Err(StoreError::Decode));
}

#[test]
fn a_stored_todo_reads_back_unchanged() {
    let new = todo(21, "buy milk", TodoStatus::Pending);
    match create(new.clone()) {
        Statement::Insert { row } => assert_eq!(read_one(Some(&row)), Ok(new)),
        other => panic!("creation made {:?}", other),
    }
}

#[test]
fn deleted_nothing_is_not_found() {
    assert_eq!(deleted(0), Err(StoreError::NotFound));
}

#[test]
fn deleted_something_is_fine() {
    assert_eq!(deleted(1), Ok(()));
    assert_eq!(deleted(2), Ok(()));
    assert_eq!(deleted(u64::MAX), Ok(()));
}
