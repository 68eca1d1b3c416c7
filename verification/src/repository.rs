//! The store's side of the service: the five statements that are sent to it,
//! and what their answers mean. Sending a statement is left to the caller;
//! every function here works on what came back.

use vstd::prelude::*;

use crate::clock::Timestamp;
use crate::error::StoreError;
use crate::model::{opt_text, outcome_view, Todo, TodoRow, TodoRowView, TodoView};

verus! {

/// Reads every todo. It takes no parameter.
pub const GET_ALL_QUERY: &'static str = "SELECT * FROM todos";

/// Reads the todo with the identifier `$1`.
pub const GET_BY_ID_QUERY: &'static str = "SELECT * FROM todos WHERE id = $1";

/// Stores a new todo and hands the stored row back. Its parameters are the
/// columns of the row in the order in which the statement names them.
pub const INSERT_COMMAND: &'static str =
    "INSERT INTO todos (id, title, description, status, finished_at, created_at) VALUES ($1, $2, $3, $4, $5, $6) RETURNING *";

/// Overwrites title, description, status and completion time of the todo with
/// the identifier `$5` and hands the stored row back.
pub const UPDATE_COMMAND: &'static str =
    "UPDATE todos SET title = $1, description = $2, status = $3, finished_at = $4 WHERE id = $5 RETURNING *";

/// Removes the todo with the identifier `$1`.
pub const DELETE_COMMAND: &'static str = "DELETE FROM todos WHERE id = $1";

/// A statement for the store together with its parameters, in the order in
/// which the statement's text numbers them.
#[derive(Debug, Clone, PartialEq, Eq)]
pub enum Statement {
    /// [`GET_ALL_QUERY`].
    GetAll,
    /// [`GET_BY_ID_QUERY`].
    GetById { id: u128 },
    /// [`INSERT_COMMAND`], with the row to store.
    Insert { row: TodoRow },
    /// [`UPDATE_COMMAND`].
    Update {
        title: String,
        description: Option<String>,
        status: i16,
        finished_at: Option<Timestamp>,
        id: u128,
    },
    /// [`DELETE_COMMAND`].
    Delete { id: u128 },
}

/// What a statement holds, as mathematical values.
pub ghost enum StatementView {
    GetAll,
    GetById { id: u128 },
    Insert { row: TodoRowView },
    Update {
        title: Seq<char>,
        description: Option<Seq<char>>,
        status: i16,
        finished_at: Option<Timestamp>,
        id: u128,
    },
    Delete { id: u128 },
}

impl View for Statement {
    type V = StatementView;

    open spec fn view(&self) -> StatementView {
        match self {
            Statement::GetAll => StatementView::GetAll,
            Statement::GetById { id } => StatementView::GetById { id: *id },
            Statement::Insert { row } => StatementView::Insert { row: row@ },
            Statement::Update { title, description, status, finished_at, id } => {
                StatementView::Update {
                    title: title@,
                    description: opt_text(*description),
                    status: *status,
                    finished_at: *finished_at,
                    id: *id,
                }
            },
            Statement::Delete { id } => StatementView::Delete { id: *id },
        }
    }
}

impl StatementView {
    /// The text that goes to the store for this statement.
    pub open spec fn sql(self) -> Seq<char> {
        match self {
            StatementView::GetAll => GET_ALL_QUERY@,
            StatementView::GetById { .. } => GET_BY_ID_QUERY@,
            StatementView::Insert { .. } => INSERT_COMMAND@,
            StatementView::Update { .. } => UPDATE_COMMAND@,
            StatementView::Delete { .. } => DELETE_COMMAND@,
        }
    }

    /// The statement that overwrites the todo stored under `id` with what
    /// `todo` holds. The identifier and the creation time of `todo` itself
    /// are not written.
    pub open spec fn overwrite(id: u128, todo: TodoView) -> StatementView {
        StatementView::Update {
            title: todo.title,
            description: todo.description,
            status: todo.encoded().status,
            finished_at: todo.finished_at,
            id,
        }
    }
}

impl Statement {
    /// The text that goes to the store for this statement.
    pub fn sql(&self) -> (text: &'static str)
        ensures
            text@ == self@.sql(),
    {
        match self {
            Statement::GetAll => GET_ALL_QUERY,
            Statement::GetById { .. } => GET_BY_ID_QUERY,
            Statement::Insert { .. } => INSERT_COMMAND,
            Statement::Update { .. } => UPDATE_COMMAND,
            Statement::Delete { .. } => DELETE_COMMAND,
        }
    }
}

/// The statement that lists every todo.
pub fn get_all() -> (statement: Statement)
    ensures
        statement@ == StatementView::GetAll,
{
    Statement::GetAll
}

/// The statement that looks one todo up.
pub fn get_by_id(id: u128) -> (statement: Statement)
    ensures
        statement@ == (StatementView::GetById { id }),
{
    Statement::GetById { id }
}

/// The statement that stores a new todo: every field, the status as its
/// integer code.
pub fn create(todo: Todo) -> (statement: Statement)
    ensures
        statement@ == (StatementView::Insert { row: todo@.encoded() }),
{
    Statement::Insert { row: todo.into_row() }
}

/// The statement that overwrites the todo stored under `id` with the title,
/// description, status and completion time of `todo`.
pub fn update(id: u128, todo: Todo) -> (statement: Statement)
    ensures
        statement@ == StatementView::overwrite(id, todo@),
{
    Statement::Update {
        title: todo.title,
        description: todo.description,
        status: todo.status.code(),
        finished_at: todo.finished_at,
        id,
    }
}

/// The statement that removes a todo.
pub fn delete(id: u128) -> (statement: Statement)
    ensures
        statement@ == (StatementView::Delete { id }),
{
    Statement::Delete { id }
}

/// What a sequence of rows holds, as mathematical values.
pub open spec fn rows_view(rows: Seq<TodoRow>) -> Seq<TodoRowView> {
    rows.map_values(|row: TodoRow| row@)
}

/// What a sequence of todos holds, as mathematical values.
pub open spec fn todos_view(todos: Seq<Todo>) -> Seq<TodoView> {
    todos.map_values(|todo: Todo| todo@)
}

/// What an operation that yields many todos came to, as mathematical values.
pub open spec fn list_view(
    outcome: Result<Vec<Todo>, StoreError>,
) -> Result<Seq<TodoView>, StoreError> {
    match outcome {
        Ok(todos) => Ok(todos_view(todos@)),
        Err(e) => Err(e),
    }
}

/// Whether every one of `rows` holds a todo.
pub open spec fn all_readable(rows: Seq<TodoRowView>) -> bool {
    forall|i: int| 0 <= i < rows.len() ==> (#[trigger] rows[i]).decoded() is Ok
}

/// The todos that `rows` hold, in the order of the rows. One unreadable row
/// spoils the whole answer.
pub open spec fn decoded_all(rows: Seq<TodoRowView>) -> Result<Seq<TodoView>, StoreError> {
    if all_readable(rows) {
        Ok(rows.map_values(|row: TodoRowView| row.decoded()->Ok_0))
    } else {
        Err(StoreError::Decode)
    }
}

/// The todo that a statement for a single row came back with. No row means
/// that no todo has the identifier.
pub open spec fn decoded_one(row: Option<TodoRowView>) -> Result<TodoView, StoreError> {
    match row {
        Some(row) => row.decoded(),
        None => Err(StoreError::NotFound),
    }
}

/// What a removal that touched `rows_affected` rows came to.
pub open spec fn removal(rows_affected: u64) -> Result<(), StoreError> {
    if rows_affected == 0 {
        Err(StoreError::NotFound)
    } else {
        Ok(())
    }
}

/// Reads the answer to [`GET_ALL_QUERY`]: every row, in the order in which
/// the store gave them.
pub fn read_all(rows: &Vec<TodoRow>) -> (outcome: Result<Vec<Todo>, StoreError>)
    ensures
        list_view(outcome) == decoded_all(rows_view(rows@)),
{
    let mut todos: Vec<Todo> = Vec::new();
    let mut i: usize = 0;
    while i < rows.len()
        invariant
            i <= rows.len(),
            todos.len() == i,
            forall|j: int| 0 <= j < i ==> (#[trigger] rows[j])@.decoded() == Ok::<TodoView, StoreError>(todos[j]@),
        decreases rows.len() - i,
    {
        match Todo::from_row(&rows[i]) {
            Ok(todo) => {
                todos.push(todo);
            },
            Err(_) => {
                assert(!(rows_view(rows@)[i as int].decoded() is Ok));
                return Err(StoreError::Decode);
            },
        }
        i += 1;
    }
    assert(todos_view(todos@) =~= rows_view(rows@).map_values(
        |row: TodoRowView| row.decoded()->Ok_0,
    ));
    Ok(todos)
}

/// Reads the answer to a statement that asks for one row:
/// [`GET_BY_ID_QUERY`], [`INSERT_COMMAND`] or [`UPDATE_COMMAND`].
pub fn read_one(row: Option<&TodoRow>) -> (outcome: Result<Todo, StoreError>)
    ensures
        outcome_view(outcome) == decoded_one(
            match row {
                Some(row) => Some(row@),
                None => None,
            },
        ),
{
    match row {
        Some(row) => Todo::from_row(row),
        None => Err(StoreError::NotFound),
    }
}

/// Reads the answer to [`DELETE_COMMAND`]: a removal that touched no row
/// found nothing to remove.
pub fn deleted(rows_affected: u64) -> (outcome: Result<(), StoreError>)
    ensures
        outcome == removal(rows_affected),
{
    if rows_affected == 0 {
        Err(StoreError::NotFound)
    } else {
        Ok(())
    }
}

} // verus!
