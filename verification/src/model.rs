//! The todo entity, the shapes in which it travels, and the two ways in which
//! it changes: creation and update.

use vstd::prelude::*;

use crate::clock::{now, Timestamp};
use crate::error::StoreError;
use crate::ident::{fresh_id, is_random_id, lemma_random_id_is_not_nil};
use crate::status::TodoStatus;

verus! {

/// The text of an optional string.
pub open spec fn opt_text(s: Option<String>) -> Option<Seq<char>> {
    match s {
        Some(text) => Some(text@),
        None => None,
    }
}

/// A todo as the service stores and returns it.
#[derive(Debug, Clone, PartialEq, Eq)]
pub struct Todo {
    pub id: u128,
    pub title: String,
    pub description: Option<String>,
    pub status: TodoStatus,
    pub finished_at: Option<Timestamp>,
    pub created_at: Timestamp,
}

/// What a todo holds, as mathematical values.
pub ghost struct TodoView {
    pub id: u128,
    pub title: Seq<char>,
    pub description: Option<Seq<char>>,
    pub status: TodoStatus,
    pub finished_at: Option<Timestamp>,
    pub created_at: Timestamp,
}

impl TodoView {
    /// The completion time is there exactly when the todo is done.
    pub open spec fn consistent(self) -> bool {
        self.finished_at is Some <==> self.status == TodoStatus::Done
    }

    /// The todo that creation yields from an identifier, a clock reading and
    /// what the client sent: pending, and not finished.
    pub open spec fn created(
        id: u128,
        at: Timestamp,
        title: Seq<char>,
        description: Option<Seq<char>>,
    ) -> TodoView {
        TodoView {
            id,
            title,
            description,
            status: TodoStatus::Pending,
            finished_at: None,
            created_at: at,
        }
    }

    /// This todo after an update that was applied at time `at`. The title is
    /// overwritten; the description only if one was sent; a status that was
    /// sent is taken over and decides the completion time: a todo that
    /// becomes done is stamped with `at`, one that is done already keeps the
    /// time at which it became so, and any other status clears the time.
    pub open spec fn updated(
        self,
        title: Seq<char>,
        description: Option<Seq<char>>,
        status: Option<TodoStatus>,
        at: Timestamp,
    ) -> TodoView {
        TodoView {
            id: self.id,
            title,
            description: if description is Some {
                description
            } else {
                self.description
            },
            status: match status {
                Some(s) => s,
                None => self.status,
            },
            finished_at: match status {
                Some(TodoStatus::Done) => {
                    if self.status == TodoStatus::Done && self.finished_at is Some {
                        self.finished_at
                    } else {
                        Some(at)
                    }
                },
                Some(_) => None,
                None => self.finished_at,
            },
            created_at: self.created_at,
        }
    }
}

impl View for Todo {
    type V = TodoView;

    open spec fn view(&self) -> TodoView {
        TodoView {
            id: self.id,
            title: self.title@,
            description: opt_text(self.description),
            status: self.status,
            finished_at: self.finished_at,
            created_at: self.created_at,
        }
    }
}

impl Todo {
    /// Builds the todo that creation yields, from an identifier and a clock
    /// reading that the caller supplies.
    pub fn created(
        id: u128,
        at: Timestamp,
        title: String,
        description: Option<String>,
    ) -> (todo: Todo)
        ensures
            todo@ == TodoView::created(id, at, title@, opt_text(description)),
    {
        Todo {
            id,
            title,
            description,
            status: TodoStatus::Pending,
            finished_at: None,
            created_at: at,
        }
    }

    /// Creates a todo under a newly generated identifier, stamped with the
    /// current time. The identifier and the time are whatever the generator
    /// and the clock gave; everything else is fixed.
    pub fn new(title: String, description: Option<String>) -> (todo: Todo)
        ensures
            todo@ == TodoView::created(todo.id, todo.created_at, title@, opt_text(description)),
            todo@.consistent(),
            is_random_id(todo.id),
            todo.id != 0,
            todo.created_at.nanos < 1_000_000_000,
    {
        let id = fresh_id();
        proof {
            lemma_random_id_is_not_nil(id);
        }
        Todo::created(id, now(), title, description)
    }

    /// Applies an update at a time that the caller supplies.
    pub fn update_at(
        &mut self,
        title: String,
        description: Option<String>,
        status: Option<TodoStatus>,
        at: Timestamp,
    )
        ensures
            final(self)@ == old(self)@.updated(title@, opt_text(description), status, at),
    {
        self.title = title;
        if let Some(text) = description {
            self.description = Some(text);
        }
        if let Some(s) = status {
            let finished = match (s, self.status, self.finished_at) {
                (TodoStatus::Done, TodoStatus::Done, Some(since)) => Some(since),
                (TodoStatus::Done, _, _) => Some(at),
                _ => None,
            };
            self.status = s;
            self.finished_at = finished;
        }
    }

    /// Applies an update now. The result is that of [`Todo::update_at`] at
    /// the time the clock gave, so all of it is fixed but the completion time
    /// of a todo that the update turns into a done one.
    pub fn update(
        &mut self,
        title: String,
        description: Option<String>,
        status: Option<TodoStatus>,
    )
        ensures
            exists|at: Timestamp|
                final(self)@ == #[trigger] old(self)@.updated(
                    title@,
                    opt_text(description),
                    status,
                    at,
                ),
            (status is Some || old(self)@.consistent()) ==> final(self)@.consistent(),
    {
        let at = now();
        self.update_at(title, description, status, at);
    }
}

/// A newly created todo is pending and not finished, so its completion time
/// and its status agree.
pub proof fn lemma_created_is_consistent(
    id: u128,
    at: Timestamp,
    title: Seq<char>,
    description: Option<Seq<char>>,
)
    ensures
        TodoView::created(id, at, title, description).status == TodoStatus::Pending,
        TodoView::created(id, at, title, description).finished_at is None,
        TodoView::created(id, at, title, description).consistent(),
{
}

/// An update never separates completion time and status: if it names a
/// status the two agree afterwards, and if it names none they agree
/// afterwards whenever they agreed before.
pub proof fn lemma_update_keeps_consistent(
    todo: TodoView,
    title: Seq<char>,
    description: Option<Seq<char>>,
    status: Option<TodoStatus>,
    at: Timestamp,
)
    requires
        status is Some || todo.consistent(),
    ensures
        todo.updated(title, description, status, at).consistent(),
{
}

/// An update leaves the identifier and the creation time alone.
pub proof fn lemma_update_keeps_identity(
    todo: TodoView,
    title: Seq<char>,
    description: Option<Seq<char>>,
    status: Option<TodoStatus>,
    at: Timestamp,
)
    ensures
        todo.updated(title, description, status, at).id == todo.id,
        todo.updated(title, description, status, at).created_at == todo.created_at,
{
}

/// Applying the same update a second time changes nothing, whatever the
/// clock reads by then: a todo that the first application marked as done
/// keeps the completion time that it got there.
pub proof fn lemma_update_is_idempotent(
    todo: TodoView,
    title: Seq<char>,
    description: Option<Seq<char>>,
    status: Option<TodoStatus>,
    first: Timestamp,
    second: Timestamp,
)
    ensures
        todo.updated(title, description, status, first).updated(
            title,
            description,
            status,
            second,
        ) == todo.updated(title, description, status, first),
{
}

/// The completion time of a done todo is set once: an update that names
/// `Done` again leaves it as it is, at whatever time it is applied.
pub proof fn lemma_done_keeps_its_time(
    todo: TodoView,
    title: Seq<char>,
    description: Option<Seq<char>>,
    at: Timestamp,
)
    requires
        todo.status == TodoStatus::Done,
        todo.finished_at is Some,
    ensures
        todo.updated(title, description, Some(TodoStatus::Done), at).finished_at
            == todo.finished_at,
{
}

/// A row of the store as the driver hands it over: the columns as plain
/// values, the status still as its integer code.
#[derive(Debug, Clone, PartialEq, Eq)]
pub struct TodoRow {
    pub id: u128,
    pub title: String,
    pub description: Option<String>,
    pub status: i16,
    pub finished_at: Option<Timestamp>,
    pub created_at: Timestamp,
}

/// What a row holds, as mathematical values.
pub ghost struct TodoRowView {
    pub id: u128,
    pub title: Seq<char>,
    pub description: Option<Seq<char>>,
    pub status: i16,
    pub finished_at: Option<Timestamp>,
    pub created_at: Timestamp,
}

impl View for TodoRow {
    type V = TodoRowView;

    open spec fn view(&self) -> TodoRowView {
        TodoRowView {
            id: self.id,
            title: self.title@,
            description: opt_text(self.description),
            status: self.status,
            finished_at: self.finished_at,
            created_at: self.created_at,
        }
    }
}

impl TodoRowView {
    /// The todo that this row holds. A row whose status code stands for no
    /// status holds none.
    pub open spec fn decoded(self) -> Result<TodoView, StoreError> {
        match TodoStatus::spec_from_i16(self.status) {
            Some(status) => Ok(
                TodoView {
                    id: self.id,
                    title: self.title,
                    description: self.description,
                    status,
                    finished_at: self.finished_at,
                    created_at: self.created_at,
                },
            ),
            None => Err(StoreError::Decode),
        }
    }
}

impl TodoView {
    /// The row under which the store keeps this todo.
    pub open spec fn encoded(self) -> TodoRowView {
        TodoRowView {
            id: self.id,
            title: self.title,
            description: self.description,
            status: self.status.spec_code() as i16,
            finished_at: self.finished_at,
            created_at: self.created_at,
        }
    }
}

/// What an operation that yields one todo came to, as mathematical values.
pub open spec fn outcome_view(outcome: Result<Todo, StoreError>) -> Result<TodoView, StoreError> {
    match outcome {
        Ok(todo) => Ok(todo@),
        Err(e) => Err(e),
    }
}

impl Todo {
    /// Reads a todo out of a stored row. Every column is taken as it is but
    /// the status, which is decoded; a code that stands for no status makes
    /// the row unreadable.
    pub fn from_row(row: &TodoRow) -> (outcome: Result<Todo, StoreError>)
        ensures
            outcome_view(outcome) == row@.decoded(),
    {
        match TodoStatus::from_i16(row.status) {
            Some(status) => Ok(
                Todo {
                    id: row.id,
                    title: row.title.clone(),
                    description: match &row.description {
                        Some(text) => Some(text.clone()),
                        None => None,
                    },
                    status,
                    finished_at: row.finished_at,
                    created_at: row.created_at,
                },
            ),
            None => Err(StoreError::Decode),
        }
    }

    /// Turns this todo into the row that the store keeps for it, the status
    /// as its integer code.
    pub fn into_row(self) -> (row: TodoRow)
        ensures
            row@ == self@.encoded(),
    {
        TodoRow {
            id: self.id,
            title: self.title,
            description: self.description,
            status: self.status.code(),
            finished_at: self.finished_at,
            created_at: self.created_at,
        }
    }
}

/// The row that the store keeps for a todo reads back as that todo, field
/// for field.
pub proof fn lemma_row_round_trip(todo: TodoView)
    ensures
        todo.encoded().decoded() == Ok::<TodoView, StoreError>(todo),
{
}

/// Status codes and statuses correspond one to one: a status is read back
/// from its code, and a code that stands for a status is that status's code.
pub proof fn lemma_status_code_round_trip(status: TodoStatus, code: i16)
    ensures
        TodoStatus::spec_from_i16(status.spec_code() as i16) == Some(status),
        TodoStatus::spec_from_i16(code) matches Some(s) ==> s.spec_code() == code,
        TodoStatus::spec_from_i16(code) is Some <==> 0 <= code <= 2,
{
}

/// What a client sends to create or to update a todo.
#[derive(Debug, Clone, PartialEq, Eq)]
pub struct TodoRequest {
    pub title: String,
    pub description: Option<String>,
    pub status: Option<TodoStatus>,
}

impl TodoRequest {
    /// Creates the todo that this request asks for. A status in the request
    /// is ignored: every todo starts out pending.
    pub fn into_todo(self) -> (todo: Todo)
        ensures
            todo@ == TodoView::created(
                todo.id,
                todo.created_at,
                self.title@,
                opt_text(self.description),
            ),
            todo@.consistent(),
            is_random_id(todo.id),
            todo.id != 0,
            todo.created_at.nanos < 1_000_000_000,
    {
        Todo::new(self.title, self.description)
    }
}

/// A todo as the service shows it to a client: a copy of every field.
#[derive(Debug, Clone, PartialEq, Eq)]
pub struct TodoResponse {
    pub id: u128,
    pub title: String,
    pub description: Option<String>,
    pub status: TodoStatus,
    pub finished_at: Option<Timestamp>,
    pub created_at: Timestamp,
}

impl View for TodoResponse {
    type V = TodoView;

    open spec fn view(&self) -> TodoView {
        TodoView {
            id: self.id,
            title: self.title@,
            description: opt_text(self.description),
            status: self.status,
            finished_at: self.finished_at,
            created_at: self.created_at,
        }
    }
}

impl TodoResponse {
    /// Copies a todo, field for field.
    pub fn from_todo(todo: &Todo) -> (response: TodoResponse)
        ensures
            response@ == todo@,
    {
        TodoResponse {
            id: todo.id,
            title: todo.title.clone(),
            description: match &todo.description {
                Some(text) => Some(text.clone()),
                None => None,
            },
            status: todo.status,
            finished_at: todo.finished_at,
            created_at: todo.created_at,
        }
    }
}

} // verus!
