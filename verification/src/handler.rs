//! The five endpoints, as functions from what the store answered to the HTTP
//! reply that the client gets. None of them talks to the store: the caller
//! runs the statement and hands the outcome in.

use vstd::prelude::*;
use vstd::string::*;

use crate::clock::{now, Timestamp};
use crate::error::StoreError;
use crate::ident::{id_text, write_id};
use crate::model::{opt_text, outcome_view, Todo, TodoRequest, TodoResponse, TodoView};
use crate::repository::{decoded_one, list_view, removal};
use crate::status::TodoStatus;

verus! {

/// The path under which the todos live; a todo's own path is this and its
/// identifier.
pub const TODOS_PATH: &'static str = "/todos/";

/// What a client is told when the list cannot be read.
pub const GET_ALL_FAILED: &'static str = "Failed to get todos";

/// What a client is told when a todo cannot be read.
pub const GET_FAILED: &'static str = "Failed to get todo";

/// What a client is told when a todo cannot be stored.
pub const CREATE_FAILED: &'static str = "Failed to create todo";

/// What a client is told when a todo cannot be changed. A removal that fails
/// reports with the same words.
pub const UPDATE_FAILED: &'static str = "Failed to update todo";

/// The status codes that the service answers with.
#[derive(Debug, Clone, Copy, PartialEq, Eq, Structural)]
pub enum StatusCode {
    Okay,
    Created,
    NoContent,
    NotFound,
    InternalServerError,
}

impl StatusCode {
    /// The number of this status code.
    pub open spec fn spec_as_u16(self) -> u16 {
        match self {
            StatusCode::Okay => 200,
            StatusCode::Created => 201,
            StatusCode::NoContent => 204,
            StatusCode::NotFound => 404,
            StatusCode::InternalServerError => 500,
        }
    }

    /// The number of this status code.
    pub fn as_u16(self) -> (code: u16)
        ensures
            code == self.spec_as_u16(),
    {
        match self {
            StatusCode::Okay => 200,
            StatusCode::Created => 201,
            StatusCode::NoContent => 204,
            StatusCode::NotFound => 404,
            StatusCode::InternalServerError => 500,
        }
    }
}

/// What a reply carries.
#[derive(Debug, Clone, PartialEq, Eq)]
pub enum Body {
    /// Nothing.
    Empty,
    /// A plain message.
    Text(String),
    /// One todo, to be written as a JSON object.
    Todo(TodoResponse),
    /// Todos, to be written as a JSON array.
    Todos(Vec<TodoResponse>),
}

/// What a body carries, as mathematical values.
pub ghost enum BodyView {
    Empty,
    Text(Seq<char>),
    Todo(TodoView),
    Todos(Seq<TodoView>),
}

impl View for Body {
    type V = BodyView;

    open spec fn view(&self) -> BodyView {
        match self {
            Body::Empty => BodyView::Empty,
            Body::Text(message) => BodyView::Text(message@),
            Body::Todo(todo) => BodyView::Todo(todo@),
            Body::Todos(todos) => BodyView::Todos(todos@.map_values(|todo: TodoResponse| todo@)),
        }
    }
}

/// An HTTP reply: the status, the `Location` header if there is one, and the
/// body.
#[derive(Debug, Clone, PartialEq, Eq)]
pub struct Reply {
    pub status: StatusCode,
    pub location: Option<String>,
    pub body: Body,
}

/// What a reply holds, as mathematical values.
pub ghost struct ReplyView {
    pub status: StatusCode,
    pub location: Option<Seq<char>>,
    pub body: BodyView,
}

impl View for Reply {
    type V = ReplyView;

    open spec fn view(&self) -> ReplyView {
        ReplyView {
            status: self.status,
            location: opt_text(self.location),
            body: self.body@,
        }
    }
}

impl ReplyView {
    /// The reply to a request for a todo that is not there: 404, no body.
    pub open spec fn not_found() -> ReplyView {
        ReplyView { status: StatusCode::NotFound, location: None, body: BodyView::Empty }
    }

    /// The reply to a request that the store failed: 500 and a message that
    /// says what was attempted and nothing of why it failed.
    pub open spec fn failure(message: Seq<char>) -> ReplyView {
        ReplyView {
            status: StatusCode::InternalServerError,
            location: None,
            body: BodyView::Text(message),
        }
    }

    /// A reply that shows one todo.
    pub open spec fn showing(status: StatusCode, todo: TodoView) -> ReplyView {
        ReplyView { status, location: None, body: BodyView::Todo(todo) }
    }

    /// The reply that announces a new todo whose identifier is written `id`:
    /// 201, the todo, and its path as `Location`.
    pub open spec fn created(todo: TodoView, id: Seq<char>) -> ReplyView {
        ReplyView {
            status: StatusCode::Created,
            location: Some(location_of(id)),
            body: BodyView::Todo(todo),
        }
    }
}

/// The path of the todo whose identifier is written `id`.
pub open spec fn location_of(id: Seq<char>) -> Seq<char> {
    TODOS_PATH@ + id
}

/// The reply to `GET /todos`.
pub open spec fn get_all_reply(outcome: Result<Seq<TodoView>, StoreError>) -> ReplyView {
    match outcome {
        Ok(todos) => ReplyView {
            status: StatusCode::Okay,
            location: None,
            body: BodyView::Todos(todos),
        },
        Err(_) => ReplyView::failure(GET_ALL_FAILED@),
    }
}

/// The reply to `GET /todos/{id}`.
pub open spec fn get_by_id_reply(outcome: Result<TodoView, StoreError>) -> ReplyView {
    match outcome {
        Ok(todo) => ReplyView::showing(StatusCode::Okay, todo),
        Err(StoreError::NotFound) => ReplyView::not_found(),
        Err(_) => ReplyView::failure(GET_FAILED@),
    }
}

/// The reply to `POST /todos`.
pub open spec fn create_reply(outcome: Result<TodoView, StoreError>) -> ReplyView {
    match outcome {
        Ok(todo) => ReplyView::created(todo, id_text(todo.id)),
        Err(_) => ReplyView::failure(CREATE_FAILED@),
    }
}

/// The reply to `PUT /todos/{id}` once the store has answered the write.
pub open spec fn update_reply(outcome: Result<TodoView, StoreError>) -> ReplyView {
    match outcome {
        Ok(todo) => ReplyView::showing(StatusCode::Okay, todo),
        Err(_) => ReplyView::failure(UPDATE_FAILED@),
    }
}

/// The reply to `DELETE /todos/{id}`.
pub open spec fn delete_reply(outcome: Result<(), StoreError>) -> ReplyView {
    match outcome {
        Ok(_) => ReplyView { status: StatusCode::NoContent, location: None, body: BodyView::Empty },
        Err(StoreError::NotFound) => ReplyView::not_found(),
        Err(_) => ReplyView::failure(UPDATE_FAILED@),
    }
}

/// What an update does once the todo has been looked up.
#[derive(Debug, Clone, PartialEq, Eq)]
pub enum UpdateStep {
    /// Write this todo to the store, then answer with what
    /// [`update_written`] makes of the outcome.
    Write(Todo),
    /// Answer at once.
    Answer(Reply),
}

/// What an update does next, as mathematical values.
pub ghost enum UpdateStepView {
    Write(TodoView),
    Answer(ReplyView),
}

impl View for UpdateStep {
    type V = UpdateStepView;

    open spec fn view(&self) -> UpdateStepView {
        match self {
            UpdateStep::Write(todo) => UpdateStepView::Write(todo@),
            UpdateStep::Answer(reply) => UpdateStepView::Answer(reply@),
        }
    }
}

/// The step that follows the lookup of the todo to update, at time `at`: a
/// todo that was found is changed as the request says and goes to the store;
/// a lookup that failed ends the update.
pub open spec fn update_step(
    found: Result<TodoView, StoreError>,
    title: Seq<char>,
    description: Option<Seq<char>>,
    status: Option<TodoStatus>,
    at: Timestamp,
) -> UpdateStepView {
    match found {
        Ok(todo) => UpdateStepView::Write(todo.updated(title, description, status, at)),
        Err(StoreError::NotFound) => UpdateStepView::Answer(ReplyView::not_found()),
        Err(_) => UpdateStepView::Answer(ReplyView::failure(UPDATE_FAILED@)),
    }
}

fn not_found() -> (reply: Reply)
    ensures
        reply@ == ReplyView::not_found(),
{
    Reply { status: StatusCode::NotFound, location: None, body: Body::Empty }
}

fn failure(message: &str) -> (reply: Reply)
    ensures
        reply@ == ReplyView::failure(message@),
{
    Reply {
        status: StatusCode::InternalServerError,
        location: None,
        body: Body::Text(String::from_str(message)),
    }
}

fn showing(status: StatusCode, todo: &Todo) -> (reply: Reply)
    ensures
        reply@ == ReplyView::showing(status, todo@),
{
    Reply { status, location: None, body: Body::Todo(TodoResponse::from_todo(todo)) }
}

/// Answers `GET /todos` from what the store gave: 200 and the todos in the
/// store's order, or 500 on any failure.
pub fn get_all(outcome: Result<Vec<Todo>, StoreError>) -> (reply: Reply)
    ensures
        reply@ == get_all_reply(list_view(outcome)),
{
    match outcome {
        Ok(todos) => {
            let mut shown: Vec<TodoResponse> = Vec::new();
            let mut i: usize = 0;
            while i < todos.len()
                invariant
                    i <= todos.len(),
                    shown.len() == i,
                    forall|j: int| 0 <= j < i ==> (#[trigger] shown[j])@ == todos[j]@,
                decreases todos.len() - i,
            {
                shown.push(TodoResponse::from_todo(&todos[i]));
                i += 1;
            }
            assert(shown@.map_values(|todo: TodoResponse| todo@) =~= todos@.map_values(
                |todo: Todo| todo@,
            ));
            Reply { status: StatusCode::Okay, location: None, body: Body::Todos(shown) }
        },
        Err(_) => failure(GET_ALL_FAILED),
    }
}

/// Answers `GET /todos/{id}`: 200 and the todo, 404 if there is none, 500 on
/// any other failure.
pub fn get_by_id(outcome: Result<Todo, StoreError>) -> (reply: Reply)
    ensures
        reply@ == get_by_id_reply(outcome_view(outcome)),
{
    match outcome {
        Ok(todo) => showing(StatusCode::Okay, &todo),
        Err(StoreError::NotFound) => not_found(),
        Err(_) => failure(GET_FAILED),
    }
}

/// The path of a todo, from its identifier written out.
pub fn location(id: &str) -> (path: String)
    ensures
        path@ == location_of(id@),
{
    let mut path = String::from_str(TODOS_PATH);
    path.append(id);
    path
}

/// Announces a new todo, given its identifier written out: 201, the todo,
/// and its path as `Location`.
pub fn created(todo: &Todo, id: &str) -> (reply: Reply)
    ensures
        reply@ == ReplyView::created(todo@, id@),
{
    Reply {
        status: StatusCode::Created,
        location: Some(location(id)),
        body: Body::Todo(TodoResponse::from_todo(todo)),
    }
}

/// Answers `POST /todos` from what the store gave: 201, the stored todo and,
/// as `Location`, its path, or 500 on any failure.
pub fn create(outcome: Result<Todo, StoreError>) -> (reply: Reply)
    ensures
        reply@ == create_reply(outcome_view(outcome)),
{
    match outcome {
        Ok(todo) => {
            let id = write_id(todo.id);
            created(&todo, id.as_str())
        },
        Err(_) => failure(CREATE_FAILED),
    }
}

/// Decides, at a time that the caller supplies, what an update does once the
/// todo has been looked up.
pub fn update_at(
    found: Result<Todo, StoreError>,
    req: TodoRequest,
    at: Timestamp,
) -> (step: UpdateStep)
    ensures
        step@ == update_step(
            outcome_view(found),
            req.title@,
            opt_text(req.description),
            req.status,
            at,
        ),
{
    match found {
        Ok(todo) => {
            let mut todo = todo;
            todo.update_at(req.title, req.description, req.status, at);
            UpdateStep::Write(todo)
        },
        Err(StoreError::NotFound) => UpdateStep::Answer(not_found()),
        Err(_) => UpdateStep::Answer(failure(UPDATE_FAILED)),
    }
}

/// Decides what an update does once the todo has been looked up: 404 if
/// there is none, 500 if the lookup failed, else the changed todo goes to the
/// store. A todo that becomes done is stamped with the current time, so the
/// step is that of [`update_at`] at whatever the clock gave.
pub fn update(found: Result<Todo, StoreError>, req: TodoRequest) -> (step: UpdateStep)
    ensures
        exists|at: Timestamp|
            step@ == #[trigger] update_step(
                outcome_view(found),
                req.title@,
                opt_text(req.description),
                req.status,
                at,
            ),
{
    let at = now();
    update_at(found, req, at)
}

/// Answers `PUT /todos/{id}` once the store has answered the write: 200 and
/// the stored todo, or 500 on any failure, a missing row included.
pub fn update_written(outcome: Result<Todo, StoreError>) -> (reply: Reply)
    ensures
        reply@ == update_reply(outcome_view(outcome)),
{
    match outcome {
        Ok(todo) => showing(StatusCode::Okay, &todo),
        Err(_) => failure(UPDATE_FAILED),
    }
}

/// Answers `DELETE /todos/{id}`: 204, 404 if there was nothing to remove,
/// 500 on any other failure.
pub fn delete(outcome: Result<(), StoreError>) -> (reply: Reply)
    ensures
        reply@ == delete_reply(outcome),
{
    match outcome {
        Ok(_) => Reply { status: StatusCode::NoContent, location: None, body: Body::Empty },
        Err(StoreError::NotFound) => not_found(),
        Err(_) => failure(UPDATE_FAILED),
    }
}

/// A todo that the store does not hold is answered with 404 wherever a
/// request names it: when it is read, when it is to be updated, and when it
/// is to be removed. No such request is answered with 500.
pub proof fn lemma_missing_is_not_found(
    title: Seq<char>,
    description: Option<Seq<char>>,
    status: Option<TodoStatus>,
    at: Timestamp,
)
    ensures
        get_by_id_reply(decoded_one(None)) == ReplyView::not_found(),
        update_step(decoded_one(None), title, description, status, at) == UpdateStepView::Answer(
            ReplyView::not_found(),
        ),
        delete_reply(removal(0)) == ReplyView::not_found(),
        ReplyView::not_found().status == StatusCode::NotFound,
        ReplyView::not_found().status != StatusCode::InternalServerError,
{
}

/// 404 is kept for the missing todo: a lookup or a removal is answered with
/// it exactly when the store reported that nothing has the identifier, and an
/// update ends with it exactly when its lookup did.
pub proof fn lemma_not_found_only_when_missing(
    found: Result<TodoView, StoreError>,
    removed: Result<(), StoreError>,
    title: Seq<char>,
    description: Option<Seq<char>>,
    status: Option<TodoStatus>,
    at: Timestamp,
)
    ensures
        get_by_id_reply(found).status == StatusCode::NotFound <==> found == Err::<
            TodoView,
            StoreError,
        >(StoreError::NotFound),
        delete_reply(removed).status == StatusCode::NotFound <==> removed == Err::<
            (),
            StoreError,
        >(StoreError::NotFound),
        update_step(found, title, description, status, at) == UpdateStepView::Answer(
            ReplyView::not_found(),
        ) <==> found == Err::<TodoView, StoreError>(StoreError::NotFound),
        update_reply(found).status != StatusCode::NotFound,
        create_reply(found).status != StatusCode::NotFound,
{
}

/// A todo that has just been created reads back as it was announced: if the
/// store keeps the row that creation wrote, looking the todo up shows the
/// same body as the reply to its creation.
pub proof fn lemma_created_reads_back(todo: TodoView)
    ensures
        get_by_id_reply(decoded_one(Some(todo.encoded()))) == ReplyView::showing(
            StatusCode::Okay,
            todo,
        ),
        get_by_id_reply(decoded_one(Some(todo.encoded()))).body == create_reply(
            Ok(todo),
        ).body,
{
}

/// An update that is sent a second time writes the todo that the first one
/// wrote, whatever the clock reads by then, so the store ends as the first
/// one left it and the second reply shows what the first one showed.
pub proof fn lemma_update_twice_writes_the_same(
    found: TodoView,
    title: Seq<char>,
    description: Option<Seq<char>>,
    status: Option<TodoStatus>,
    first: Timestamp,
    second: Timestamp,
)
    ensures
        update_step(
            Ok(found.updated(title, description, status, first)),
            title,
            description,
            status,
            second,
        ) == update_step(Ok(found), title, description, status, first),
        update_reply(Ok(found.updated(title, description, status, first).updated(
            title,
            description,
            status,
            second,
        ))) == update_reply(Ok(found.updated(title, description, status, first))),
{
}

/// Whatever an update writes to the store keeps completion time and status
/// in agreement, if the todo that was looked up did or the request names a
/// status.
pub proof fn lemma_update_writes_consistent(
    found: TodoView,
    title: Seq<char>,
    description: Option<Seq<char>>,
    status: Option<TodoStatus>,
    at: Timestamp,
)
    requires
        status is Some || found.consistent(),
    ensures
        update_step(Ok(found), title, description, status, at) matches UpdateStepView::Write(todo)
            && todo.consistent(),
{
}

} // verus!
