use crate::repositories::{
    after_update, create_outcome, delete_result, lists_exactly, lookup, update_result, CreateTodo,
    RepositoryError, Todo, TodoRepository, UpdateTodo,
};
use crate::validation::{
    text_length_ok, text_length_violation, validation_message, Validate, ValidatedJson,
    BAD_REQUEST,
};
use vstd::prelude::*;

verus! {

pub const OK: u16 = 200;

pub const CREATED: u16 = 201;

pub const NO_CONTENT: u16 = 204;

pub const NOT_FOUND: u16 = 404;

/// The id that every created user is given.
pub const USER_ID: u64 = 1337;

/// A user as echoed back by the user endpoint; never stored.
#[derive(Debug, Clone, PartialEq, Eq)]
pub struct User {
    pub id: u64,
    pub username: String,
}

/// The payload that creates a user.
#[derive(Debug, Clone, PartialEq, Eq)]
pub struct CreateUser {
    pub username: String,
}

/// What a response carries.
#[derive(Debug, Clone, PartialEq, Eq)]
pub enum ResponseBody {
    Empty,
    Text(String),
    Todo(Todo),
    Todos(Vec<Todo>),
    User(User),
}

/// A status and a body.
#[derive(Debug, Clone, PartialEq, Eq)]
pub struct Reply {
    pub status: u16,
    pub body: ResponseBody,
}

/// The reply to a repository result that carries a todo: `success` with the todo, or
/// 404 with no body on any error.
pub open spec fn todo_response(r: Result<Todo, RepositoryError>, success: u16) -> Reply {
    match r {
        Ok(todo) => Reply { status: success, body: ResponseBody::Todo(todo) },
        Err(_) => Reply { status: NOT_FOUND, body: ResponseBody::Empty },
    }
}

/// The status that answers a deletion: 204 when it happened, else 404.
pub open spec fn delete_status(r: Result<(), RepositoryError>) -> u16 {
    match r {
        Ok(()) => NO_CONTENT,
        Err(_) => NOT_FOUND,
    }
}

/// Maps a repository result that carries a todo to its reply.
pub fn todo_reply(r: Result<Todo, RepositoryError>, success: u16) -> (reply: Reply)
    ensures
        reply == todo_response(r, success),
{
    match r {
        Ok(todo) => Reply { status: success, body: ResponseBody::Todo(todo) },
        Err(_) => Reply { status: NOT_FOUND, body: ResponseBody::Empty },
    }
}

/// Maps the result of a deletion to its status.
pub fn delete_reply(r: Result<(), RepositoryError>) -> (status: u16)
    ensures
        status == delete_status(r),
{
    match r {
        Ok(()) => NO_CONTENT,
        Err(_) => NOT_FOUND,
    }
}

/// Stores the validated payload as a new todo: 201 with the todo, or 404 when the
/// backend could not store it.
pub fn create_todo<T: TodoRepository>(repository: &mut T, payload: ValidatedJson<CreateTodo>) -> (r:
    Reply)
    requires
        old(repository).inv(),
    ensures
        final(repository).inv(),
        match r.body {
            ResponseBody::Todo(todo) => r.status == CREATED && create_outcome(
                old(repository).todos(),
                final(repository).todos(),
                payload.value().text,
                Ok(todo),
            ),
            _ => r == (Reply { status: NOT_FOUND, body: ResponseBody::Empty })
                && final(repository).todos() == old(repository).todos(),
        },
        old(repository).can_create() ==> r.status == CREATED,
{
    let created = repository.create(payload.into_inner());
    todo_reply(created, CREATED)
}

/// The todo stored under `id`: 200 with it, or 404.
pub fn find_todo<T: TodoRepository>(repository: &T, id: i32) -> (r: Reply)
    requires
        repository.inv(),
    ensures
        r == todo_response(lookup(repository.todos(), id), OK),
{
    let found = repository.find(id);
    todo_reply(found, OK)
}

/// Every stored todo: 200 with the list, in no particular order.
pub fn all_todo<T: TodoRepository>(repository: &T) -> (r: Reply)
    requires
        repository.inv(),
    ensures
        r.status == OK,
        match r.body {
            ResponseBody::Todos(todos) => lists_exactly(todos@, repository.todos()),
            _ => false,
        },
{
    let todos = repository.all();
    Reply { status: OK, body: ResponseBody::Todos(todos) }
}

/// Applies the validated partial update to the todo under `id`: 200 with the merged
/// todo, or 404.
pub fn update_todo<T: TodoRepository>(
    repository: &mut T,
    id: i32,
    payload: ValidatedJson<UpdateTodo>,
) -> (r: Reply)
    requires
        old(repository).inv(),
    ensures
        final(repository).inv(),
        r == todo_response(update_result(old(repository).todos(), id, payload.value()), OK),
        final(repository).todos() == after_update(old(repository).todos(), id, payload.value()),
{
    let updated = repository.update(id, payload.into_inner());
    todo_reply(updated, OK)
}

/// Removes the todo under `id`: 204, or 404.
pub fn delete_todo<T: TodoRepository>(repository: &mut T, id: i32) -> (status: u16)
    requires
        old(repository).inv(),
    ensures
        final(repository).inv(),
        status == delete_status(delete_result(old(repository).todos(), id)),
        final(repository).todos() == old(repository).todos().remove(id),
{
    let deleted = repository.delete(id);
    delete_reply(deleted)
}

/// The reply that turns a payload away: 400 with the rejection's message.
pub open spec fn rejected(r: Reply, message: Seq<char>) -> bool {
    &&& r.status == BAD_REQUEST
    &&& r.body matches ResponseBody::Text(m) && m@ == message
}

/// Validates a decoded todo payload and stores it: 400 when the text is not between 1
/// and 100 characters, else what storing it gives.
pub fn post_todo<T: TodoRepository>(repository: &mut T, payload: CreateTodo) -> (r: Reply)
    requires
        old(repository).inv(),
    ensures
        final(repository).inv(),
        !text_length_ok(payload.text@) ==> rejected(r, validation_message(seq![text_length_violation()]))
            && final(repository).todos() == old(repository).todos(),
        text_length_ok(payload.text@) ==> match r.body {
            ResponseBody::Todo(todo) => r.status == CREATED && create_outcome(
                old(repository).todos(),
                final(repository).todos(),
                payload.text,
                Ok(todo),
            ),
            _ => r == (Reply { status: NOT_FOUND, body: ResponseBody::Empty })
                && final(repository).todos() == old(repository).todos(),
        },
        text_length_ok(payload.text@) && old(repository).can_create() ==> r.status == CREATED,
{
    match ValidatedJson::from_value(payload) {
        Ok(valid) => create_todo(repository, valid),
        Err(rejection) => Reply { status: rejection.status, body: ResponseBody::Text(rejection.message) },
    }
}

/// Validates a decoded partial update and applies it to the todo under `id`: 400 when a
/// text is given that is not between 1 and 100 characters, else what the update gives.
pub fn patch_todo<T: TodoRepository>(repository: &mut T, id: i32, payload: UpdateTodo) -> (r:
    Reply)
    requires
        old(repository).inv(),
    ensures
        final(repository).inv(),
        payload.violations().len() > 0 ==> rejected(r, validation_message(payload.violations()))
            && final(repository).todos() == old(repository).todos(),
        payload.violations().len() == 0 ==> r == todo_response(
            update_result(old(repository).todos(), id, payload),
            OK,
        ) && final(repository).todos() == after_update(old(repository).todos(), id, payload),
{
    match ValidatedJson::from_value(payload) {
        Ok(valid) => update_todo(repository, id, valid),
        Err(rejection) => Reply { status: rejection.status, body: ResponseBody::Text(rejection.message) },
    }
}

/// Echoes the username back under the fixed id, with 201.
pub fn create_user(payload: CreateUser) -> (r: Reply)
    ensures
        r == (Reply { status: CREATED, body: ResponseBody::User(User { id: USER_ID, username: payload.username }) }),
{
    Reply { status: CREATED, body: ResponseBody::User(User { id: USER_ID, username: payload.username }) }
}

/// The greeting of the root route.
pub fn root() -> (r: &'static str)
    ensures
        r@ == "Hello, World!"@,
{
    "Hello, World!"
}

} // verus!
