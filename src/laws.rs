use crate::handlers::{delete_status, todo_response, Reply, ResponseBody, NOT_FOUND, NO_CONTENT, OK};
use crate::repositories::{
    create_outcome, delete_result, issued_next, lookup, update_result, RepositoryError, Todo,
    TodoRepositoryForMemory, UpdateTodo,
};
use vstd::prelude::*;

verus! {

/// Reading back a todo right after its creation gives 200 and exactly the created record.
pub proof fn created_todo_reads_back(
    before: Map<i32, Todo>,
    after: Map<i32, Todo>,
    text: String,
    todo: Todo,
)
    requires
        create_outcome(before, after, text, Ok(todo)),
    ensures
        lookup(after, todo.id) == Ok::<Todo, RepositoryError>(todo),
        todo_response(lookup(after, todo.id), OK) == (Reply {
            status: OK,
            body: ResponseBody::Todo(todo),
        }),
{
}

/// Deleting a stored todo answers 204, and reading its id afterwards answers 404.
pub proof fn deleted_todo_is_gone(before: Map<i32, Todo>, id: i32)
    requires
        before.contains_key(id),
    ensures
        delete_status(delete_result(before, id)) == NO_CONTENT,
        todo_response(lookup(before.remove(id), id), OK) == (Reply {
            status: NOT_FOUND,
            body: ResponseBody::Empty,
        }),
{
}

/// A partial update that only sets `completed` keeps the stored text and id.
pub proof fn completed_only_update_keeps_text(m: Map<i32, Todo>, id: i32, completed: bool)
    requires
        m.contains_key(id),
        m[id].id == id,
    ensures
        update_result(m, id, UpdateTodo { text: None, completed: Some(completed) }) == Ok::<
            Todo,
            RepositoryError,
        >(Todo { id, text: m[id].text, completed }),
{
}

/// Two creations on the in-memory store never hand out the same id: the later one,
/// made once the first had finished, gets a larger id.
pub proof fn later_creation_gets_larger_id(
    first_before: TodoRepositoryForMemory,
    first_after: TodoRepositoryForMemory,
    first: Todo,
    second_before: TodoRepositoryForMemory,
    second_after: TodoRepositoryForMemory,
    second: Todo,
)
    requires
        issued_next(first_before, first_after, first),
        issued_next(second_before, second_after, second),
        first_after.last_issued() <= second_before.last_issued(),
    ensures
        first.id < second.id,
        first.id != second.id,
{
}

} // verus!
