use std::collections::HashMap;
use vstd::prelude::*;
use vstd::std_specs::iter::IteratorSpec;

verus! {

broadcast use vstd::std_specs::hash::group_hash_axioms;

/// The domain error of a repository operation.
#[derive(Debug, Clone, Copy, PartialEq, Eq)]
pub enum RepositoryError {
    /// No todo is stored under this id.
    NotFound(i32),
    /// The in-memory store has handed out every positive `i32` id.
    IdsExhausted,
}

/// A stored todo record.
#[derive(Debug, Clone, PartialEq, Eq)]
pub struct Todo {
    pub id: i32,
    pub text: String,
    pub completed: bool,
}

/// The payload that creates a todo.
#[derive(Debug, Clone, PartialEq, Eq)]
pub struct CreateTodo {
    pub text: String,
}

/// The payload of a partial update: each field that is present replaces the stored one.
#[derive(Debug, Clone, PartialEq, Eq)]
pub struct UpdateTodo {
    pub text: Option<String>,
    pub completed: Option<bool>,
}

impl Todo {
    /// A todo that is not completed yet.
    pub fn new(id: i32, text: String) -> (r: Todo)
        ensures
            r == (Todo { id, text, completed: false }),
    {
        Todo { id, text, completed: false }
    }

    /// A field-by-field copy.
    pub fn copied(&self) -> (r: Todo)
        ensures
            r == *self,
    {
        Todo { id: self.id, text: self.text.clone(), completed: self.completed }
    }
}

impl CreateTodo {
    pub fn new(text: String) -> (r: CreateTodo)
        ensures
            r == (CreateTodo { text }),
    {
        CreateTodo { text }
    }
}

/// What the store becomes when `payload` is applied to `current` under `id`: each field
/// the payload carries replaces the stored one, the others are kept.
pub open spec fn patched(id: i32, current: Todo, payload: UpdateTodo) -> Todo {
    Todo {
        id,
        text: match payload.text {
            Some(t) => t,
            None => current.text,
        },
        completed: match payload.completed {
            Some(c) => c,
            None => current.completed,
        },
    }
}

/// Every todo is stored under its own id.
pub open spec fn keyed_by_id(m: Map<i32, Todo>) -> bool {
    forall|k: i32| #[trigger] m.contains_key(k) ==> m[k].id == k
}

/// The outcome of looking `id` up in `m`.
pub open spec fn lookup(m: Map<i32, Todo>, id: i32) -> Result<Todo, RepositoryError> {
    if m.contains_key(id) {
        Ok(m[id])
    } else {
        Err(RepositoryError::NotFound(id))
    }
}

/// The outcome of a partial update of `id` in `m`.
pub open spec fn update_result(m: Map<i32, Todo>, id: i32, payload: UpdateTodo) -> Result<
    Todo,
    RepositoryError,
> {
    if m.contains_key(id) {
        Ok(patched(id, m[id], payload))
    } else {
        Err(RepositoryError::NotFound(id))
    }
}

/// The store after a partial update of `id` in `m`.
pub open spec fn after_update(m: Map<i32, Todo>, id: i32, payload: UpdateTodo) -> Map<i32, Todo> {
    if m.contains_key(id) {
        m.insert(id, patched(id, m[id], payload))
    } else {
        m
    }
}

/// The outcome of removing `id` from `m`.
pub open spec fn delete_result(m: Map<i32, Todo>, id: i32) -> Result<(), RepositoryError> {
    if m.contains_key(id) {
        Ok(())
    } else {
        Err(RepositoryError::NotFound(id))
    }
}

/// `before` became `after` by storing a new, not completed todo with `text` under a
/// positive id that was free; `r` tells which todo that was, or that nothing changed.
pub open spec fn create_outcome(
    before: Map<i32, Todo>,
    after: Map<i32, Todo>,
    text: String,
    r: Result<Todo, RepositoryError>,
) -> bool {
    match r {
        Ok(todo) => {
            &&& todo == (Todo { id: todo.id, text, completed: false })
            &&& todo.id > 0
            &&& !before.contains_key(todo.id)
            &&& after == before.insert(todo.id, todo)
        },
        Err(_) => after == before,
    }
}

/// `v` lists each todo of `m` exactly once, in some order.
pub open spec fn lists_exactly(v: Seq<Todo>, m: Map<i32, Todo>) -> bool {
    &&& v.len() == m.dom().len()
    &&& forall|i: int| 0 <= i < v.len() ==> #[trigger] m.contains_key(v[i].id) && m[v[i].id] == v[i]
    &&& forall|i: int, j: int| 0 <= i < v.len() && 0 <= j < v.len() && i != j ==> #[trigger] v[i].id != #[trigger] v[j].id
    &&& forall|k: i32| #[trigger] m.contains_key(k) ==> exists|i: int| 0 <= i < v.len() && #[trigger] v[i].id == k
}

/// The persistence operations on todos, over any backend.
pub trait TodoRepository: Sized {
    /// The stored todos, by id.
    spec fn todos(&self) -> Map<i32, Todo>;

    /// The backend's own well-formedness.
    spec fn inv(&self) -> bool;

    /// Whether the backend is able to store one more todo.
    spec fn can_create(&self) -> bool;

    /// Stores a new todo with the payload's text under a fresh id.
    fn create(&mut self, payload: CreateTodo) -> (r: Result<Todo, RepositoryError>)
        requires
            old(self).inv(),
        ensures
            final(self).inv(),
            create_outcome(old(self).todos(), final(self).todos(), payload.text, r),
            old(self).can_create() ==> r is Ok,
    ;

    /// The todo stored under `id`.
    fn find(&self, id: i32) -> (r: Result<Todo, RepositoryError>)
        requires
            self.inv(),
        ensures
            r == lookup(self.todos(), id),
    ;

    /// Every stored todo, in no particular order.
    fn all(&self) -> (r: Vec<Todo>)
        requires
            self.inv(),
        ensures
            lists_exactly(r@, self.todos()),
    ;

    /// Applies a partial update to the todo stored under `id`.
    fn update(&mut self, id: i32, payload: UpdateTodo) -> (r: Result<Todo, RepositoryError>)
        requires
            old(self).inv(),
        ensures
            final(self).inv(),
            r == update_result(old(self).todos(), id, payload),
            final(self).todos() == after_update(old(self).todos(), id, payload),
    ;

    /// Removes the todo stored under `id`.
    fn delete(&mut self, id: i32) -> (r: Result<(), RepositoryError>)
        requires
            old(self).inv(),
        ensures
            final(self).inv(),
            r == delete_result(old(self).todos(), id),
            final(self).todos() == old(self).todos().remove(id),
    ;
}

/// The in-memory backend: a map from id to todo, and the highest id handed out so far.
///
/// A new todo gets the id one above the highest id handed out before, so ids grow with
/// each creation and an id is never handed out twice, not even after a deletion.
#[derive(Debug)]
pub struct TodoRepositoryForMemory {
    store: HashMap<i32, Todo>,
    last_id: i32,
}

impl TodoRepositoryForMemory {
    /// Every todo sits under its own id, which lies between 1 and the highest id handed out.
    #[verifier::type_invariant]
    spec fn well_formed(&self) -> bool {
        &&& self.last_id >= 0
        &&& keyed_by_id(self.store@)
        &&& forall|k: i32| #[trigger] self.store@.contains_key(k) ==> 0 < k <= self.last_id
    }

    /// Takes the map out, leaving an empty one in its place.
    fn take_store(&mut self) -> (store: HashMap<i32, Todo>)
        ensures
            store@ == old(self).store@,
            final(self).store@ == Map::<i32, Todo>::empty(),
            final(self).last_id == old(self).last_id,
    {
        proof {
            use_type_invariant(&*self);
        }
        let mut store = HashMap::new();
        std::mem::swap(&mut store, &mut self.store);
        store
    }

    /// The highest id handed out so far, 0 before the first creation.
    pub closed spec fn last_issued(&self) -> int {
        self.last_id as int
    }

    /// An empty store.
    pub fn new() -> (r: TodoRepositoryForMemory)
        ensures
            r.todos() == Map::<i32, Todo>::empty(),
            r.last_issued() == 0,
    {
        TodoRepositoryForMemory { store: HashMap::new(), last_id: 0 }
    }
}

/// `todo` got the id right above the highest one `before` had handed out, and that id is
/// now the highest one handed out.
pub open spec fn issued_next(
    before: TodoRepositoryForMemory,
    after: TodoRepositoryForMemory,
    todo: Todo,
) -> bool {
    &&& todo.id == before.last_issued() + 1
    &&& after.last_issued() == todo.id
}

impl Default for TodoRepositoryForMemory {
    fn default() -> (r: TodoRepositoryForMemory)
        ensures
            r.todos() == Map::<i32, Todo>::empty(),
            r.last_issued() == 0,
    {
        TodoRepositoryForMemory::new()
    }
}

impl TodoRepository for TodoRepositoryForMemory {
    closed spec fn todos(&self) -> Map<i32, Todo> {
        self.store@
    }

    /// Always holds: the store keeps its well-formedness as a type invariant.
    open spec fn inv(&self) -> bool {
        true
    }

    open spec fn can_create(&self) -> bool {
        self.last_issued() < i32::MAX
    }

    fn create(&mut self, payload: CreateTodo) -> (r: Result<Todo, RepositoryError>)
        ensures
            match r {
                Ok(todo) => issued_next(*old(self), *final(self), todo),
                Err(e) => e == RepositoryError::IdsExhausted && final(self).last_issued()
                    == old(self).last_issued(),
            },
    {
        proof {
            use_type_invariant(&*self);
        }
        if self.last_id == i32::MAX {
            return Err(RepositoryError::IdsExhausted);
        }
        let id: i32 = self.last_id + 1;
        let todo = Todo::new(id, payload.text);
        let mut store = self.take_store();
        store.insert(id, todo.copied());
        self.last_id = id;
        self.store = store;
        Ok(todo)
    }

    fn find(&self, id: i32) -> (r: Result<Todo, RepositoryError>) {
        proof {
            use_type_invariant(self);
        }
        match self.store.get(&id) {
            Some(todo) => Ok(todo.copied()),
            None => Err(RepositoryError::NotFound(id)),
        }
    }

    fn all(&self) -> (r: Vec<Todo>) {
        proof {
            use_type_invariant(self);
        }
        let mut out: Vec<Todo> = Vec::new();
        let ghost v = self.store.iter().remaining();
        for entry in it: self.store.iter()
            invariant
                it.seq() == v,
                out@.len() == it.index(),
                forall|i: int| 0 <= i < it.index() ==> out@[i] == *it.seq()[i].1,
        {
            let (_, todo) = entry;
            out.push(todo.copied());
        }
        proof {
            let m = self.store@;
            assert forall|i: int| 0 <= i < out@.len() implies #[trigger] m.contains_key(
                out@[i].id,
            ) && m[out@[i].id] == out@[i] by {
                assert(m.contains_key(*v[i].0));
            }
            assert forall|i: int, j: int|
                0 <= i < out@.len() && 0 <= j < out@.len() && i != j implies #[trigger] out@[i].id
                != #[trigger] out@[j].id by {
                assert(m.contains_key(*v[i].0));
                assert(m.contains_key(*v[j].0));
                assert(v[i] != v[j]);
            }
            assert forall|k: i32| #[trigger] m.contains_key(k) implies exists|i: int|
                0 <= i < out@.len() && #[trigger] out@[i].id == k by {
                assert(v.contains((&k, &m[k])));
                let i = choose|i: int| 0 <= i < v.len() && v[i] == (&k, &m[k]);
                assert(out@[i].id == k);
            }
        }
        out
    }

    fn update(&mut self, id: i32, payload: UpdateTodo) -> (r: Result<Todo, RepositoryError>)
        ensures
            final(self).last_issued() == old(self).last_issued(),
    {
        proof {
            use_type_invariant(&*self);
        }
        let current = match self.store.get(&id) {
            Some(todo) => todo.copied(),
            None => return Err(RepositoryError::NotFound(id)),
        };
        let text = match payload.text {
            Some(t) => t,
            None => current.text,
        };
        let completed = match payload.completed {
            Some(c) => c,
            None => current.completed,
        };
        let todo = Todo { id, text, completed };
        let mut store = self.take_store();
        store.insert(id, todo.copied());
        self.store = store;
        Ok(todo)
    }

    fn delete(&mut self, id: i32) -> (r: Result<(), RepositoryError>)
        ensures
            final(self).last_issued() == old(self).last_issued(),
    {
        proof {
            use_type_invariant(&*self);
        }
        let mut store = self.take_store();
        let removed = store.remove(&id);
        self.store = store;
        match removed {
            Some(_) => Ok(()),
            None => Err(RepositoryError::NotFound(id)),
        }
    }
}

} // verus!
