use std::sync::Arc;
use vstd::prelude::*;
use vstd::rwlock::{RwLock, RwLockPredicate};

use crate::repositories::{TodoRepository, TodoRepositoryForMemory};
use crate::todo::{CreateTodo, RepositoryError, Todo, UpdateTodo};

verus! {

/// What the lock guarantees of the store it guards: it is well formed.
pub struct WellFormedStore;

impl RwLockPredicate<TodoRepositoryForMemory> for WellFormedStore {
    open spec fn inv(self, v: TodoRepositoryForMemory) -> bool {
        v.wf()
    }
}

/// A handle to an in-memory store that any number of owners share: cloning the
/// handle shares the store. Writers take the lock alone, readers together, so each
/// operation is seen whole. Other owners may change the store between two calls,
/// so each contract states what holds whatever they did.
pub struct SharedTodoRepository {
    store: Arc<RwLock<TodoRepositoryForMemory, WellFormedStore>>,
}

impl SharedTodoRepository {
    /// Both handles reach one and the same store.
    pub closed spec fn same_store(&self, other: &SharedTodoRepository) -> bool {
        self.store == other.store
    }
}

impl Clone for SharedTodoRepository {
    /// A second handle to the same store: nothing is copied.
    fn clone(&self) -> (r: SharedTodoRepository)
        ensures
            r.same_store(self),
    {
        SharedTodoRepository { store: Arc::clone(&self.store) }
    }
}

impl SharedTodoRepository {
    /// A handle to a new, empty store.
    pub fn new() -> (r: SharedTodoRepository) {
        let lock = RwLock::new(TodoRepositoryForMemory::new(), Ghost(WellFormedStore));
        SharedTodoRepository { store: Arc::new(lock) }
    }

    /// Stores a new, not completed item with the payload's text, as the in-memory
    /// store's `try_create` does, and returns it; `None`, storing nothing, when the
    /// store already holds as many items as an `i32` id can count.
    pub fn create(&self, payload: CreateTodo) -> (r: Option<Todo>)
        ensures
            r matches Some(t) ==> t@.text == payload.text@ && !t@.completed && t.id >= 1,
    {
        let (mut store, handle) = self.store.acquire_write();
        let r = store.try_create(payload);
        handle.release_write(store);
        r
    }

    /// The item stored under `id`, if any.
    pub fn find(&self, id: i32) -> (r: Option<Todo>)
        ensures
            r matches Some(t) ==> t.id == id,
    {
        let handle = self.store.acquire_read();
        let store = handle.borrow();
        let r = store.find(id);
        proof {
            store.lemma_ids_match();
        }
        handle.release_read();
        r
    }

    /// Every stored item, once each, in no particular order.
    pub fn all(&self) -> (r: Vec<Todo>)
        ensures
            forall|i: int, j: int| 0 <= i < j < r.len() ==> r[i].id != r[j].id,
    {
        let handle = self.store.acquire_read();
        let r = handle.borrow().all();
        proof {
            assert forall|i: int, j: int| 0 <= i < j < r.len() implies r[i].id != r[j].id by {
                assert(r@[i]@ == crate::repositories::views_of(r@)[i]);
                assert(r@[j]@ == crate::repositories::views_of(r@)[j]);
            }
        }
        handle.release_read();
        r
    }

    /// Applies the partial update to the item stored under `id` and returns the
    /// result; fails with `NotFound(id)` when there is no such item.
    pub fn update(&self, id: i32, payload: UpdateTodo) -> (r: Result<Todo, RepositoryError>)
        ensures
            match r {
                Ok(t) => {
                    &&& t.id == id
                    &&& payload.text matches Some(s) ==> t@.text == s@
                    &&& payload.completed matches Some(c) ==> t.completed == c
                },
                Err(e) => e == RepositoryError::NotFound(id),
            },
    {
        let (mut store, handle) = self.store.acquire_write();
        proof {
            store.lemma_ids_match();
        }
        let r = store.update(id, payload);
        handle.release_write(store);
        r
    }

    /// Removes the item stored under `id`; fails with `NotFound(id)` when there is
    /// no such item.
    pub fn delete(&self, id: i32) -> (r: Result<(), RepositoryError>)
        ensures
            r matches Err(e) ==> e == RepositoryError::NotFound(id),
    {
        let (mut store, handle) = self.store.acquire_write();
        let r = store.delete(id);
        handle.release_write(store);
        r
    }
}

} // verus!
