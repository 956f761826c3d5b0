use std::collections::HashMap;
use vstd::prelude::*;
use vstd::std_specs::hash::spec_keys_iter;
use vstd::std_specs::iter::IteratorSpec;

use crate::todo::{patched, CreateTodo, RepositoryError, Todo, TodoView, UpdateTodo};

verus! {

broadcast use vstd::std_specs::hash::group_hash_axioms;

/// Every item is stored under its own id.
pub open spec fn ids_match(m: Map<i32, TodoView>) -> bool {
    forall|k: i32| #[trigger] m.contains_key(k) ==> m[k].id == k
}

/// `s` holds each stored item exactly once, in some order.
pub open spec fn lists_exactly(s: Seq<TodoView>, m: Map<i32, TodoView>) -> bool {
    &&& s.len() == m.len()
    &&& forall|i: int| 0 <= i < s.len() ==> #[trigger] m.contains_key(s[i].id) && m[s[i].id] == s[i]
    &&& forall|k: i32| #[trigger] m.contains_key(k) ==> exists|i: int| 0 <= i < s.len() && s[i].id == k
    &&& forall|i: int, j: int| 0 <= i < j < s.len() ==> s[i].id != s[j].id
}

/// The values of a sequence of items.
pub open spec fn views_of(s: Seq<Todo>) -> Seq<TodoView> {
    s.map_values(|t: Todo| t@)
}

/// The id that the in-memory store gives the next item: one more than the number of items.
pub open spec fn next_id(m: Map<i32, TodoView>) -> i32 {
    (m.len() + 1) as i32
}

/// The item that the in-memory store creates from `text` when it holds `m`.
pub open spec fn created(m: Map<i32, TodoView>, text: Seq<char>) -> TodoView {
    TodoView { id: next_id(m), text, completed: false }
}

/// The operations of a todo store, whatever keeps the data.
pub trait TodoRepository {
    /// The stored items, by id.
    spec fn model(&self) -> Map<i32, TodoView>;

    /// The store's internal invariant.
    spec fn wf(&self) -> bool;

    /// Stores a new, not completed item with the payload's text under an id that the store
    /// chooses, and returns it; an item already stored under that id is replaced.
    fn create(&mut self, payload: CreateTodo) -> (r: Todo)
        requires
            old(self).wf(),
            old(self).model().len() < i32::MAX,
        ensures
            final(self).wf(),
            r@.text == payload.text@,
            !r@.completed,
            final(self).model() == old(self).model().insert(r.id, r@),
    ;

    /// The item stored under `id`, if any.
    fn find(&self, id: i32) -> (r: Option<Todo>)
        requires
            self.wf(),
        ensures
            match r {
                Some(t) => self.model().contains_key(id) && t@ == self.model()[id],
                None => !self.model().contains_key(id),
            },
    ;

    /// Every stored item, once each, in no particular order.
    fn all(&self) -> (r: Vec<Todo>)
        requires
            self.wf(),
        ensures
            lists_exactly(views_of(r@), self.model()),
    ;

    /// Applies the partial update to the item stored under `id` and returns the result;
    /// fails with `NotFound(id)`, changing nothing, when there is no such item.
    fn update(&mut self, id: i32, payload: UpdateTodo) -> (r: Result<Todo, RepositoryError>)
        requires
            old(self).wf(),
        ensures
            final(self).wf(),
            match r {
                Ok(t) => {
                    &&& old(self).model().contains_key(id)
                    &&& t@ == patched(old(self).model()[id], payload)
                    &&& final(self).model() == old(self).model().insert(id, t@)
                },
                Err(e) => {
                    &&& e == RepositoryError::NotFound(id)
                    &&& !old(self).model().contains_key(id)
                    &&& final(self).model() == old(self).model()
                },
            },
    ;

    /// Removes the item stored under `id`; fails with `NotFound(id)`, changing nothing,
    /// when there is no such item.
    fn delete(&mut self, id: i32) -> (r: Result<(), RepositoryError>)
        requires
            old(self).wf(),
        ensures
            final(self).wf(),
            match r {
                Ok(()) => {
                    &&& old(self).model().contains_key(id)
                    &&& final(self).model() == old(self).model().remove(id)
                },
                Err(e) => {
                    &&& e == RepositoryError::NotFound(id)
                    &&& !old(self).model().contains_key(id)
                    &&& final(self).model() == old(self).model()
                },
            },
    ;
}

/// A todo store held in memory, in a map from id to item.
pub struct TodoRepositoryForMemory {
    store: HashMap<i32, Todo>,
}

impl View for TodoRepositoryForMemory {
    type V = Map<i32, TodoView>;

    closed spec fn view(&self) -> Map<i32, TodoView> {
        self.store@.map_values(|t: Todo| t@)
    }
}

impl TodoRepositoryForMemory {
    /// An empty store.
    pub fn new() -> (r: TodoRepositoryForMemory)
        ensures
            r.wf(),
            r@ == Map::<i32, TodoView>::empty(),
    {
        let r = TodoRepositoryForMemory { store: HashMap::new() };
        assert(r@ =~= Map::<i32, TodoView>::empty());
        r
    }

    /// A well-formed store holds finitely many items, each under its own id.
    pub proof fn lemma_ids_match(&self)
        requires
            self.wf(),
        ensures
            self@.dom().finite(),
            ids_match(self@),
    {
        assert(self@.dom() =~= self.store@.dom());
    }

    /// Creates as `create` does when an `i32` id can still count the items;
    /// otherwise stores nothing and returns `None`.
    pub fn try_create(&mut self, payload: CreateTodo) -> (r: Option<Todo>)
        requires
            old(self).wf(),
        ensures
            final(self).wf(),
            old(self)@.len() >= i32::MAX ==> r is None && final(self)@ == old(self)@,
            old(self)@.len() < i32::MAX ==> (r matches Some(t) && t@ == created(
                old(self)@,
                payload.text@,
            ) && final(self)@ == old(self)@.insert(t.id, t@)),
    {
        if self.len() >= i32::MAX as usize {
            None
        } else {
            Some(self.create(payload))
        }
    }

    /// The number of stored items.
    pub fn len(&self) -> (r: usize)
        ensures
            r == self@.len(),
    {
        proof {
            assert(self@.dom() =~= self.store@.dom());
        }
        self.store.len()
    }
}

impl TodoRepository for TodoRepositoryForMemory {
    open spec fn model(&self) -> Map<i32, TodoView> {
        self@
    }

    closed spec fn wf(&self) -> bool {
        &&& self.store@.dom().finite()
        &&& ids_match(self@)
    }

    /// The id is one more than the number of stored items. After a deletion that id
    /// can belong to a surviving item, which the new one then replaces.
    fn create(&mut self, payload: CreateTodo) -> (r: Todo)
        ensures
            r@ == created(old(self)@, payload.text@),
    {
        proof {
            assert(self@.dom() =~= self.store@.dom());
        }
        let id = (self.store.len() + 1) as i32;
        let todo = Todo::new(id, payload.text);
        self.store.insert(id, todo.duplicate());
        proof {
            assert(self@ =~= old(self)@.insert(id, todo@));
        }
        todo
    }

    fn find(&self, id: i32) -> (r: Option<Todo>) {
        match self.store.get(&id) {
            Some(t) => Some(t.duplicate()),
            None => None,
        }
    }

    fn all(&self) -> (r: Vec<Todo>) {
        let mut out: Vec<Todo> = Vec::new();
        for k in it: self.store.keys()
            invariant
                self.wf(),
                it.seq() == spec_keys_iter(&self.store).remaining(),
                out.len() == it.index(),
                it.seq().unref().to_set() == self.store@.dom(),
                it.seq().no_duplicates(),
                it.seq().len() == self.store@.dom().len(),
                forall|j: int|
                    0 <= j < out.len() ==> #[trigger] out@[j]@ == self@[*it.seq()[j]],
                forall|j: int| 0 <= j < out.len() ==> #[trigger] out@[j]@.id == *it.seq()[j],
        {
            proof {
                assert(it.seq().unref().to_set().contains(*it.seq()[it.index()]));
            }
            let t = self.store.get(k).unwrap();
            proof {
                assert(self@.contains_key(*k));
            }
            out.push(t.duplicate());
        }
        proof {
            let s = views_of(out@);
            let keys = spec_keys_iter(&self.store).remaining().unref();
            assert(self@.dom() =~= self.store@.dom());
            assert(s.len() == self@.len());
            assert forall|i: int| 0 <= i < s.len() implies #[trigger] self@.contains_key(s[i].id)
                && self@[s[i].id] == s[i] by {
                assert(keys.to_set().contains(keys[i]));
            }
            assert forall|k: i32| #[trigger] self@.contains_key(k) implies exists|i: int|
                0 <= i < s.len() && s[i].id == k by {
                assert(keys.to_set().contains(k));
                let i = keys.index_of(k);
                assert(s[i].id == k);
            }
            assert forall|i: int, j: int| 0 <= i < j < s.len() implies s[i].id != s[j].id by {
                assert(keys[i] != keys[j]);
            }
        }
        out
    }

    fn update(&mut self, id: i32, payload: UpdateTodo) -> (r: Result<Todo, RepositoryError>) {
        match self.store.get(&id) {
            None => Err(RepositoryError::NotFound(id)),
            Some(current) => {
                let text = match payload.text {
                    Some(t) => t,
                    None => current.text.clone(),
                };
                let completed = match payload.completed {
                    Some(c) => c,
                    None => current.completed,
                };
                let todo = Todo { id, text, completed };
                self.store.insert(id, todo.duplicate());
                proof {
                    assert(self@ =~= old(self)@.insert(id, todo@));
                }
                Ok(todo)
            },
        }
    }

    fn delete(&mut self, id: i32) -> (r: Result<(), RepositoryError>) {
        match self.store.remove(&id) {
            Some(_) => {
                proof {
                    assert(self@ =~= old(self)@.remove(id));
                }
                Ok(())
            },
            None => {
                proof {
                    assert(self@ =~= old(self)@);
                }
                Err(RepositoryError::NotFound(id))
            },
        }
    }
}

} // verus!
