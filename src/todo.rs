use vstd::prelude::*;

verus! {

/// A stored todo item.
#[derive(Debug, Clone, PartialEq, Eq)]
pub struct Todo {
    pub id: i32,
    pub text: String,
    pub completed: bool,
}

/// Payload of a creation: only the text is chosen by the caller.
#[derive(Debug, Clone, PartialEq, Eq)]
pub struct CreateTodo {
    pub text: String,
}

/// Payload of a partial update: a present field overwrites, an absent one is kept.
#[derive(Debug, Clone, PartialEq, Eq)]
pub struct UpdateTodo {
    pub text: Option<String>,
    pub completed: Option<bool>,
}

/// The mathematical value of a `Todo`.
pub struct TodoView {
    pub id: i32,
    pub text: Seq<char>,
    pub completed: bool,
}

impl View for Todo {
    type V = TodoView;

    open spec fn view(&self) -> TodoView {
        TodoView { id: self.id, text: self.text@, completed: self.completed }
    }
}

/// The only failure of the repository: no item has the requested id.
#[derive(Debug, Clone, Copy, PartialEq, Eq, Structural)]
pub enum RepositoryError {
    NotFound(i32),
}

impl Todo {
    /// A fresh item: the given id and text, not completed.
    pub fn new(id: i32, text: String) -> (r: Todo)
        ensures
            r@ == (TodoView { id, text: text@, completed: false }),
    {
        Todo { id, text, completed: false }
    }

    /// A copy of this item with the same value.
    pub fn duplicate(&self) -> (r: Todo)
        ensures
            r@ == self@,
    {
        Todo { id: self.id, text: self.text.clone(), completed: self.completed }
    }
}

/// The text an update leaves: the new one if given, else the current one.
pub open spec fn patched_text(current: Seq<char>, p: UpdateTodo) -> Seq<char> {
    match p.text {
        Some(t) => t@,
        None => current,
    }
}

/// The completion flag an update leaves: the new one if given, else the current one.
pub open spec fn patched_completed(current: bool, p: UpdateTodo) -> bool {
    match p.completed {
        Some(c) => c,
        None => current,
    }
}

/// The item that results from applying the partial update `p` to `current`.
pub open spec fn patched(current: TodoView, p: UpdateTodo) -> TodoView {
    TodoView {
        id: current.id,
        text: patched_text(current.text, p),
        completed: patched_completed(current.completed, p),
    }
}

} // verus!
