pub mod laws;
pub mod repositories;
pub mod shared;
pub mod todo;

pub use repositories::{TodoRepository, TodoRepositoryForMemory};
pub use shared::SharedTodoRepository;
pub use todo::{CreateTodo, RepositoryError, Todo, TodoView, UpdateTodo};
