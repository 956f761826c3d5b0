use todo_repository::{
    CreateTodo, RepositoryError, SharedTodoRepository, Todo, TodoRepository,
    TodoRepositoryForMemory, UpdateTodo,
};

fn create_text(repo: &mut TodoRepositoryForMemory, text: &str) -> Todo {
    repo.create(CreateTodo {
        text: text.to_string(),
    })
}

fn sorted(mut todos: Vec<Todo>) -> Vec<Todo> {
    todos.sort_by_key(|t| t.id);
    todos
}

#[test]
fn todo_crud_scenario() {
    let text = "todo  text";
    let id = 1;
    let expected = Todo::new(id, text.to_string());

    let mut reopsitory = TodoRepositoryForMemory::new();
    let todo = reopsitory.create(CreateTodo {
        text: text.to_string(),
    });
    assert_eq!(expected, todo);

    let todo = reopsitory.find(id).unwrap();
    assert_eq!(expected, todo);

    let todos = reopsitory.all();
    assert_eq!(vec![expected], todos);

    let text = "update todo text";
    let todo = reopsitory
        .update(
            id,
            UpdateTodo {
                text: Some(text.to_string()),
                completed: Some(true),
            },
        )
        .unwrap();
    assert_eq!(
        Todo {
            id,
            text: text.to_string(),
            completed: true
        },
        todo
    );

    let res = reopsitory.delete(id);
    assert!(res.is_ok());
}

#[test]
fn new_todo_is_not_completed() {
    let t = Todo::new(7, "seven".to_string());
    assert_eq!(t.id, 7);
    assert_eq!(t.text, "seven");
    assert!(!t.completed);
}

#[test]
fn new_store_is_empty() {
    let repo = TodoRepositoryForMemory::new();
    assert!(repo.all().is_empty());
    assert_eq!(repo.find(1), None);
}

#[test]
fn create_then_find_gives_same_item() {
    let mut repo = TodoRepositoryForMemory::new();
    for text in ["a", "", "third item"] {
        let t = create_text(&mut repo, text);
        assert_eq!(t.text, text);
        assert!(!t.completed);
        assert_eq!(repo.find(t.id), Some(t));
    }
}

#[test]
fn all_after_creates_lists_each_once() {
    let mut repo = TodoRepositoryForMemory::new();
    let texts = ["one", "two", "three", "four"];
    let mut made = Vec::new();
    for text in texts {
        made.push(create_text(&mut repo, text));
    }
    let all = sorted(repo.all());
    assert_eq!(all.len(), 4);
    assert_eq!(all, made);
    for (i, t) in all.iter().enumerate() {
        assert_eq!(t.id, i as i32 + 1);
        assert_eq!(t.text, texts[i]);
        assert!(!t.completed);
    }
}

#[test]
fn update_text_only_keeps_completed() {
    let mut repo = TodoRepositoryForMemory::new();
    let t = create_text(&mut repo, "before");
    repo.update(
        t.id,
        UpdateTodo {
            text: None,
            completed: Some(true),
        },
    )
    .unwrap();
    let u = repo
        .update(
            t.id,
            UpdateTodo {
                text: Some("after".to_string()),
                completed: None,
            },
        )
        .unwrap();
    assert_eq!(
        u,
        Todo {
            id: t.id,
            text: "after".to_string(),
            completed: true
        }
    );
    assert_eq!(repo.find(t.id), Some(u));
}

#[test]
fn update_completed_only_keeps_text() {
    let mut repo = TodoRepositoryForMemory::new();
    let t = create_text(&mut repo, "keep me");
    let u = repo
        .update(
            t.id,
            UpdateTodo {
                text: None,
                completed: Some(true),
            },
        )
        .unwrap();
    assert_eq!(
        u,
        Todo {
            id: t.id,
            text: "keep me".to_string(),
            completed: true
        }
    );
    let v = repo
        .update(
            t.id,
            UpdateTodo {
                text: None,
                completed: Some(false),
            },
        )
        .unwrap();
    assert_eq!(v.text, "keep me");
    assert!(!v.completed);
}

#[test]
fn update_with_nothing_keeps_item() {
    let mut repo = TodoRepositoryForMemory::new();
    let t = create_text(&mut repo, "same");
    let u = repo
        .update(
            t.id,
            UpdateTodo {
                text: None,
                completed: None,
            },
        )
        .unwrap();
    assert_eq!(u, t);
}

#[test]
fn update_missing_id_is_not_found() {
    let mut repo = TodoRepositoryForMemory::new();
    let t = create_text(&mut repo, "only");
    let res = repo.update(
        42,
        UpdateTodo {
            text: Some("x".to_string()),
            completed: Some(true),
        },
    );
    assert_eq!(res, Err(RepositoryError::NotFound(42)));
    assert_eq!(repo.all(), vec![t.clone()]);
    assert_eq!(repo.find(42), None);
}

#[test]
fn delete_missing_id_is_not_found() {
    let mut repo = TodoRepositoryForMemory::new();
    let t = create_text(&mut repo, "only");
    assert_eq!(repo.delete(-3), Err(RepositoryError::NotFound(-3)));
    assert_eq!(repo.all(), vec![t]);
}

#[test]
fn delete_then_find_and_delete_again() {
    let mut repo = TodoRepositoryForMemory::new();
    let t = create_text(&mut repo, "gone");
    assert_eq!(repo.delete(t.id), Ok(()));
    assert_eq!(repo.find(t.id), None);
    assert_eq!(repo.delete(t.id), Err(RepositoryError::NotFound(t.id)));
    assert!(repo.all().is_empty());
}

#[test]
fn crud_scenario_with_single_space_text() {
    let mut repo = TodoRepositoryForMemory::new();
    let expected = Todo {
        id: 1,
        text: "todo text".to_string(),
        completed: false,
    };
    assert_eq!(create_text(&mut repo, "todo text"), expected);
    assert_eq!(repo.find(1), Some(expected.clone()));
    assert_eq!(repo.all(), vec![expected]);
    let u = repo
        .update(
            1,
            UpdateTodo {
                text: Some("update todo text".to_string()),
                completed: Some(true),
            },
        )
        .unwrap();
    assert_eq!(
        u,
        Todo {
            id: 1,
            text: "update todo text".to_string(),
            completed: true
        }
    );
    assert_eq!(repo.delete(1), Ok(()));
    assert_eq!(repo.find(1), None);
}

#[test]
fn id_after_delete_is_count_plus_one() {
    // Ids are one more than the number of stored items, so after deleting id 2 of
    // three items the next creation takes id 3 and replaces the item stored there.
    let mut repo = TodoRepositoryForMemory::new();
    let ids: Vec<i32> = ["a", "b", "c"]
        .iter()
        .map(|t| create_text(&mut repo, t).id)
        .collect();
    assert_eq!(ids, vec![1, 2, 3]);
    assert_eq!(repo.delete(2), Ok(()));
    let d = create_text(&mut repo, "d");
    assert_eq!(d.id, 3);
    assert_eq!(repo.find(3), Some(d.clone()));
    let all = sorted(repo.all());
    assert_eq!(all.len(), 2);
    assert_eq!(all[0].text, "a");
    assert_eq!(all[1], d);
}

#[test]
fn duplicate_copies_every_field() {
    let t = Todo {
        id: 5,
        text: "copy".to_string(),
        completed: true,
    };
    assert_eq!(t.duplicate(), t);
}

#[test]
fn len_counts_stored_items() {
    let mut repo = TodoRepositoryForMemory::new();
    assert_eq!(repo.len(), 0);
    create_text(&mut repo, "x");
    create_text(&mut repo, "y");
    assert_eq!(repo.len(), 2);
    repo.delete(1).unwrap();
    assert_eq!(repo.len(), 1);
}

#[test]
fn shared_clones_see_one_store() {
    let a = SharedTodoRepository::new();
    let b = a.clone();
    let t = a
        .create(CreateTodo {
            text: "shared".to_string(),
        })
        .unwrap();
    assert_eq!(t, Todo::new(1, "shared".to_string()));
    assert_eq!(b.find(1), Some(t.clone()));
    assert_eq!(b.all(), vec![t]);
    let u = b
        .update(
            1,
            UpdateTodo {
                text: None,
                completed: Some(true),
            },
        )
        .unwrap();
    assert!(u.completed);
    assert_eq!(u.text, "shared");
    assert_eq!(a.find(1), Some(u));
    assert_eq!(a.delete(1), Ok(()));
    assert_eq!(b.find(1), None);
    assert_eq!(b.delete(1), Err(RepositoryError::NotFound(1)));
    assert_eq!(
        b.update(
            1,
            UpdateTodo {
                text: Some("x".to_string()),
                completed: None
            }
        ),
        Err(RepositoryError::NotFound(1))
    );
}

#[test]
fn shared_creates_number_from_one() {
    let repo = SharedTodoRepository::new();
    let ids: Vec<i32> = ["p", "q", "r"]
        .iter()
        .map(|t| {
            repo.create(CreateTodo {
                text: t.to_string(),
            })
            .unwrap()
            .id
        })
        .collect();
    assert_eq!(ids, vec![1, 2, 3]);
    let mut all = repo.all();
    all.sort_by_key(|t| t.id);
    assert_eq!(all.len(), 3);
    assert_eq!(all[2].text, "r");
}

fn is_send_and_sync<T: Send + Sync + 'static>() -> bool {
    true
}

#[test]
fn shared_handle_can_cross_threads() {
    assert!(is_send_and_sync::<SharedTodoRepository>());
}

#[test]
fn try_create_below_the_id_limit_creates() {
    let mut repo = TodoRepositoryForMemory::new();
    let t = repo
        .try_create(CreateTodo {
            text: "first".to_string(),
        })
        .unwrap();
    assert_eq!(t, Todo::new(1, "first".to_string()));
    let u = repo
        .try_create(CreateTodo {
            text: "second".to_string(),
        })
        .unwrap();
    assert_eq!(u.id, 2);
    assert_eq!(repo.find(1), Some(t));
    assert_eq!(repo.len(), 2);
}
