use todo_api::repositories::{
    CreateTodo, RepositoryError, Todo, TodoRepository, TodoRepositoryForMemory, UpdateTodo,
};

#[test]
fn todo_crud_scenario() {
    let text = "todo text".to_string();
    let id = 1;
    let expected = Todo::new(id, text.clone());

    // create
    let mut repository = TodoRepositoryForMemory::new();
    let todo = repository
        .create(CreateTodo { text })
        .expect("failed create todo");
    assert_eq!(expected, todo);

    // find
    let todo = repository.find(id).unwrap();
    assert_eq!(expected, todo);

    // all
    let todos = repository.all();
    assert_eq!(vec![expected], todos);

    // update
    let text = "update todo text".to_string();
    let todo = repository
        .update(
            id,
            UpdateTodo {
                text: Some(text.clone()),
                completed: Some(true),
            },
        )
        .expect("failed update todo");
    assert_eq!(
        Todo {
            id,
            text,
            completed: true
        },
        todo
    );

    // delete
    let res = repository.delete(id);
    assert!(res.is_ok());
}

#[test]
fn find_of_missing_id_is_not_found() {
    let repository = TodoRepositoryForMemory::default();
    assert_eq!(repository.find(999), Err(RepositoryError::NotFound(999)));
}

#[test]
fn update_and_delete_of_missing_id_are_not_found() {
    let mut repository = TodoRepositoryForMemory::new();
    let payload = UpdateTodo {
        text: None,
        completed: Some(true),
    };
    assert_eq!(repository.update(7, payload), Err(RepositoryError::NotFound(7)));
    assert_eq!(repository.delete(7), Err(RepositoryError::NotFound(7)));
    assert!(repository.all().is_empty());
}

#[test]
fn ids_are_not_reused_after_delete() {
    let mut repository = TodoRepositoryForMemory::new();
    let first = repository.create(CreateTodo::new("a".to_string())).unwrap();
    let second = repository.create(CreateTodo::new("b".to_string())).unwrap();
    assert_eq!((first.id, second.id), (1, 2));
    repository.delete(1).unwrap();
    let third = repository.create(CreateTodo::new("c".to_string())).unwrap();
    assert_eq!(third.id, 3);
    assert_eq!(repository.find(2).unwrap(), Todo::new(2, "b".to_string()));
    let mut ids: Vec<i32> = repository.all().iter().map(|t| t.id).collect();
    ids.sort();
    assert_eq!(ids, vec![2, 3]);
}

#[test]
fn update_with_no_fields_keeps_the_todo() {
    let mut repository = TodoRepositoryForMemory::new();
    repository.create(CreateTodo::new("keep".to_string())).unwrap();
    let todo = repository
        .update(
            1,
            UpdateTodo {
                text: None,
                completed: None,
            },
        )
        .unwrap();
    assert_eq!(todo, Todo::new(1, "keep".to_string()));
}

#[test]
fn copied_todo_equals_the_original() {
    let todo = Todo {
        id: 4,
        text: "x".to_string(),
        completed: true,
    };
    assert_eq!(todo.copied(), todo);
}
