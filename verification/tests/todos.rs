use flexnotes::error::ApiError;
use flexnotes::models::oid::ObjectId;
use flexnotes::models::todo::{Todo, TodoList, TodoPriority};
use flexnotes::models::user::User;
use flexnotes::repository::memory_todo_lists::MemoryTodoLists;
use flexnotes::repository::todo_collection::{TodoCollection, TodoFilter};
use flexnotes::repository::todo_store::MongoTodoRepo;
use flexnotes::repository::StoreError;
use flexnotes::routes::todos::{
    create_todo as create_todo_route, create_todo_list as create_list_route,
    delete_todo as delete_todo_route, delete_todo_list as delete_list_route,
    get_all_todo_lists, get_all_todos_by_id, modify_todo as modify_todo_route,
    rename_todo_list as rename_route, TodoListPayload, TodoListVecPayload, TodoPayload,
};
use flexnotes::services::todo_service::{
    create_todo, create_todo_list, delete_todo, delete_todo_list, get_all_todo_list,
    get_todo_lists, modify_todo, rename_todo_list,
};

fn id(byte: u8) -> ObjectId {
    ObjectId::from_bytes([byte; 12])
}

fn alice() -> ObjectId {
    id(0xa1)
}

fn bob() -> ObjectId {
    id(0xb0)
}

fn todo(todo_id: u8, title: &str) -> Todo {
    Todo { id: id(todo_id), title: title.to_string(), status: false, priority: TodoPriority::Normal }
}

fn list(list_id: u8, owner: ObjectId, title: &str, todos: Vec<Todo>) -> TodoList {
    TodoList { id: id(list_id), user_id: owner, todos, title: title.to_string() }
}

fn store_with(lists: Vec<TodoList>) -> MongoTodoRepo<MemoryTodoLists> {
    let mut collection = MemoryTodoLists::new();
    for l in &lists {
        collection.insert_one(l).unwrap();
    }
    MongoTodoRepo::new(collection)
}

fn only_list(repo: &MongoTodoRepo<MemoryTodoLists>, owner: ObjectId) -> TodoList {
    let mut all = get_all_todo_list(repo, owner).unwrap();
    assert_eq!(all.len(), 1);
    all.remove(0)
}

fn account(user_id: ObjectId) -> User {
    User {
        id: user_id,
        username: "someone".to_string(),
        email: "someone@x.com".to_string(),
        password: String::new(),
    }
}

#[test]
fn created_list_is_the_owners_and_empty() {
    let mut repo = store_with(vec![]);
    let created = create_todo_list(&mut repo, alice(), "Home".to_string()).unwrap();
    assert_eq!(created.user_id, alice());
    assert_eq!(created.title, "Home");
    assert_eq!(created.todos, vec![]);
    assert_eq!(only_list(&repo, alice()), created);
}

#[test]
fn list_under_a_given_identifier() {
    let mut repo = store_with(vec![]);
    let created = repo.create_todo_list_under(id(5), "Home".to_string(), alice());
    assert_eq!(created, Ok(list(5, alice(), "Home", vec![])));
    assert_eq!(only_list(&repo, alice()), list(5, alice(), "Home", vec![]));
}

#[test]
fn list_under_an_identifier_in_use() {
    let mut repo = store_with(vec![list(5, alice(), "Home", vec![])]);
    let again = repo.create_todo_list_under(id(5), "Work".to_string(), bob());
    assert_eq!(again, Err(ApiError::InternalError));
    assert_eq!(only_list(&repo, alice()), list(5, alice(), "Home", vec![]));
    assert_eq!(get_all_todo_list(&repo, bob()), Err(ApiError::NotFound));
}

#[test]
fn todo_under_a_given_identifier() {
    let mut repo = store_with(vec![
        list(1, alice(), "one", vec![todo(9, "x")]),
        list(2, alice(), "two", vec![]),
    ]);
    let created = repo.create_todo_under(
        id(7),
        id(1),
        alice(),
        "water".to_string(),
        true,
        TodoPriority::High,
    );
    assert_eq!(created, Ok(()));
    let added = Todo {
        id: id(7),
        title: "water".to_string(),
        status: true,
        priority: TodoPriority::High,
    };
    assert_eq!(
        get_all_todo_list(&repo, alice()),
        Ok(vec![
            list(1, alice(), "one", vec![todo(9, "x"), added]),
            list(2, alice(), "two", vec![]),
        ])
    );
    let foreign =
        repo.create_todo_under(id(8), id(1), bob(), "t".to_string(), false, TodoPriority::Low);
    assert_eq!(foreign, Err(ApiError::NotFound));
}

#[test]
fn todo_under_an_identifier_that_the_list_holds() {
    let mut repo = store_with(vec![
        list(1, alice(), "one", vec![todo(9, "x")]),
        list(2, alice(), "two", vec![]),
    ]);
    let again =
        repo.create_todo_under(id(9), id(1), alice(), "y".to_string(), true, TodoPriority::Low);
    assert_eq!(again, Err(ApiError::InternalError));
    let absent =
        repo.create_todo_under(id(9), id(3), alice(), "y".to_string(), true, TodoPriority::Low);
    assert_eq!(absent, Err(ApiError::NotFound));
    assert_eq!(
        get_all_todo_list(&repo, alice()),
        Ok(vec![list(1, alice(), "one", vec![todo(9, "x")]), list(2, alice(), "two", vec![])])
    );
    // The identifier is only taken within its list.
    let elsewhere =
        repo.create_todo_under(id(9), id(2), alice(), "y".to_string(), false, TodoPriority::Normal);
    assert_eq!(elsewhere, Ok(()));
    assert_eq!(get_all_todo_list(&repo, alice()).unwrap()[1].todos, vec![todo(9, "y")]);
}

#[test]
fn all_lists_of_an_owner() {
    let repo = store_with(vec![
        list(1, alice(), "one", vec![]),
        list(2, bob(), "two", vec![]),
        list(3, alice(), "three", vec![todo(9, "x")]),
    ]);
    assert_eq!(
        get_all_todo_list(&repo, alice()),
        Ok(vec![list(1, alice(), "one", vec![]), list(3, alice(), "three", vec![todo(9, "x")])])
    );
}

#[test]
fn owner_without_lists_is_not_found() {
    let repo = store_with(vec![list(1, alice(), "one", vec![])]);
    assert_eq!(get_all_todo_list(&repo, bob()), Err(ApiError::NotFound));
    assert_eq!(get_all_todo_list(&store_with(vec![]), alice()), Err(ApiError::NotFound));
}

#[test]
fn several_lists_by_identifier() {
    let repo = store_with(vec![
        list(1, alice(), "one", vec![]),
        list(2, bob(), "two", vec![]),
        list(3, alice(), "three", vec![]),
    ]);
    let found = get_todo_lists(&repo, vec![id(3), id(2), id(9), id(1), id(3)], alice());
    assert_eq!(
        found,
        Ok(vec![
            list(3, alice(), "three", vec![]),
            list(1, alice(), "one", vec![]),
            list(3, alice(), "three", vec![]),
        ])
    );
    assert_eq!(get_todo_lists(&repo, vec![], alice()), Ok(vec![]));
    assert_eq!(get_todo_lists(&repo, vec![id(1), id(3)], bob()), Ok(vec![]));
}

#[test]
fn rename_changes_the_title_only() {
    let mut repo = store_with(vec![
        list(1, alice(), "one", vec![todo(9, "x")]),
        list(2, alice(), "two", vec![]),
    ]);
    assert_eq!(rename_todo_list(&mut repo, id(1), alice(), "uno".to_string()), Ok(()));
    assert_eq!(
        get_all_todo_list(&repo, alice()),
        Ok(vec![list(1, alice(), "uno", vec![todo(9, "x")]), list(2, alice(), "two", vec![])])
    );
}

#[test]
fn rename_to_the_same_title_succeeds() {
    let mut repo = store_with(vec![list(1, alice(), "one", vec![])]);
    assert_eq!(rename_todo_list(&mut repo, id(1), alice(), "one".to_string()), Ok(()));
    assert_eq!(only_list(&repo, alice()), list(1, alice(), "one", vec![]));
}

#[test]
fn list_is_absent_for_everyone_but_its_owner() {
    let mut repo = store_with(vec![list(1, alice(), "one", vec![todo(9, "x")])]);
    assert_eq!(rename_todo_list(&mut repo, id(1), bob(), "mine".to_string()), Err(ApiError::NotFound));
    assert_eq!(delete_todo_list(&mut repo, id(1), bob()), Err(ApiError::NotFound));
    assert_eq!(
        create_todo(&mut repo, id(1), bob(), "t".to_string(), true, TodoPriority::High),
        Err(ApiError::NotFound)
    );
    assert_eq!(
        modify_todo(&mut repo, id(1), bob(), id(9), "t".to_string(), true, TodoPriority::High),
        Err(ApiError::NotFound)
    );
    assert_eq!(delete_todo(&mut repo, id(1), bob(), id(9)), Err(ApiError::NotFound));
    assert_eq!(only_list(&repo, alice()), list(1, alice(), "one", vec![todo(9, "x")]));
}

#[test]
fn delete_removes_one_list() {
    let mut repo = store_with(vec![list(1, alice(), "one", vec![]), list(2, alice(), "two", vec![])]);
    assert_eq!(delete_todo_list(&mut repo, id(1), alice()), Ok(()));
    assert_eq!(delete_todo_list(&mut repo, id(1), alice()), Err(ApiError::NotFound));
    assert_eq!(only_list(&repo, alice()), list(2, alice(), "two", vec![]));
}

#[test]
fn created_todo_goes_to_the_end() {
    let mut repo = store_with(vec![list(1, alice(), "one", vec![todo(9, "x")])]);
    assert_eq!(
        create_todo(&mut repo, id(1), alice(), "water".to_string(), true, TodoPriority::Low),
        Ok(())
    );
    let todos = only_list(&repo, alice()).todos;
    assert_eq!(todos.len(), 2);
    assert_eq!(todos[0], todo(9, "x"));
    assert_eq!(todos[1].title, "water");
    assert!(todos[1].status);
    assert_eq!(todos[1].priority, TodoPriority::Low);
    assert_ne!(todos[1].id, todos[0].id);
}

#[test]
fn todo_in_an_unknown_list_is_not_found() {
    let mut repo = store_with(vec![list(1, alice(), "one", vec![])]);
    assert_eq!(
        create_todo(&mut repo, id(2), alice(), "t".to_string(), false, TodoPriority::Normal),
        Err(ApiError::NotFound)
    );
    assert_eq!(delete_todo(&mut repo, id(2), alice(), id(9)), Err(ApiError::NotFound));
}

#[test]
fn modify_replaces_the_todo_in_place() {
    let mut repo =
        store_with(vec![list(1, alice(), "one", vec![todo(7, "a"), todo(8, "b"), todo(9, "c")])]);
    assert_eq!(
        modify_todo(&mut repo, id(1), alice(), id(8), "B".to_string(), true, TodoPriority::High),
        Ok(())
    );
    let changed = Todo { id: id(8), title: "B".to_string(), status: true, priority: TodoPriority::High };
    assert_eq!(only_list(&repo, alice()).todos, vec![todo(7, "a"), changed, todo(9, "c")]);
}

#[test]
fn modify_touches_the_first_of_two_todos_with_one_identifier() {
    let mut repo =
        store_with(vec![list(1, alice(), "one", vec![todo(7, "a"), todo(8, "b"), todo(8, "c")])]);
    assert_eq!(
        modify_todo(&mut repo, id(1), alice(), id(8), "B".to_string(), false, TodoPriority::Low),
        Ok(())
    );
    let changed = Todo { id: id(8), title: "B".to_string(), status: false, priority: TodoPriority::Low };
    assert_eq!(only_list(&repo, alice()).todos, vec![todo(7, "a"), changed, todo(8, "c")]);
}

#[test]
fn modify_of_a_todo_that_the_list_does_not_hold() {
    let mut repo = store_with(vec![
        list(1, alice(), "one", vec![todo(7, "a")]),
        list(2, alice(), "two", vec![todo(8, "b")]),
    ]);
    assert_eq!(
        modify_todo(&mut repo, id(1), alice(), id(8), "B".to_string(), true, TodoPriority::High),
        Err(ApiError::NotFound)
    );
    assert_eq!(
        get_all_todo_list(&repo, alice()),
        Ok(vec![
            list(1, alice(), "one", vec![todo(7, "a")]),
            list(2, alice(), "two", vec![todo(8, "b")]),
        ])
    );
}

#[test]
fn delete_todo_takes_it_out() {
    let mut repo =
        store_with(vec![list(1, alice(), "one", vec![todo(7, "a"), todo(8, "b"), todo(9, "c")])]);
    assert_eq!(delete_todo(&mut repo, id(1), alice(), id(8)), Ok(()));
    assert_eq!(only_list(&repo, alice()).todos, vec![todo(7, "a"), todo(9, "c")]);
}

#[test]
fn delete_todo_takes_every_todo_of_that_identifier_out() {
    let mut repo =
        store_with(vec![list(1, alice(), "one", vec![todo(8, "a"), todo(7, "b"), todo(8, "c")])]);
    assert_eq!(delete_todo(&mut repo, id(1), alice(), id(8)), Ok(()));
    assert_eq!(only_list(&repo, alice()).todos, vec![todo(7, "b")]);
}

#[test]
fn delete_of_a_todo_that_the_list_does_not_hold_succeeds() {
    let mut repo = store_with(vec![list(1, alice(), "one", vec![todo(7, "a")])]);
    assert_eq!(delete_todo(&mut repo, id(1), alice(), id(8)), Ok(()));
    assert_eq!(only_list(&repo, alice()), list(1, alice(), "one", vec![todo(7, "a")]));
}

#[test]
fn list_handlers_act_for_the_caller() {
    let mut repo = store_with(vec![]);
    let caller = account(alice());
    let stranger = account(bob());
    let created =
        create_list_route(&mut repo, &caller, TodoListPayload { title: "Home".to_string() }).unwrap();
    assert_eq!(created.user_id, alice());
    assert_eq!(get_all_todo_lists(&repo, &stranger), Err(ApiError::NotFound));
    let payload = TodoPayload { title: "water".to_string(), status: false, priority: TodoPriority::High };
    assert_eq!(create_todo_route(&mut repo, &caller, created.id, payload), Ok(()));
    let payload = TodoPayload { title: "steal".to_string(), status: false, priority: TodoPriority::High };
    assert_eq!(create_todo_route(&mut repo, &stranger, created.id, payload), Err(ApiError::NotFound));
    let held = get_all_todo_lists(&repo, &caller).unwrap().remove(0);
    assert_eq!(held.todos.len(), 1);
    let todo_id = held.todos[0].id;
    let payload = TodoPayload { title: "water!".to_string(), status: true, priority: TodoPriority::Low };
    assert_eq!(modify_todo_route(&mut repo, &caller, created.id, todo_id, payload), Ok(()));
    let payload = TodoListPayload { title: "House".to_string() };
    assert_eq!(rename_route(&mut repo, &caller, created.id, payload), Ok(()));
    let payload = TodoListVecPayload { list: vec![created.id] };
    let found = get_all_todos_by_id(&repo, &caller, payload).unwrap();
    assert_eq!(found.len(), 1);
    assert_eq!(found[0].title, "House");
    assert_eq!(found[0].todos[0].title, "water!");
    assert!(found[0].todos[0].status);
    assert_eq!(found[0].todos[0].priority, TodoPriority::Low);
    let payload = TodoListVecPayload { list: vec![created.id] };
    assert_eq!(get_all_todos_by_id(&repo, &stranger, payload), Ok(vec![]));
    assert_eq!(delete_todo_route(&mut repo, &caller, created.id, todo_id), Ok(()));
    assert_eq!(delete_list_route(&mut repo, &stranger, created.id), Err(ApiError::NotFound));
    assert_eq!(delete_list_route(&mut repo, &caller, created.id), Ok(()));
    assert_eq!(get_all_todo_lists(&repo, &caller), Err(ApiError::NotFound));
}

#[test]
fn list_collection_keeps_identifiers_unique() {
    let mut collection = MemoryTodoLists::new();
    assert_eq!(collection.insert_one(&list(1, alice(), "one", vec![])), Ok(()));
    assert_eq!(collection.insert_one(&list(1, bob(), "again", vec![])), Err(StoreError));
    assert_eq!(collection.len(), 1);
}

#[test]
fn list_filters_select_by_each_field() {
    let mut collection = MemoryTodoLists::new();
    collection.insert_one(&list(1, alice(), "one", vec![todo(7, "a")])).unwrap();
    collection.insert_one(&list(2, bob(), "two", vec![todo(7, "a")])).unwrap();
    collection.insert_one(&list(3, alice(), "three", vec![])).unwrap();
    let everything = TodoFilter { id: None, user_id: None, todo: None, without_todo: None };
    assert_eq!(collection.find(everything).unwrap().len(), 3);
    assert_eq!(collection.find(TodoFilter::of_owner(alice())).unwrap().len(), 2);
    let holding = TodoFilter { id: None, user_id: None, todo: Some(id(7)), without_todo: None };
    assert_eq!(collection.find(holding).unwrap().len(), 2);
    let lacking = TodoFilter { id: None, user_id: None, todo: None, without_todo: Some(id(7)) };
    assert_eq!(collection.find(lacking), Ok(vec![list(3, alice(), "three", vec![])]));
    assert_eq!(collection.find_one(TodoFilter::owned_without_todo(id(1), alice(), id(7))), Ok(None));
    assert_eq!(
        collection.find_one(TodoFilter::owned_without_todo(id(1), alice(), id(8))),
        Ok(Some(list(1, alice(), "one", vec![todo(7, "a")])))
    );
    assert_eq!(
        collection.set_todo(TodoFilter::owned(id(1), alice()), "t".to_string(), true, TodoPriority::Low),
        Err(StoreError)
    );
    let named = TodoFilter::owned_with_todo(id(1), bob(), id(7));
    assert_eq!(collection.set_todo(named, "t".to_string(), true, TodoPriority::Low), Ok(false));
    assert_eq!(
        collection.find_one(TodoFilter::with_id(id(2))),
        Ok(Some(list(2, bob(), "two", vec![todo(7, "a")])))
    );
    assert_eq!(collection.find_one(TodoFilter::owned(id(2), alice())), Ok(None));
    assert_eq!(collection.find_one(TodoFilter::owned_with_todo(id(3), alice(), id(7))), Ok(None));
    assert_eq!(collection.set_title(TodoFilter::with_id(id(2)), "zwei".to_string()), Ok(true));
    assert_eq!(collection.set_title(TodoFilter::with_id(id(9)), "neun".to_string()), Ok(false));
    assert_eq!(collection.push_todo(TodoFilter::owned(id(3), alice()), todo(5, "e")), Ok(true));
    assert_eq!(collection.pull_todo(TodoFilter::owned(id(1), alice()), id(7)), Ok(true));
    assert_eq!(collection.delete_one(TodoFilter::owned(id(1), bob())), Ok(false));
    assert_eq!(
        collection.find(everything),
        Ok(vec![
            list(1, alice(), "one", vec![]),
            list(2, bob(), "zwei", vec![todo(7, "a")]),
            list(3, alice(), "three", vec![todo(5, "e")]),
        ])
    );
}
