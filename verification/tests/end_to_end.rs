use flexnotes::auth::{auth_middleware, verify_token, Keys};
use flexnotes::error::ApiError;
use flexnotes::models::oid::ObjectId;
use flexnotes::repository::memory_notes::MemoryNotes;
use flexnotes::repository::memory_todo_lists::MemoryTodoLists;
use flexnotes::repository::memory_users::MemoryUsers;
use flexnotes::repository::note_store::MongoNoteRepo;
use flexnotes::repository::todo_store::MongoTodoRepo;
use flexnotes::repository::user_repo::UserRepo;
use flexnotes::repository::user_store::MongoUserRepo;
use flexnotes::services::note_service::{
    create_note, get_note_by_id, pin_todo_list, unpin_todo_list,
};
use flexnotes::services::todo_service::create_todo_list;
use flexnotes::services::user_service::{login_user, register_user};

#[test]
fn register_login_note_list_pin_unpin() {
    let now: usize = 1_700_000_000;
    let keys = Keys::new(b"a secret of the process");
    let mut users = MongoUserRepo::new(MemoryUsers::new());
    let mut notes = MongoNoteRepo::new(MemoryNotes::new());
    let mut lists = MongoTodoRepo::new(MemoryTodoLists::new());

    let registered = register_user(&mut users, &keys, "alice", "alice@x.com", "pw123", now).unwrap();
    assert!(!registered.access_token.is_empty());
    assert!(!registered.refresh_token.is_empty());
    assert_eq!(registered.username, "alice");

    let again = register_user(&mut users, &keys, "alice", "alice2@x.com", "pw123", now);
    assert_eq!(again, Err(ApiError::UserExist));

    let session = login_user(&users, &keys, "alice", "pw123", now).unwrap();
    let claims = verify_token(&keys, &session.access_token, now).unwrap();
    assert_eq!(claims.username, "alice");

    let header = format!("Bearer {}", session.access_token);
    let caller = auth_middleware(&users, &keys, Some(&header), now).unwrap();
    assert_eq!(caller.claims.username, "alice");
    assert!(caller.claims.exp > now);
    let alice = caller.user;
    assert_eq!(alice.id, users.get_user("alice").unwrap().id);

    let note = create_note(&mut notes, alice.id, "Groceries", "milk", vec![]).unwrap();
    assert_eq!(note.user_id, alice.id);
    assert_eq!(note.title, "Groceries");
    assert_eq!(note.content, "milk");
    assert_eq!(note.tags, Vec::<String>::new());
    assert_eq!(note.todo_lists, Vec::<ObjectId>::new());

    let list = create_todo_list(&mut lists, alice.id, "Home".to_string()).unwrap();
    assert_eq!(pin_todo_list(&mut notes, &lists, alice.id, note.id, list.id), Ok(()));
    assert_eq!(get_note_by_id(&notes, alice.id, note.id).unwrap().todo_lists, vec![list.id]);

    assert_eq!(unpin_todo_list(&mut notes, alice.id, note.id, list.id), Ok(()));
    assert_eq!(
        get_note_by_id(&notes, alice.id, note.id).unwrap().todo_lists,
        Vec::<ObjectId>::new()
    );
}
