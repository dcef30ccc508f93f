use flexnotes::auth::{verify_token, Keys};
use flexnotes::error::ApiError;
use flexnotes::models::oid::ObjectId;
use flexnotes::models::user::User;
use flexnotes::repository::memory_users::MemoryUsers;
use flexnotes::repository::user_collection::{UserCollection, UserFilter};
use flexnotes::repository::user_repo::UserRepo;
use flexnotes::repository::user_store::MongoUserRepo;
use flexnotes::repository::StoreError;
use flexnotes::routes::auth::{authorize, register, AuthPayload, RegisterPayload};
use flexnotes::services::user_service::{login_user, register_hashed, register_user};

const NOW: usize = 1_700_000_000;

fn store() -> MongoUserRepo<MemoryUsers> {
    MongoUserRepo::new(MemoryUsers::new())
}

fn user(id: u8, username: &str, email: &str) -> User {
    User {
        id: ObjectId::from_bytes([id; 12]),
        username: username.to_string(),
        email: email.to_string(),
        password: "not a hash".to_string(),
    }
}

#[test]
fn registration_signs_in() {
    let keys = Keys::new(b"secret");
    let mut repo = store();
    let body = register_user(&mut repo, &keys, "alice", "alice@x.com", "pw123", NOW).unwrap();
    assert_eq!(body.username, "alice");
    assert_eq!(body.token_type, "Bearer");
    let access = verify_token(&keys, &body.access_token, NOW).unwrap();
    assert_eq!(access.username, "alice");
    assert_eq!(access.company, "flexnotes");
    assert_eq!(access.exp, NOW + 2 * 60 * 60);
    let refresh = verify_token(&keys, &body.refresh_token, NOW).unwrap();
    assert_eq!(refresh.username, "alice");
    assert_eq!(refresh.exp, NOW + 48 * 60 * 60);
}

#[test]
fn registration_of_a_hashed_password() {
    let keys = Keys::new(b"secret");
    let mut repo = store();
    let id = ObjectId::from_bytes([7; 12]);
    let hashed = Ok("the hash".to_string());
    let body = register_hashed(&mut repo, &keys, id, "alice", "alice@x.com", hashed, NOW).unwrap();
    assert_eq!(body.username, "alice");
    assert_eq!(verify_token(&keys, &body.access_token, NOW).unwrap().exp, NOW + 7200);
    assert_eq!(verify_token(&keys, &body.refresh_token, NOW).unwrap().exp, NOW + 172800);
    let stored = User {
        id,
        username: "alice".to_string(),
        email: "alice@x.com".to_string(),
        password: "the hash".to_string(),
    };
    assert_eq!(repo.get_user("alice"), Ok(stored));
}

#[test]
fn registration_of_a_password_that_could_not_be_hashed() {
    let keys = Keys::new(b"secret");
    let mut repo = store();
    let id = ObjectId::from_bytes([7; 12]);
    let hashed = Err(bcrypt::BcryptError::CostNotAllowed(99));
    let answer = register_hashed(&mut repo, &keys, id, "alice", "alice@x.com", hashed, NOW);
    assert_eq!(answer, Err(ApiError::InternalError));
    assert_eq!(repo.get_user("alice"), Err(ApiError::NotFound));
}

#[test]
fn registration_under_an_identifier_in_use() {
    let keys = Keys::new(b"secret");
    let mut repo = store();
    let id = ObjectId::from_bytes([7; 12]);
    register_hashed(&mut repo, &keys, id, "alice", "alice@x.com", Ok("h".to_string()), NOW).unwrap();
    let answer = register_hashed(&mut repo, &keys, id, "bob", "bob@x.com", Ok("h".to_string()), NOW);
    assert_eq!(answer, Err(ApiError::InternalError));
    assert_eq!(repo.get_user("bob"), Err(ApiError::NotFound));
}

#[test]
fn registration_that_cannot_issue_tokens_has_stored_the_user() {
    let keys = Keys::new(b"secret");
    let mut repo = store();
    let id = ObjectId::from_bytes([7; 12]);
    let hashed = Ok("h".to_string());
    let answer = register_hashed(&mut repo, &keys, id, "alice", "alice@x.com", hashed, usize::MAX);
    assert_eq!(answer, Err(ApiError::InternalError));
    assert_eq!(repo.get_user("alice").map(|user| user.id), Ok(id));
}

#[test]
fn registration_stores_a_hash_not_the_password() {
    let keys = Keys::new(b"secret");
    let mut repo = store();
    register_user(&mut repo, &keys, "alice", "alice@x.com", "pw123", NOW).unwrap();
    let stored = repo.get_user("alice").unwrap();
    assert_eq!(stored.username, "alice");
    assert_eq!(stored.email, "alice@x.com");
    assert_ne!(stored.password, "pw123");
    assert!(stored.password.starts_with("$2"));
    assert_eq!(stored.password.len(), 60);
}

#[test]
fn same_username_is_rejected_whatever_the_email() {
    let keys = Keys::new(b"secret");
    let mut repo = store();
    register_user(&mut repo, &keys, "alice", "alice@x.com", "pw123", NOW).unwrap();
    let second = register_user(&mut repo, &keys, "alice", "other@x.com", "pw456", NOW);
    assert_eq!(second, Err(ApiError::UserExist));
}

#[test]
fn same_email_is_rejected_whatever_the_username() {
    let keys = Keys::new(b"secret");
    let mut repo = store();
    register_user(&mut repo, &keys, "alice", "alice@x.com", "pw123", NOW).unwrap();
    let second = register_user(&mut repo, &keys, "bob", "alice@x.com", "pw456", NOW);
    assert_eq!(second, Err(ApiError::UserExist));
    assert_eq!(repo.get_user("bob"), Err(ApiError::NotFound));
}

#[test]
fn rejected_registration_stores_nothing() {
    let keys = Keys::new(b"secret");
    let mut users = MemoryUsers::new();
    users.insert_one(&user(1, "alice", "alice@x.com")).unwrap();
    let mut repo = MongoUserRepo::new(users);
    assert_eq!(
        register_user(&mut repo, &keys, "alice", "other@x.com", "pw", NOW),
        Err(ApiError::UserExist)
    );
    assert_eq!(repo.user_exist("nobody", "other@x.com"), Ok(false));
}

#[test]
fn registration_with_an_empty_field_is_rejected() {
    let keys = Keys::new(b"secret");
    let mut repo = store();
    for (username, email, password) in
        [("", "a@x.com", "pw"), ("alice", "", "pw"), ("alice", "a@x.com", "")]
    {
        let answer = register_user(&mut repo, &keys, username, email, password, NOW);
        assert_eq!(answer, Err(ApiError::MissingCredential));
    }
    assert_eq!(repo.user_exist("alice", "a@x.com"), Ok(false));
}

#[test]
fn empty_field_is_reported_before_a_taken_name() {
    let keys = Keys::new(b"secret");
    let mut repo = store();
    register_user(&mut repo, &keys, "alice", "alice@x.com", "pw123", NOW).unwrap();
    let answer = register_user(&mut repo, &keys, "alice", "alice@x.com", "", NOW);
    assert_eq!(answer, Err(ApiError::MissingCredential));
}

#[test]
fn login_with_the_right_password() {
    let keys = Keys::new(b"secret");
    let mut repo = store();
    register_user(&mut repo, &keys, "alice", "alice@x.com", "pw123", NOW).unwrap();
    let body = login_user(&repo, &keys, "alice", "pw123", NOW + 5).unwrap();
    assert_eq!(body.username, "alice");
    let claims = verify_token(&keys, &body.access_token, NOW + 5).unwrap();
    assert_eq!(claims.username, "alice");
    assert_eq!(claims.exp, NOW + 5 + 7200);
}

#[test]
fn login_with_a_wrong_password() {
    let keys = Keys::new(b"secret");
    let mut repo = store();
    register_user(&mut repo, &keys, "alice", "alice@x.com", "pw123", NOW).unwrap();
    assert_eq!(login_user(&repo, &keys, "alice", "pw124", NOW), Err(ApiError::Unathorized));
}

#[test]
fn login_of_an_unknown_user() {
    let keys = Keys::new(b"secret");
    let repo = store();
    assert_eq!(login_user(&repo, &keys, "nobody", "pw123", NOW), Err(ApiError::Unathorized));
}

#[test]
fn login_with_an_empty_field() {
    let keys = Keys::new(b"secret");
    let mut repo = store();
    register_user(&mut repo, &keys, "alice", "alice@x.com", "pw123", NOW).unwrap();
    assert_eq!(login_user(&repo, &keys, "", "pw123", NOW), Err(ApiError::MissingCredential));
    assert_eq!(login_user(&repo, &keys, "alice", "", NOW), Err(ApiError::MissingCredential));
}

#[test]
fn login_against_a_stored_value_that_is_no_hash() {
    let keys = Keys::new(b"secret");
    let mut users = MemoryUsers::new();
    users.insert_one(&user(1, "alice", "alice@x.com")).unwrap();
    let repo = MongoUserRepo::new(users);
    assert_eq!(login_user(&repo, &keys, "alice", "pw123", NOW), Err(ApiError::InternalError));
}

#[test]
fn login_against_a_known_hash() {
    let keys = Keys::new(b"secret");
    let mut users = MemoryUsers::new();
    let mut alice = user(1, "alice", "alice@x.com");
    alice.password = "$2y$12$L6Bc/AlTQHyd9liGgGEZyOFLPHNgyxeEPfgYfBCVxJ7JIlwxyVU3u".to_string();
    users.insert_one(&alice).unwrap();
    let repo = MongoUserRepo::new(users);
    assert!(login_user(&repo, &keys, "alice", "hunter2", NOW).is_ok());
    assert_eq!(login_user(&repo, &keys, "alice", "hunter3", NOW), Err(ApiError::Unathorized));
}

#[test]
fn login_that_cannot_issue_tokens() {
    let keys = Keys::new(b"secret");
    let mut repo = store();
    register_user(&mut repo, &keys, "alice", "alice@x.com", "pw123", NOW).unwrap();
    assert_eq!(
        login_user(&repo, &keys, "alice", "pw123", usize::MAX),
        Err(ApiError::InternalError)
    );
}

#[test]
fn handlers_take_the_payload_apart() {
    let keys = Keys::new(b"secret");
    let mut repo = store();
    let payload = RegisterPayload {
        username: "alice".to_string(),
        email: "alice@x.com".to_string(),
        password: "pw123".to_string(),
    };
    let registered = register(&mut repo, &keys, payload, NOW).unwrap();
    assert_eq!(registered.username, "alice");
    let payload = AuthPayload { username: "alice".to_string(), password: "pw123".to_string() };
    let signed_in = authorize(&repo, &keys, payload, NOW).unwrap();
    assert_eq!(signed_in.username, "alice");
    let payload = AuthPayload { username: "alice".to_string(), password: String::new() };
    assert_eq!(authorize(&repo, &keys, payload, NOW), Err(ApiError::MissingCredential));
}

#[test]
fn lookup_by_name() {
    let mut users = MemoryUsers::new();
    users.insert_one(&user(1, "alice", "alice@x.com")).unwrap();
    users.insert_one(&user(2, "bob", "bob@x.com")).unwrap();
    let repo = MongoUserRepo::new(users);
    assert_eq!(repo.get_user("bob"), Ok(user(2, "bob", "bob@x.com")));
    assert_eq!(repo.get_user("carol"), Err(ApiError::NotFound));
    assert_eq!(repo.get_user("bob@x.com"), Err(ApiError::NotFound));
}

#[test]
fn existence_is_a_union_of_both_fields() {
    let mut users = MemoryUsers::new();
    users.insert_one(&user(1, "alice", "alice@x.com")).unwrap();
    let repo = MongoUserRepo::new(users);
    assert_eq!(repo.user_exist("alice", "other@x.com"), Ok(true));
    assert_eq!(repo.user_exist("other", "alice@x.com"), Ok(true));
    assert_eq!(repo.user_exist("alice", "alice@x.com"), Ok(true));
    assert_eq!(repo.user_exist("other", "other@x.com"), Ok(false));
    assert_eq!(repo.user_exist("alice@x.com", "alice"), Ok(false));
}

#[test]
fn create_user_hands_the_user_back() {
    let mut repo = store();
    let alice = user(1, "alice", "alice@x.com");
    assert_eq!(repo.create_user(&alice), Ok(user(1, "alice", "alice@x.com")));
    assert_eq!(repo.get_user("alice"), Ok(alice));
}

#[test]
fn identifier_in_use_is_a_store_failure() {
    let mut users = MemoryUsers::new();
    users.insert_one(&user(1, "alice", "alice@x.com")).unwrap();
    assert_eq!(users.insert_one(&user(1, "bob", "bob@x.com")), Err(StoreError));
    assert_eq!(users.len(), 1);
    let mut repo = MongoUserRepo::new(users);
    assert_eq!(repo.create_user(&user(1, "bob", "bob@x.com")), Err(ApiError::InternalError));
    assert_eq!(repo.get_user("bob"), Err(ApiError::NotFound));
}

#[test]
fn filters_select_by_name_or_by_either_field() {
    let mut users = MemoryUsers::new();
    users.insert_one(&user(1, "alice", "alice@x.com")).unwrap();
    users.insert_one(&user(2, "bob", "bob@x.com")).unwrap();
    assert_eq!(users.find_one(&UserFilter::named("bob")), Ok(Some(user(2, "bob", "bob@x.com"))));
    assert_eq!(users.find_one(&UserFilter::named("bob@x.com")), Ok(None));
    let either = UserFilter::named_or_reachable_at("nobody", "bob@x.com");
    assert_eq!(users.find_one(&either), Ok(Some(user(2, "bob", "bob@x.com"))));
    let first = UserFilter::NamedOrReachableAt("bob".to_string(), "alice@x.com".to_string());
    assert_eq!(users.find_one(&first), Ok(Some(user(1, "alice", "alice@x.com"))));
    let nobody = UserFilter::NamedOrReachableAt("carol".to_string(), "carol@x.com".to_string());
    assert_eq!(users.find_one(&nobody), Ok(None));
}
