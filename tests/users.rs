use auth_service::{UserError, Users, UsersImpl};

const SALT: &str = "c2FsdHNhbHRzYWx0";
const OTHER_SALT: &str = "b3RoZXJzYWx0dmFsdWU";

#[test]
fn should_create_user() {
    let mut user_service = UsersImpl::default();
    user_service
        .create_user("username".to_owned(), "password".to_owned())
        .expect("should create user");

    assert_eq!(user_service.len(), 1);
    assert!(user_service.contains_username(&"username".to_owned()));
}

#[test]
fn should_fail_creating_user_with_existing_username() {
    let mut user_service = UsersImpl::default();
    user_service
        .create_user("username".to_owned(), "password".to_owned())
        .expect("should create user");

    let result = user_service.create_user("username".to_owned(), "password".to_owned());

    assert!(result.is_err());
}

#[test]
fn should_retrieve_user_uuid() {
    let mut user_service = UsersImpl::default();
    user_service
        .create_user("username".to_owned(), "password".to_owned())
        .expect("should create user");

    assert!(user_service
        .get_user_uuid("username".to_owned(), "password".to_owned())
        .is_some());
}

#[test]
fn should_fail_to_retrieve_user_uuid_with_incorrect_password() {
    let mut user_service = UsersImpl::default();
    user_service
        .create_user("username".to_owned(), "password".to_owned())
        .expect("should create user");

    assert!(user_service
        .get_user_uuid("username".to_owned(), "incorrect password".to_owned())
        .is_none());
}

#[test]
fn should_delete_user() {
    let mut user_service = UsersImpl::default();
    user_service
        .create_user("username".to_owned(), "password".to_owned())
        .expect("should create user");

    let user_uuid = user_service
        .get_user_uuid("username".to_owned(), "password".to_owned())
        .unwrap();

    user_service.delete_user(user_uuid);

    assert_eq!(user_service.len(), 0);
    assert!(!user_service.contains_username(&"username".to_owned()));
}

#[test]
fn end_to_end_scenario() {
    let mut dir = UsersImpl::new();
    assert_eq!(dir.create_user("alice".to_owned(), "s3cret".to_owned()), Ok(()));
    assert_eq!(
        dir.create_user("alice".to_owned(), "other".to_owned()),
        Err(UserError::DuplicateUsername)
    );
    let id = dir
        .get_user_uuid("alice".to_owned(), "s3cret".to_owned())
        .expect("alice signs in");
    assert_eq!(
        dir.get_user_uuid("alice".to_owned(), "wrong".to_owned()),
        None
    );
    dir.delete_user(id);
    assert_eq!(
        dir.get_user_uuid("alice".to_owned(), "s3cret".to_owned()),
        None
    );
}

#[test]
fn identity_is_a_hyphenated_uuid() {
    let mut dir = UsersImpl::new();
    dir.create_user("bob".to_owned(), "pw".to_owned()).unwrap();
    let id = dir.get_user_uuid("bob".to_owned(), "pw".to_owned()).unwrap();
    assert_eq!(id.len(), 36);
    assert!(dir.contains_identity(&id));
}

#[test]
fn duplicate_create_leaves_directory_unchanged() {
    let mut dir = UsersImpl::new();
    dir.create_user_with("u".to_owned(), "p".to_owned(), SALT.to_owned(), "id-1".to_owned())
        .unwrap();
    assert_eq!(
        dir.create_user_with("u".to_owned(), "q".to_owned(), OTHER_SALT.to_owned(), "id-2".to_owned()),
        Err(UserError::DuplicateUsername)
    );
    assert_eq!(dir.len(), 1);
    assert!(!dir.contains_identity(&"id-2".to_owned()));
    assert_eq!(dir.get_user_uuid("u".to_owned(), "p".to_owned()), Some("id-1".to_owned()));
    assert_eq!(dir.get_user_uuid("u".to_owned(), "q".to_owned()), None);
}

#[test]
fn create_with_fixed_salt_and_identity_authenticates() {
    let mut dir = UsersImpl::new();
    assert_eq!(
        dir.create_user_with("carol".to_owned(), "hunter2".to_owned(), SALT.to_owned(), "id-c".to_owned()),
        Ok(())
    );
    assert_eq!(
        dir.get_user_uuid("carol".to_owned(), "hunter2".to_owned()),
        Some("id-c".to_owned())
    );
    assert_eq!(dir.get_user_uuid("carol".to_owned(), "hunter".to_owned()), None);
    assert_eq!(dir.get_user_uuid("carol".to_owned(), "".to_owned()), None);
}

#[test]
fn same_password_under_two_salts_verifies_for_each_user() {
    let mut dir = UsersImpl::new();
    dir.create_user_with("a".to_owned(), "same".to_owned(), SALT.to_owned(), "id-a".to_owned())
        .unwrap();
    dir.create_user_with("b".to_owned(), "same".to_owned(), OTHER_SALT.to_owned(), "id-b".to_owned())
        .unwrap();
    assert_eq!(dir.get_user_uuid("a".to_owned(), "same".to_owned()), Some("id-a".to_owned()));
    assert_eq!(dir.get_user_uuid("b".to_owned(), "same".to_owned()), Some("id-b".to_owned()));
}

#[test]
fn malformed_salt_is_a_hashing_failure() {
    let mut dir = UsersImpl::new();
    assert_eq!(
        dir.create_user_with("d".to_owned(), "pw".to_owned(), "!".to_owned(), "id-d".to_owned()),
        Err(UserError::HashingFailure)
    );
    assert!(dir.is_empty());
    assert!(!dir.contains_username(&"d".to_owned()));
}

#[test]
fn identity_collision_is_refused() {
    let mut dir = UsersImpl::new();
    dir.create_user_with("e".to_owned(), "pw".to_owned(), SALT.to_owned(), "id-e".to_owned())
        .unwrap();
    assert_eq!(
        dir.create_user_with("f".to_owned(), "pw".to_owned(), SALT.to_owned(), "id-e".to_owned()),
        Err(UserError::IdentityCollision)
    );
    assert_eq!(dir.len(), 1);
    assert!(!dir.contains_username(&"f".to_owned()));
}

#[test]
fn plaintext_in_place_of_a_hash_never_verifies() {
    let mut dir = UsersImpl::new();
    assert_eq!(
        dir.insert_hashed("g".to_owned(), "password".to_owned(), "id-g".to_owned()),
        Ok(())
    );
    assert_eq!(dir.get_user_uuid("g".to_owned(), "password".to_owned()), None);
}

#[test]
fn insert_hashed_refuses_taken_keys() {
    let mut dir = UsersImpl::new();
    dir.insert_hashed("h".to_owned(), "x".to_owned(), "id-h".to_owned()).unwrap();
    assert_eq!(
        dir.insert_hashed("h".to_owned(), "y".to_owned(), "id-other".to_owned()),
        Err(UserError::DuplicateUsername)
    );
    assert_eq!(
        dir.insert_hashed("i".to_owned(), "y".to_owned(), "id-h".to_owned()),
        Err(UserError::IdentityCollision)
    );
    assert_eq!(dir.len(), 1);
}

#[test]
fn unknown_user_is_not_authenticated() {
    let dir = UsersImpl::new();
    assert_eq!(dir.get_user_uuid("nobody".to_owned(), "pw".to_owned()), None);
}

#[test]
fn deleting_unknown_identity_changes_nothing() {
    let mut dir = UsersImpl::new();
    dir.create_user_with("j".to_owned(), "pw".to_owned(), SALT.to_owned(), "id-j".to_owned())
        .unwrap();
    dir.delete_user("id-unknown".to_owned());
    assert_eq!(dir.len(), 1);
    assert_eq!(dir.get_user_uuid("j".to_owned(), "pw".to_owned()), Some("id-j".to_owned()));
}

#[test]
fn deleting_twice_removes_one_record() {
    let mut dir = UsersImpl::new();
    dir.create_user_with("k".to_owned(), "pw".to_owned(), SALT.to_owned(), "id-k".to_owned())
        .unwrap();
    dir.create_user_with("l".to_owned(), "pw".to_owned(), SALT.to_owned(), "id-l".to_owned())
        .unwrap();
    dir.delete_user("id-k".to_owned());
    assert_eq!(dir.len(), 1);
    assert!(!dir.contains_identity(&"id-k".to_owned()));
    assert!(!dir.contains_username(&"k".to_owned()));
    dir.delete_user("id-k".to_owned());
    assert_eq!(dir.len(), 1);
    assert_eq!(dir.get_user_uuid("l".to_owned(), "pw".to_owned()), Some("id-l".to_owned()));
    assert_eq!(dir.get_user_uuid("k".to_owned(), "pw".to_owned()), None);
}
