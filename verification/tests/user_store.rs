use auth_service::domain::{
    AuthAPIError, Email, Password, PasswordHash, User, UserStore, UserStoreError,
};
use auth_service::services::hashmap_user_store::HashmapUserStore;

#[test]
fn test_add_user() {
    let mut user_store = HashmapUserStore::default();
    let email = Email::parse("test@email.com").unwrap();
    let password = Password::parse("passwordtest").unwrap();
    let user = User::new(email, password, false);

    // Test adding a user
    let result = user_store.add_user(user.clone());
    assert_eq!(result, Ok(()));

    // Test adding a user with the same email (should fail)
    let result = user_store.add_user(user.clone());
    assert_eq!(result, Err(UserStoreError::UserAlreadyExists));
}

#[test]
fn test_get_user() {
    let mut user_store = HashmapUserStore::default();
    let email = Email::parse("test@email.com").unwrap();
    let password = Password::parse("passwordtest").unwrap();

    let user = User::new(email, password, false);

    // Test getting a user that doesn't exist
    let result = user_store.get_user(&user.email);
    assert_eq!(result, Err(UserStoreError::UserNotFound));

    // Test getting a user that does exist
    user_store.add_user(user.clone()).unwrap();
    let result = user_store.get_user(&user.email);
    assert_eq!(result, Ok(user));
}

#[test]
fn test_validate_user() {
    let mut user_store = HashmapUserStore::default();
    let email = Email::parse("test@email.com").unwrap();
    let password = Password::parse("passwordtest").unwrap();

    let user = User::new(email, password.clone(), false);

    // Test validating a user that doesn't exist
    let result = user_store.validate_user(&user.email, &password);
    assert_eq!(result, Err(UserStoreError::UserNotFound));

    // Test validating a user with the wrong password
    user_store.add_user(user.clone()).unwrap();
    let bad_password = Password::parse("wrongpassword").unwrap();
    let result = user_store.validate_user(&user.email, &bad_password);
    assert_eq!(result, Err(UserStoreError::InvalidCredentials));

    // Test validating a user with the correct password
    let result = user_store.validate_user(&user.email, &password);
    assert_eq!(result, Ok(()));
}

#[test]
fn refused_add_leaves_the_first_user_in_place() {
    let mut user_store = HashmapUserStore::new();
    let email = Email::parse("test@email.com").unwrap();
    let first_password = Password::parse("passwordtest").unwrap();
    let second_password = Password::parse("anotherpassword").unwrap();
    let first = User::new(email.clone(), first_password.clone(), false);
    let second = User::new(email.clone(), second_password.clone(), true);

    assert_eq!(user_store.add_user(first.clone()), Ok(()));
    assert_eq!(user_store.add_user(second), Err(UserStoreError::UserAlreadyExists));

    assert_eq!(user_store.get_user(&email), Ok(first));
    assert_eq!(user_store.validate_user(&email, &first_password), Ok(()));
    assert_eq!(
        user_store.validate_user(&email, &second_password),
        Err(UserStoreError::InvalidCredentials)
    );
}

#[test]
fn users_are_kept_apart_by_address() {
    let mut user_store = HashmapUserStore::new();
    let alice = Email::parse("alice@email.com").unwrap();
    let bob = Email::parse("bob@email.com").unwrap();
    let alice_password = Password::parse("alice-secret").unwrap();
    let bob_password = Password::parse("bob-secret-1").unwrap();
    user_store
        .add_user(User::new(alice.clone(), alice_password.clone(), true))
        .unwrap();
    user_store
        .add_user(User::new(bob.clone(), bob_password.clone(), false))
        .unwrap();

    assert!(user_store.get_user(&alice).unwrap().requires_2fa);
    assert!(!user_store.get_user(&bob).unwrap().requires_2fa);
    assert_eq!(user_store.validate_user(&alice, &alice_password), Ok(()));
    assert_eq!(
        user_store.validate_user(&alice, &bob_password),
        Err(UserStoreError::InvalidCredentials)
    );
    assert_eq!(user_store.validate_user(&bob, &bob_password), Ok(()));
}

#[test]
fn password_hash_is_pbkdf2_of_the_password_and_the_salt() {
    let password = Password::parse("passwordtest").unwrap();
    let hash = PasswordHash::with_salt(&password, 0x0102030405060708090a0b0c0d0e0f10);
    assert_eq!(
        hash.salt(),
        [
            0x10, 0x0f, 0x0e, 0x0d, 0x0c, 0x0b, 0x0a, 0x09, 0x08, 0x07, 0x06, 0x05, 0x04, 0x03,
            0x02, 0x01
        ]
    );
    assert_eq!(
        hash.digest(),
        [
            36, 20, 83, 140, 208, 110, 136, 30, 128, 154, 182, 196, 176, 27, 203, 47, 6, 81, 242,
            21, 60, 142, 70, 239, 153, 206, 78, 152, 164, 58, 196, 122
        ]
    );
}

#[test]
fn password_hash_accepts_its_password_only() {
    let password = Password::parse("passwordtest").unwrap();
    let hash = PasswordHash::new(&password);
    assert!(hash.verify(&password));
    assert!(!hash.verify(&Password::parse("passwordtesT").unwrap()));
    assert!(!hash.verify(&Password::parse("passwordtest ").unwrap()));

    let restored = PasswordHash::from_parts(hash.salt().to_vec(), hash.digest().to_vec());
    assert_eq!(restored, hash);
    assert!(restored.verify(&password));
}

#[test]
fn password_hashes_of_one_password_differ_by_salt() {
    let password = Password::parse("passwordtest").unwrap();
    let first = PasswordHash::with_salt(&password, 1);
    let second = PasswordHash::with_salt(&password, 2);
    assert_ne!(first.digest(), second.digest());
    assert!(first.verify(&password));
    assert!(second.verify(&password));
    assert_eq!(first, PasswordHash::with_salt(&password, 1));
}

#[test]
fn new_user_holds_what_it_was_given() {
    let email = Email::parse("test@email.com").unwrap();
    let password = Password::parse("passwordtest").unwrap();
    let user = User::new(email.clone(), password.clone(), true);
    assert_eq!(user.email, email);
    assert!(user.requires_2fa);
    assert!(user.password_hash.verify(&password));
    assert_eq!(user.email(), &email);
    assert!(user.requires_2fa());
    assert!(user.password_hash().verify(&password));

    let hash = PasswordHash::with_salt(&password, 7);
    let rebuilt = User::with_password_hash(email.clone(), hash.clone(), false);
    assert_eq!(rebuilt.email, email);
    assert_eq!(rebuilt.password_hash, hash);
    assert!(!rebuilt.requires_2fa);
    let (part_email, part_hash, part_flag) = rebuilt.into_parts();
    assert_eq!(part_email, email);
    assert_eq!(part_hash, hash);
    assert!(!part_flag);
}

#[test]
fn validate_moves_a_user_to_the_verified_state() {
    let mut user_store = HashmapUserStore::new();
    let email = Email::parse("test@email.com").unwrap();
    let password = Password::parse("passwordtest").unwrap();
    let user = User::new(email.clone(), password.clone(), true);
    user_store.add_user(user.clone()).unwrap();

    let verified = user.clone().validate(&user_store, &password).unwrap();
    assert_eq!(verified.email, email);
    assert_eq!(verified.password_hash, user.password_hash);
    assert!(verified.requires_2fa);
}

#[test]
fn validate_refuses_wrong_password_and_unknown_user_alike() {
    let mut user_store = HashmapUserStore::new();
    let email = Email::parse("test@email.com").unwrap();
    let password = Password::parse("passwordtest").unwrap();
    let user = User::new(email.clone(), password.clone(), false);

    assert_eq!(
        user.clone().validate(&user_store, &password).err(),
        Some(AuthAPIError::IncorrectCredentials)
    );

    user_store.add_user(user.clone()).unwrap();
    let wrong = Password::parse("wrongpassword").unwrap();
    assert_eq!(
        user.validate(&user_store, &wrong).err(),
        Some(AuthAPIError::IncorrectCredentials)
    );
}
