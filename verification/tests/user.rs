use herodot::user::{hash_password, User, UserCredentials};

#[test]
fn test_hash_password() {
    let password = "securepassword123";
    let hashed_password = hash_password(password.to_string()).unwrap();
    assert!(hashed_password.len() > 0);
}

#[test]
fn test_password_matches() {
    let password = "securepassword123";
    let wrong_password = "not the password";
    let user = User::new("testuser".to_string(), password.to_string()).unwrap();
    assert!(user.password_matches(password).unwrap());
    assert!(!user.password_matches(wrong_password).unwrap());
}

#[test]
fn test_credentials_is() {
    let user = User::new("testuser".to_string(), "securepassword123".to_string()).unwrap();
    let credentials = UserCredentials::new("testuser".to_string(), "wrongpassword".to_string());
    assert!(!user.credentials_is(credentials).unwrap());
}

#[test]
fn new_user_accepts_its_own_credentials() {
    let user = User::new("alice".to_string(), "s3cret".to_string()).unwrap();
    let credentials = UserCredentials::new("alice".to_string(), "s3cret".to_string());
    assert!(user.credentials_is(credentials).unwrap());
    assert_eq!(user.username(), "alice");
}

#[test]
fn other_user_name_is_refused_even_with_right_password() {
    let user = User::new("alice".to_string(), "s3cret".to_string()).unwrap();
    let credentials = UserCredentials::new("bob".to_string(), "s3cret".to_string());
    assert!(!user.credentials_is(credentials).unwrap());
}

#[test]
fn hash_is_argon2_phc_string_and_differs_by_salt() {
    let first = hash_password("same".to_string()).unwrap();
    let second = hash_password("same".to_string()).unwrap();
    assert!(first.starts_with("$argon2id$v=19$m=19456,t=2,p=1$"));
    assert_eq!(first.len(), 97);
    assert_eq!(&first[53..54], "$");
    assert_ne!(first, second);
}

#[test]
fn unreadable_stored_hash_is_an_error() {
    let user = User::from_parts(7, "carol".to_string(), "not a phc string".to_string());
    assert!(user.password_matches("anything").is_err());
    let credentials = UserCredentials::new("carol".to_string(), "anything".to_string());
    assert!(user.credentials_is(credentials).is_err());
    let other = UserCredentials::new("dave".to_string(), "anything".to_string());
    assert_eq!(user.credentials_is(other).unwrap(), false);
}

#[test]
fn user_error_message_has_prefix() {
    let user = User::from_parts(7, "carol".to_string(), "not a phc string".to_string());
    let error = user.password_matches("anything").unwrap_err();
    assert!(error.message().starts_with("Error hashing password: "));
}
