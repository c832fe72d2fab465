use herodot::api_key::ApiKey as UuidApiKey;
use herodot::authentication::api_key::{creation_failed, key_stored_answer, ApiKey, ApiKeyFormData, OWNER_MISMATCH};
use herodot::authentication::token::{Token, TOKEN_LENGTH};
use herodot::authentication::user_api::{
    login_after_lookup, login_after_session_save, register_action, register_response, LoginAction,
    LoginFormData, RegisterAction, UserCreationFormData, PASSWORD_MISMATCH, REDIRECT_LOOKUP_FAILED,
    REDIRECT_WRONG_CREDENTIALS,
};
use herodot::authentication::user_auth::{AuthUser, SessionLookup};
use herodot::error::{AppError, DbError, DbFailure};
use herodot::user::User;

fn url_safe(c: char) -> bool {
    c.is_ascii_alphanumeric() || c == '-' || c == '_'
}

#[test]
fn tokens_are_43_url_safe_characters_and_fresh() {
    let first = Token::new().to_string();
    let second = Token::new().into_string();
    assert_eq!(first.len(), TOKEN_LENGTH);
    assert_eq!(first.len(), 43);
    assert!(first.chars().all(url_safe));
    assert!(second.chars().all(url_safe));
    assert_ne!(first, second);
    assert_eq!(Token::from_string("abc".to_string()).to_string(), "abc");
}

#[test]
fn token_text_is_url_safe_base64_of_its_bytes() {
    let mut counting = [0u8; 32];
    for (i, b) in counting.iter_mut().enumerate() {
        *b = i as u8;
    }
    assert_eq!(
        Token::from_random_bytes(&counting).to_string(),
        "AAECAwQFBgcICQoLDA0ODxAREhMUFRYXGBkaGxwdHh8"
    );
    assert_eq!(
        Token::from_random_bytes(&[255u8; 32]).to_string(),
        "__________________________________________8"
    );
    assert_eq!(Token::from_random_bytes(&[0u8; 32]).to_string(), "A".repeat(43));
}

#[test]
fn new_api_key_has_name_owner_and_token() {
    let key = ApiKey::new("sensor", "alice");
    assert_eq!(key.name(), "sensor");
    assert_eq!(key.owner(), "alice");
    assert_eq!(key.token().len(), 43);
    let other = ApiKey::new("sensor", "alice");
    assert_ne!(key.id(), other.id());
    assert_ne!(key.token(), other.token());
}

#[test]
fn uuid_api_key_holds_a_uuid_text() {
    let key = UuidApiKey::new("sensor", "alice");
    assert_eq!(key.name(), "sensor");
    assert_eq!(key.owner(), "alice");
    let value = key.value();
    assert_eq!(value.len(), 36);
    assert_eq!(&value[8..9], "-");
    assert_eq!(&value[14..15], "4");
}

fn alice() -> AuthUser {
    AuthUser::new(User::from_parts(11, "alice".to_string(), "h".to_string()))
}

#[test]
fn keys_may_only_be_made_for_oneself() {
    let refused = ApiKey::request(
        &alice(),
        ApiKeyFormData { name: "k".to_string(), owner: "bob".to_string() },
    );
    match refused {
        Err((status, message)) => {
            assert_eq!(status, 403);
            assert_eq!(message, OWNER_MISMATCH);
        }
        Ok(_) => panic!("a key for another user was made"),
    }
    let made = ApiKey::request(
        &alice(),
        ApiKeyFormData { name: "k".to_string(), owner: "alice".to_string() },
    )
    .unwrap();
    assert_eq!(made.owner(), "alice");
    assert_eq!(made.name(), "k");
    assert_eq!(creation_failed(), (500, "Internal Server Error: Could not create token!"));
}

#[test]
fn session_lookup_outcomes() {
    let found = AuthUser::from_session(SessionLookup::Found(User::from_parts(3, "eve".to_string(), "h".to_string())))
        .unwrap();
    assert_eq!(found.id(), 3);
    assert_eq!(found.username(), "eve");
    assert!(matches!(AuthUser::from_session(SessionLookup::NoUser), Err(AppError::Unauthorized("Unauthorized"))));
    assert!(matches!(
        AuthUser::from_session(SessionLookup::NoSession),
        Err(AppError::InternalServerError("Session not found"))
    ));
    match AuthUser::from_session(SessionLookup::Failed("gone".to_string())) {
        Err(AppError::SessionError(text)) => assert_eq!(text, "gone"),
        _ => panic!("expected a session error"),
    }
}

#[test]
fn registration_requires_matching_confirmation() {
    let refused = register_action(UserCreationFormData {
        username: "u".to_string(),
        password: "a".to_string(),
        password_confirmation: "b".to_string(),
    });
    assert!(matches!(refused, RegisterAction::Respond(400, m) if m == PASSWORD_MISMATCH));
    let accepted = register_action(UserCreationFormData {
        username: "u".to_string(),
        password: "a".to_string(),
        password_confirmation: "a".to_string(),
    });
    match accepted {
        RegisterAction::CreateUser { username, password } => {
            assert_eq!(username, "u");
            assert_eq!(password, "a");
        }
        _ => panic!("expected a user to be created"),
    }
    assert_eq!(register_response(true), (201, "User created successfully"));
    assert_eq!(register_response(false), (500, "Internal Server Error: Could not create user!"));
}

fn form(username: &str, password: &str) -> LoginFormData {
    LoginFormData { username: username.to_string(), password: password.to_string() }
}

#[test]
fn registered_user_logs_in() {
    let user = User::new("alice".to_string(), "pw".to_string()).unwrap();
    match login_after_lookup(form("alice", "pw"), Ok(user)) {
        LoginAction::SaveSession(u) => assert_eq!(u.username(), "alice"),
        _ => panic!("expected the session to be saved"),
    }
    assert_eq!(login_after_session_save(true), "/");
    assert_eq!(login_after_session_save(false), "/login?error=internal_error");
}

#[test]
fn login_failures_redirect_or_fail() {
    let user = User::new("alice".to_string(), "pw".to_string()).unwrap();
    assert!(matches!(
        login_after_lookup(form("alice", "wrong"), Ok(user)),
        LoginAction::Redirect(t) if t == REDIRECT_WRONG_CREDENTIALS
    ));
    let missing = DbError { failure: DbFailure::RowNotFound, message: "none".to_string() };
    assert!(matches!(
        login_after_lookup(form("alice", "pw"), Err(missing)),
        LoginAction::Redirect(t) if t == REDIRECT_LOOKUP_FAILED
    ));
    let broken = User::from_parts(1, "alice".to_string(), "garbage".to_string());
    assert!(matches!(login_after_lookup(form("alice", "pw"), Ok(broken)), LoginAction::Fail(AppError::User(_))));
}

#[test]
fn stored_key_page_is_not_cached() {
    let page = key_stored_answer(true).unwrap();
    assert_eq!(page.status, 201);
    assert_eq!(page.cache_control, "no-store");
    assert_eq!(key_stored_answer(false).err().unwrap(), (500, "Internal Server Error: Could not create token!"));
}
