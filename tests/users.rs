use shopfront::error::ApiError;
use shopfront::ids::Id;
use shopfront::user::{check_credentials, create_user, login_user, CreateUserRequest, LoginRequest, User};

// bcrypt hash, at cost 4, of "correctbatteryhorsestapler".
const STORED: &str = "$2b$04$EGdrhbKUv8Oc9vGiXX0HQOxSg445d458Muh7DAHskb6QbtCvdxcie";

fn stored_user() -> User {
    User {
        id: Id::from_u128(77),
        name: "Ana".to_string(),
        email: "ana@example.com".to_string(),
        password: STORED.to_string(),
    }
}

#[test]
fn second_registration_with_same_email_conflicts() {
    let existing = vec![stored_user()];
    let req = CreateUserRequest {
        name: "Other".to_string(),
        email: "ana@example.com".to_string(),
        password: "x".to_string(),
    };
    assert_eq!(create_user(&existing, &req), Err(ApiError::Conflict));
    assert!(User::email_exists(&existing, "ana@example.com"));
    assert!(!User::email_exists(&existing, "bob@example.com"));
    assert!(!User::email_exists(&Vec::new(), "ana@example.com"));
}

#[test]
fn registration_stores_a_bcrypt_hash_not_the_password() {
    let req = CreateUserRequest {
        name: "Bob".to_string(),
        email: "bob@example.com".to_string(),
        password: "hunter2".to_string(),
    };
    let user = create_user(&vec![stored_user()], &req).unwrap();
    assert_eq!(user.name, "Bob");
    assert_eq!(user.email, "bob@example.com");
    assert_ne!(user.password, "hunter2");
    assert_eq!(user.password.len(), 60);
    assert!(user.password.starts_with("$2b$12$"));
    assert!(bcrypt::verify("hunter2", &user.password).unwrap());
    let again = create_user(&vec![stored_user()], &req).unwrap();
    assert_ne!(again.password, user.password);
    assert!(bcrypt::verify("hunter2", &again.password).unwrap());
}

#[test]
fn login_with_wrong_password_is_unauthorized() {
    let login = LoginRequest { email: "ana@example.com".to_string(), password: "wrong".to_string() };
    assert_eq!(login_user(Some(stored_user()), &login), Err(ApiError::Unauthorized));
}

#[test]
fn login_with_unknown_email_is_unauthorized() {
    let login = LoginRequest { email: "nobody@example.com".to_string(), password: "x".to_string() };
    assert_eq!(login_user(None, &login), Err(ApiError::Unauthorized));
}

#[test]
fn login_with_right_password_issues_claims_for_an_hour() {
    let login = LoginRequest {
        email: "ana@example.com".to_string(),
        password: "correctbatteryhorsestapler".to_string(),
    };
    let claims = login_user(Some(stored_user()), &login).unwrap();
    assert_eq!(claims.sub, Id::from_u128(77));
    assert!(claims.exp > 1_700_000_000 + 3600);
}

#[test]
fn unreadable_stored_hash_is_a_storage_fault() {
    let mut user = stored_user();
    user.password = "plain".to_string();
    let login = LoginRequest { email: "ana@example.com".to_string(), password: "plain".to_string() };
    assert_eq!(login_user(Some(user.clone()), &login), Err(ApiError::Storage));
    assert_eq!(User::authenticate_user(Some(user), "plain"), Err(ApiError::Storage));
}

#[test]
fn authenticate_user_admits_only_on_match() {
    assert_eq!(User::authenticate_user(Some(stored_user()), "correctbatteryhorsestapler"), Ok(Some(stored_user())));
    assert_eq!(User::authenticate_user(Some(stored_user()), "nope"), Ok(None));
    assert_eq!(User::authenticate_user(None, "nope"), Ok(None));
}

#[test]
fn credential_outcomes() {
    assert_eq!(check_credentials(Some(stored_user()), Some(true)), Ok(Some(stored_user())));
    assert_eq!(check_credentials(Some(stored_user()), Some(false)), Ok(None));
    assert_eq!(check_credentials(Some(stored_user()), None), Err(ApiError::Storage));
    assert_eq!(check_credentials(None, Some(true)), Ok(None));
}
