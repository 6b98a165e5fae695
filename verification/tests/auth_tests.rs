use open_donate::auth::{
    form_error_text, login_decision, new_user, prepare_registration, registration_db_error,
    validate_registration, AuthError, StoredCredentials, User,
};

fn user() -> User {
    User { id: "u1".to_string(), name: "kim".to_string(), email: "kim@example.com".to_string() }
}

#[test]
fn registration_validation() {
    assert_eq!(validate_registration("secret1", "secret2"), Err(AuthError::PasswordMismatch));
    assert_eq!(validate_registration("abc", "abd"), Err(AuthError::PasswordMismatch));
    assert_eq!(validate_registration("abcde", "abcde"), Err(AuthError::WeakPassword));
    assert_eq!(validate_registration("abcdef", "abcdef"), Ok(()));
    // six bytes, fewer characters
    assert_eq!(validate_registration("ééé", "ééé"), Ok(()));
    assert_eq!(validate_registration("éé", "éé"), Err(AuthError::WeakPassword));
}

#[test]
fn error_messages() {
    assert_eq!(AuthError::PasswordMismatch.message(), "Passwords do not match.");
    assert_eq!(AuthError::WeakPassword.message(), "Password is too weak (minimum 6 characters).");
    assert_eq!(AuthError::HashFailed.message(), "Failed to hash password");
    assert_eq!(AuthError::EmailTaken.message(), "This email is already registered.");
    assert_eq!(AuthError::RegistrationFailed.message(), "Registration failed due to database error.");
    assert_eq!(AuthError::InvalidCredentials.message(), "Invalid email or password.");
    assert_eq!(AuthError::HashFormat.message(), "Password hash error");
}

#[test]
fn registered_password_signs_in() {
    let hash = prepare_registration("hunter42", "hunter42").expect("hashing works");
    assert!(hash.starts_with("$argon2id$"));
    let rec = StoredCredentials { user: user(), password_hash: hash.clone() };
    assert_eq!(login_decision(Some(rec), "hunter42"), Ok(user()));
    let rec = StoredCredentials { user: user(), password_hash: hash };
    assert_eq!(login_decision(Some(rec), "hunter43"), Err(AuthError::InvalidCredentials));
}

#[test]
fn registration_errors_before_hashing() {
    assert_eq!(prepare_registration("a", "b"), Err(AuthError::PasswordMismatch));
    assert_eq!(prepare_registration("short", "short"), Err(AuthError::WeakPassword));
}

#[test]
fn login_unknown_email_and_bad_hash() {
    assert_eq!(login_decision(None, "whatever"), Err(AuthError::InvalidCredentials));
    let rec = StoredCredentials { user: user(), password_hash: "not a phc string".to_string() };
    assert_eq!(login_decision(Some(rec), "whatever"), Err(AuthError::HashFormat));
}

#[test]
fn new_user_name_from_email() {
    let u = new_user("id-1".to_string(), "neon.viper@mail.com".to_string());
    assert_eq!(u.id, "id-1");
    assert_eq!(u.name, "neon.viper");
    assert_eq!(u.email, "neon.viper@mail.com");
    let u = new_user("id-2".to_string(), "plain".to_string());
    assert_eq!(u.name, "plain");
    let u = new_user("id-3".to_string(), "@x".to_string());
    assert_eq!(u.name, "");
}

#[test]
fn db_error_mapping() {
    assert_eq!(registration_db_error(Some("23505")), AuthError::EmailTaken);
    assert_eq!(registration_db_error(Some("23503")), AuthError::RegistrationFailed);
    assert_eq!(registration_db_error(None), AuthError::RegistrationFailed);
}

#[test]
fn form_error_prefix_removed() {
    assert_eq!(form_error_text("error: Invalid email or password."), "Invalid email or password.");
    assert_eq!(form_error_text("server error: error: x"), "server x");
    assert_eq!(form_error_text("no prefix"), "no prefix");
    assert_eq!(form_error_text("error:error: "), "error:");
}
