use kms_service::auth::login;
use kms_service::errors::AppError;
use kms_service::value_objects::{Email, SessionToken, SessionTtl, UserId};

#[test]
fn test_user_id_from_value_objects() {
    let hex = "507f1f77bcf86cd799439011";
    let res = UserId::parse(hex);
    assert!(res.is_ok());
    assert_eq!(res.unwrap().to_hex(), hex);
}

#[test]
fn test_email_validation_in_auth() {
    let valid_email = Email::new("test@zeroday.pl".to_string());
    assert!(valid_email.is_ok());

    let invalid_email = Email::new("wrong-email".to_string());
    assert!(invalid_email.is_err());
}

#[test]
fn test_session_token_generation_logic() {
    let token = SessionToken::generate();
    assert_eq!(token.as_str().len(), 64);

    let manual_token = SessionToken::new("a".repeat(32));
    assert!(manual_token.is_ok());
}

#[test]
fn test_session_ttl_mapping() {
    let ttl = SessionTtl::from_secs(3600);
    assert_eq!(ttl.as_secs(), 3600);
}

#[test]
fn email_is_trimmed_and_lowercased() {
    let email = Email::new("  Alice@Example.COM \n".to_string()).unwrap();
    assert_eq!(email.as_str(), "alice@example.com");
    assert_eq!(email.into_inner(), "alice@example.com");
}

#[test]
fn email_of_spaces_is_refused() {
    match Email::new("   ".to_string()) {
        Err(AppError::ValidationError(m)) => assert_eq!(m, "Invalid email format"),
        _ => panic!("expected a validation error"),
    }
}

#[test]
fn session_token_too_short_or_spaced_is_refused() {
    assert!(SessionToken::new("a".repeat(31)).is_err());
    let spaced = format!("{} {}", "a".repeat(20), "b".repeat(20));
    match SessionToken::new(spaced) {
        Err(AppError::ValidationError(m)) => assert_eq!(m, "Invalid session token"),
        _ => panic!("expected a validation error"),
    }
}

#[test]
fn generated_tokens_are_alphanumeric_and_accepted() {
    let token = SessionToken::generate();
    assert!(token.as_str().chars().all(|c| c.is_ascii_alphanumeric()));
    assert!(SessionToken::new(token.as_str().to_string()).is_ok());
    let other = SessionToken::generate();
    assert_ne!(token.as_str(), other.as_str());
}

#[test]
fn blank_user_id_is_refused_and_text_is_kept() {
    match UserId::parse(" \t ") {
        Err(AppError::ValidationError(m)) => assert_eq!(m, "UserId cannot be empty"),
        _ => panic!("expected a validation error"),
    }
    let id = UserId::parse(" abc ").unwrap();
    assert_eq!(id.as_inner(), " abc ");
    assert_eq!(UserId::new("x".to_string()).into_inner(), "x");
}

#[test]
fn login_is_always_refused() {
    assert!(matches!(login(), Err(AppError::Unauthorized)));
}

#[test]
fn email_converts_to_its_text() {
    let e = Email::new("Bob@Example.org".to_string()).unwrap();
    assert_eq!(e.clone().into_inner(), e.as_str().to_string());
    assert_eq!(String::from(e.clone()), e.as_str());
    assert_eq!(e.to_text(), e.as_str());
    assert_eq!(AsRef::<str>::as_ref(&e), "bob@example.org");
    assert_eq!(e.clone(), e);
}
