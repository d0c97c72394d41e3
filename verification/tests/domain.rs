use axum_sass_template::domain::{
    EmailError, NewUser, PasswordError, RegistrationForm, UserEmail, UserPassword, ValidationError,
};

fn email(raw: &str) -> Result<String, EmailError> {
    UserEmail::parse(raw.to_string()).map(|e| e.as_str().to_string())
}

fn password(raw: &str) -> Result<String, PasswordError> {
    UserPassword::parse(raw.to_string()).map(|p| p.expose().to_string())
}

#[test]
fn email_is_trimmed_and_lowered() {
    assert_eq!(email("  A@Example.com \t\n"), Ok("a@example.com".to_string()));
    assert_eq!(email("A@Example.com"), Ok("a@example.com".to_string()));
    assert_eq!(email("first.last+tag@Sub.Example.ORG"), Ok("first.last+tag@sub.example.org".to_string()));
}

#[test]
fn email_already_normal_is_unchanged() {
    assert_eq!(email("a@example.com"), Ok("a@example.com".to_string()));
}

#[test]
fn email_empty_is_rejected() {
    assert_eq!(email(""), Err(EmailError::Empty));
    assert_eq!(email("   \t "), Err(EmailError::Empty));
}

#[test]
fn email_without_at_is_rejected() {
    assert_eq!(email("no-at.example.com"), Err(EmailError::MissingAt));
}

#[test]
fn email_with_misplaced_at_is_rejected() {
    assert_eq!(email("@"), Err(EmailError::MisplacedAt));
    assert_eq!(email("@example.com"), Err(EmailError::MisplacedAt));
    assert_eq!(email("a@"), Err(EmailError::MisplacedAt));
    assert_eq!(email("a@b@example.com"), Err(EmailError::MisplacedAt));
    assert_eq!(email(" a@@b "), Err(EmailError::MisplacedAt));
    assert_eq!(email("a@b"), Ok("a@b".to_string()));
}

#[test]
fn email_characters_are_checked_before_at() {
    assert_eq!(email("a b"), Err(EmailError::DisallowedCharacter));
    assert_eq!(email("a b@@"), Err(EmailError::DisallowedCharacter));
}

#[test]
fn email_too_long_is_rejected() {
    let long = format!("{}@example.com", "a".repeat(243));
    assert_eq!(long.len(), 255);
    assert_eq!(email(&long), Err(EmailError::TooLong));
    let fits = format!("{}@example.com", "a".repeat(242));
    assert_eq!(email(&fits), Ok(fits.clone()));
}

#[test]
fn email_with_disallowed_character_is_rejected() {
    assert_eq!(email("a b@example.com"), Err(EmailError::DisallowedCharacter));
    assert_eq!(email("a<b>@example.com"), Err(EmailError::DisallowedCharacter));
    assert_eq!(email("\u{e9}@example.com"), Err(EmailError::DisallowedCharacter));
}

#[test]
fn email_length_is_checked_before_characters() {
    let long = format!("{} {}", "a".repeat(200), "b".repeat(100));
    assert_eq!(email(&long), Err(EmailError::TooLong));
}

#[test]
fn password_length_bounds() {
    assert_eq!(password("short"), Err(PasswordError::TooShort));
    assert_eq!(password("1234567"), Err(PasswordError::TooShort));
    assert_eq!(password("12345678"), Ok("12345678".to_string()));
    let longest = "x".repeat(128);
    assert_eq!(password(&longest), Ok(longest.clone()));
    assert_eq!(password(&"x".repeat(129)), Err(PasswordError::TooLong));
}

#[test]
fn password_of_whitespace_is_rejected() {
    assert_eq!(password("        "), Err(PasswordError::Blank));
    assert_eq!(password(" \t\n\r \t\n\r"), Err(PasswordError::Blank));
    assert_eq!(password("   "), Err(PasswordError::TooShort));
    assert_eq!(password("       x"), Ok("       x".to_string()));
}

#[test]
fn password_is_kept_as_typed() {
    assert_eq!(password("  LongEnough1 "), Ok("  LongEnough1 ".to_string()));
}

#[test]
fn form_reports_email_before_password() {
    let both_bad = RegistrationForm { email: "nobody".to_string(), password: "x".to_string() };
    assert_eq!(
        NewUser::try_from(both_bad).err(),
        Some(ValidationError::Email(EmailError::MissingAt))
    );
    let bad_password = RegistrationForm { email: "a@b.c".to_string(), password: "x".to_string() };
    assert_eq!(
        NewUser::try_from(bad_password).err(),
        Some(ValidationError::Password(PasswordError::TooShort))
    );
}

#[test]
fn form_that_is_valid_gives_new_user() {
    let form =
        RegistrationForm { email: " A@Example.com".to_string(), password: "longenough1".to_string() };
    let user = NewUser::try_from(form).ok().expect("valid form");
    assert_eq!(user.email.as_str(), "a@example.com");
    assert_eq!(user.password.expose(), "longenough1");
}
