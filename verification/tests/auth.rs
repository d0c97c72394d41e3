use axum_sass_template::auth::{
    authenticate, describe, enrol, login, logout, register, registered, rejected, settle,
    Authentication, Credentials, Lookup, Reply, SaveOutcome, User,
};
use axum_sass_template::domain::{
    EmailError, PasswordError, RegistrationForm, UserEmail, UserPassword, ValidationError,
};
use axum_sass_template::flash::{Level, Messages};
use axum_sass_template::hasher::{hash, verify, HashingError, VerificationError};
use axum_sass_template::session::{protected, Access, AuthState, SessionStore};

const COOKIE: &str = "0000000000000000000000000000002a";

fn form(email: &str, password: &str) -> RegistrationForm {
    RegistrationForm { email: email.to_string(), password: password.to_string() }
}

fn creds(identifier: &str, password: &str, next: Option<&str>) -> Credentials {
    Credentials {
        identifier: identifier.to_string(),
        password: password.to_string(),
        next: next.map(|s| s.to_string()),
    }
}

fn stored_user(email: &str, password: &str) -> User {
    let p = UserPassword::parse(password.to_string()).ok().expect("valid password");
    User { id: 7, email: email.to_string(), password_hash: hash(&p) }
}

fn redirect(reply: Reply) -> (String, Option<(Level, String)>) {
    match reply {
        Reply::Redirect { to, flash } => (to, flash.map(|m| (m.level, m.text))),
        Reply::ServerError => panic!("server error"),
    }
}

#[test]
fn register_scenario() {
    let draft = register(form("A@Example.com", "longenough1")).ok().expect("accepted");
    assert_eq!(draft.email.as_str(), "a@example.com");
    assert_eq!(verify("longenough1", &draft.password_hash), Ok(true));

    let mut flashes = Messages::new();
    let (to, flash) = redirect(registered(SaveOutcome::Saved));
    assert_eq!(to, "/");
    let (level, text) = flash.expect("flash");
    assert_eq!(level, Level::Success);
    flashes.success(text);
    let shown = flashes.take();
    assert_eq!(shown.len(), 1);
    assert_eq!(shown[0].text, "Successfully registered account!");
    assert!(flashes.take().is_empty());

    let again = register(form("A@Example.com", "longenough1")).ok().expect("accepted");
    assert_eq!(again.email.as_str(), draft.email.as_str());
    let (to, flash) = redirect(registered(SaveOutcome::Conflict));
    assert_eq!(to, "/register");
    assert_eq!(
        flash,
        Some((Level::Error, "An account with this email already exists".to_string()))
    );
}

#[test]
fn register_gives_each_user_an_id_of_its_own() {
    let a = register(form("a@example.com", "longenough1")).ok().expect("accepted");
    let b = register(form("b@example.com", "longenough1")).ok().expect("accepted");
    assert_ne!(a.id, b.id);
    assert_ne!(a.password_hash, b.password_hash);
}

#[test]
fn register_invalid_form_goes_back_with_reason() {
    let reply = register(form("nobody", "longenough1")).err().expect("rejected");
    assert_eq!(
        redirect(reply),
        ("/register".to_string(), Some((Level::Error, "Email must contain an @".to_string())))
    );
    let reply = register(form("a@example.com", "short")).err().expect("rejected");
    assert_eq!(
        redirect(reply),
        (
            "/register".to_string(),
            Some((Level::Error, "Password must have at least 8 characters".to_string()))
        )
    );
}

#[test]
fn describe_each_error() {
    assert_eq!(describe(ValidationError::Email(EmailError::Empty)), "Email is required");
    assert_eq!(describe(ValidationError::Email(EmailError::TooLong)), "Email is too long");
    assert_eq!(
        describe(ValidationError::Email(EmailError::DisallowedCharacter)),
        "Email contains a character that is not allowed"
    );
    assert_eq!(describe(ValidationError::Email(EmailError::MissingAt)), "Email must contain an @");
    assert_eq!(
        describe(ValidationError::Email(EmailError::MisplacedAt)),
        "Email must have one @ between a name and a domain"
    );
    assert_eq!(
        describe(ValidationError::Password(PasswordError::TooShort)),
        "Password must have at least 8 characters"
    );
    assert_eq!(
        describe(ValidationError::Password(PasswordError::TooLong)),
        "Password must have at most 128 characters"
    );
    assert_eq!(
        describe(ValidationError::Password(PasswordError::Blank)),
        "Password must not be blank"
    );
}

#[test]
fn registered_unavailable_is_server_error() {
    assert!(matches!(registered(SaveOutcome::Unavailable), Reply::ServerError));
}

#[test]
fn authenticate_right_password() {
    let c = creds("a@example.com", "longenough1", None);
    match authenticate(&c, Lookup::Found(stored_user("a@example.com", "longenough1"))) {
        Authentication::Accepted(user) => assert_eq!(user.id, 7),
        other => panic!("{:?}", other),
    }
}

#[test]
fn authenticate_wrong_password_and_unknown_user_alike() {
    let c = creds("a@example.com", "longenough2", Some("/protected"));
    let wrong = authenticate(&c, Lookup::Found(stored_user("a@example.com", "longenough1")));
    assert!(matches!(wrong, Authentication::Rejected));
    let unknown = authenticate(&c, Lookup::NotFound);
    assert!(matches!(unknown, Authentication::Rejected));

    let mut store = SessionStore::new();
    let a = redirect(login(&mut store, 42, 1000, &c, wrong));
    let b = redirect(login(&mut store, 42, 1000, &c, unknown));
    assert_eq!(a, b);
    assert_eq!(
        a,
        (
            "/login?next=/protected".to_string(),
            Some((Level::Error, "Invalid credentials".to_string()))
        )
    );
    assert_eq!(store.get(42), None);
}

#[test]
fn authenticate_corrupt_hash_or_no_data_layer_fails() {
    let c = creds("a@example.com", "longenough1", None);
    let corrupt =
        User { id: 7, email: "a@example.com".to_string(), password_hash: "corrupt".to_string() };
    assert!(matches!(authenticate(&c, Lookup::Found(corrupt)), Authentication::Failed));
    assert!(matches!(authenticate(&c, Lookup::Unavailable), Authentication::Failed));
    let mut store = SessionStore::new();
    assert!(matches!(
        login(&mut store, 42, 1000, &c, Authentication::Failed),
        Reply::ServerError
    ));
    assert_eq!(store.get(42), None);
}

#[test]
fn settle_each_answer() {
    let user = || User { id: 1, email: "a@b.c".to_string(), password_hash: String::new() };
    assert!(matches!(settle(user(), Ok(true)), Authentication::Accepted(_)));
    assert!(matches!(settle(user(), Ok(false)), Authentication::Rejected));
    assert!(matches!(
        settle(user(), Err(VerificationError::MalformedHash)),
        Authentication::Failed
    ));
    assert!(matches!(
        settle(user(), Err(VerificationError::WorkerUnavailable)),
        Authentication::Failed
    ));
}

#[test]
fn enrol_with_hash_gives_draft() {
    let email = UserEmail::parse("a@example.com".to_string()).ok().expect("valid");
    let draft = enrol(email, Ok("stored-hash".to_string())).ok().expect("draft");
    assert_eq!(draft.email.as_str(), "a@example.com");
    assert_eq!(draft.password_hash, "stored-hash");
}

#[test]
fn enrol_without_hash_is_server_error() {
    let email = UserEmail::parse("a@example.com".to_string()).ok().expect("valid");
    let reply = enrol(email, Err(HashingError::WorkerUnavailable)).err().expect("no draft");
    assert!(matches!(reply, Reply::ServerError));
}

#[test]
fn rejected_goes_back_to_the_form() {
    assert_eq!(
        redirect(rejected(ValidationError::Password(PasswordError::Blank))),
        ("/register".to_string(), Some((Level::Error, "Password must not be blank".to_string())))
    );
}

#[test]
fn lookup_key_is_the_normalised_identifier() {
    let c = creds("  A@Example.com ", "longenough1", None);
    assert_eq!(c.lookup_key().map(|e| e.as_str().to_string()), Some("a@example.com".to_string()));
    let c = creds("nobody", "longenough1", None);
    assert!(c.lookup_key().is_none());
}

#[test]
fn login_with_next_goes_there() {
    let mut store = SessionStore::new();
    let c = creds("a@example.com", "longenough1", Some("/protected"));
    let auth = authenticate(&c, Lookup::Found(stored_user("a@example.com", "longenough1")));
    let reply = login(&mut store, 42, 1000, &c, auth);
    assert_eq!(
        redirect(reply),
        (
            "/protected".to_string(),
            Some((Level::Success, "Successfully logged in as a@example.com".to_string()))
        )
    );
}

#[test]
fn login_with_foreign_next_goes_home() {
    let mut store = SessionStore::new();
    let c = creds("a@example.com", "longenough1", Some("https://evil.example"));
    let auth = authenticate(&c, Lookup::Found(stored_user("a@example.com", "longenough1")));
    let (to, _) = redirect(login(&mut store, 42, 1000, &c, auth));
    assert_eq!(to, "/");
    let c = creds("a@example.com", "longenough2", Some("https://evil.example"));
    let (to, _) = redirect(login(&mut store, 43, 1000, &c, Authentication::Rejected));
    assert_eq!(to, "/login");
}

#[test]
fn login_without_next_goes_home() {
    let mut store = SessionStore::new();
    let c = creds("a@example.com", "longenough1", None);
    let auth = authenticate(&c, Lookup::Found(stored_user("a@example.com", "longenough1")));
    let (to, _) = redirect(login(&mut store, 42, 1000, &c, auth));
    assert_eq!(to, "/");
    let (to, _) = redirect(login(&mut store, 43, 1000, &c, Authentication::Rejected));
    assert_eq!(to, "/login");
}

#[test]
fn login_then_protected_then_logout() {
    let mut store = SessionStore::new();
    assert_eq!(store.resolve(Some(COOKIE), 1000), AuthState::Anonymous);
    let c = creds("a@example.com", "longenough1", None);
    let auth = authenticate(&c, Lookup::Found(stored_user("a@example.com", "longenough1")));
    login(&mut store, 0x2a, 1000, &c, auth);

    let state = store.resolve(Some(COOKIE), 1001);
    assert_eq!(state, AuthState::Authenticated { user_id: 7 });
    assert!(matches!(protected(state, "/protected"), Access::Granted { user_id: 7 }));
    assert_eq!(store.resolve(Some(COOKIE), 1000 + 86399), AuthState::Authenticated { user_id: 7 });
    assert_eq!(store.resolve(Some(COOKIE), 1000 + 86400), AuthState::Anonymous);

    let (to, flash) = redirect(logout(&mut store, Some(COOKIE)));
    assert_eq!(to, "/login");
    assert_eq!(flash, None);
    let state = store.resolve(Some(COOKIE), 1001);
    assert_eq!(state, AuthState::Anonymous);
    match protected(state, "/protected") {
        Access::Redirect { to } => assert_eq!(to, "/login?next=/protected"),
        Access::Granted { .. } => panic!("still logged in"),
    }
}

#[test]
fn logout_without_session_changes_nothing() {
    let mut store = SessionStore::new();
    let c = creds("a@example.com", "longenough1", None);
    let auth = authenticate(&c, Lookup::Found(stored_user("a@example.com", "longenough1")));
    login(&mut store, 0x2a, 1000, &c, auth);
    let (to, _) = redirect(logout(&mut store, None));
    assert_eq!(to, "/login");
    redirect(logout(&mut store, Some("garbage")));
    redirect(logout(&mut store, Some("0000000000000000000000000000002b")));
    assert_eq!(store.resolve(Some(COOKIE), 1001), AuthState::Authenticated { user_id: 7 });
}
