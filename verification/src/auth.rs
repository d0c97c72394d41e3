//! The decisions of the register, login and logout handlers. Each function
//! takes what the request carried and what the data layer answered, and
//! says where the client is sent and which notice it is shown.

use vstd::prelude::*;
use vstd::string::StringExecFns;
use crate::domain::{
    email_fault, form_fault, normalized, EmailError, NewUser, PasswordError, RegistrationForm,
    UserEmail, ValidationError,
};
use crate::flash::{Level, Message};
use crate::hasher::{
    hash, verdict, verification, verify, HashingError, PasswordCheck, VerificationError,
};
use crate::redirect::{landing, local_path, login_url};
use crate::session::{after_login, after_logout, expires_at, parse_session_id, Session, SessionStore};

verus! {

/// What a login request carries.
#[derive(Debug)]
pub struct Credentials {
    /// The account's email address, as typed.
    pub identifier: String,
    pub password: String,
    /// Where the client wants to go after the login.
    pub next: Option<String>,
}

/// A user as the data layer keeps it.
#[derive(Debug)]
pub struct User {
    pub id: u128,
    pub email: String,
    pub password_hash: String,
}

/// A user that is ready to be stored: validated, with the password hashed.
pub struct UserDraft {
    pub id: u128,
    pub email: UserEmail,
    pub password_hash: String,
}

/// The data layer's answer to a search for a user.
#[derive(Debug)]
pub enum Lookup {
    Found(User),
    NotFound,
    Unavailable,
}

/// The data layer's answer to storing a new user.
#[derive(Clone, Copy, Debug, PartialEq, Eq, Structural)]
pub enum SaveOutcome {
    Saved,
    /// The email is taken; nothing was stored.
    Conflict,
    Unavailable,
}

/// How an attempt to log in ended.
#[derive(Debug)]
pub enum Authentication {
    Accepted(User),
    /// Unknown identifier or wrong password: the two are not told apart.
    Rejected,
    /// No verdict could be reached.
    Failed,
}

/// What a handler answers.
#[derive(Debug)]
pub enum Reply {
    /// See-other redirect to `to`, with a notice for the next page.
    Redirect { to: String, flash: Option<Message> },
    /// A failure of the server, with no detail.
    ServerError,
}

/// A reply as plain values.
pub enum ReplyView {
    Redirect { to: Seq<char>, flash: Option<(Level, Seq<char>)> },
    ServerError,
}

impl View for Reply {
    type V = ReplyView;

    open spec fn view(&self) -> ReplyView {
        match *self {
            Reply::Redirect { to, flash } => ReplyView::Redirect {
                to: to@,
                flash: match flash {
                    Some(m) => Some(m@),
                    None => None,
                },
            },
            Reply::ServerError => ReplyView::ServerError,
        }
    }
}

impl Credentials {
    /// The requested target as plain text.
    pub open spec fn requested(&self) -> Option<Seq<char>> {
        match self.next {
            Some(s) => Some(s@),
            None => None,
        }
    }

    /// The address under which to look the user up: the identifier,
    /// normalised as at registration. An identifier that is no address
    /// belongs to nobody.
    pub fn lookup_key(&self) -> (key: Option<UserEmail>)
        ensures
            match key {
                Some(e) => email_fault(normalized(self.identifier@)) is None && e@ == normalized(
                    self.identifier@,
                ),
                None => email_fault(normalized(self.identifier@)) is Some,
            },
    {
        match UserEmail::parse(self.identifier.clone()) {
            Ok(e) => Some(e),
            Err(_) => None,
        }
    }
}

/// The notice for each validation error.
pub open spec fn fault_text(err: ValidationError) -> Seq<char> {
    match err {
        ValidationError::Email(EmailError::Empty) => "Email is required"@,
        ValidationError::Email(EmailError::TooLong) => "Email is too long"@,
        ValidationError::Email(EmailError::DisallowedCharacter) => "Email contains a character that is not allowed"@,
        ValidationError::Email(EmailError::MissingAt) => "Email must contain an @"@,
        ValidationError::Email(EmailError::MisplacedAt) => "Email must have one @ between a name and a domain"@,
        ValidationError::Password(PasswordError::TooShort) => "Password must have at least 8 characters"@,
        ValidationError::Password(PasswordError::TooLong) => "Password must have at most 128 characters"@,
        ValidationError::Password(PasswordError::Blank) => "Password must not be blank"@,
    }
}

/// The notice for a validation error, as text.
pub fn describe(err: ValidationError) -> (text: String)
    ensures
        text@ == fault_text(err),
{
    match err {
        ValidationError::Email(EmailError::Empty) => String::from_str("Email is required"),
        ValidationError::Email(EmailError::TooLong) => String::from_str("Email is too long"),
        ValidationError::Email(EmailError::DisallowedCharacter) => String::from_str(
            "Email contains a character that is not allowed",
        ),
        ValidationError::Email(EmailError::MissingAt) => String::from_str(
            "Email must contain an @",
        ),
        ValidationError::Email(EmailError::MisplacedAt) => String::from_str(
            "Email must have one @ between a name and a domain",
        ),
        ValidationError::Password(PasswordError::TooShort) => String::from_str(
            "Password must have at least 8 characters",
        ),
        ValidationError::Password(PasswordError::TooLong) => String::from_str(
            "Password must have at most 128 characters",
        ),
        ValidationError::Password(PasswordError::Blank) => String::from_str(
            "Password must not be blank",
        ),
    }
}

/// The reply to a registration that failed validation: back to the form,
/// with the reason.
pub open spec fn rejection(err: ValidationError) -> ReplyView {
    ReplyView::Redirect { to: "/register"@, flash: Some((Level::Error, fault_text(err))) }
}

/// The reply once the data layer has answered a registration.
pub open spec fn registration_reply(outcome: SaveOutcome) -> ReplyView {
    match outcome {
        SaveOutcome::Saved => ReplyView::Redirect {
            to: "/"@,
            flash: Some((Level::Success, "Successfully registered account!"@)),
        },
        SaveOutcome::Conflict => ReplyView::Redirect {
            to: "/register"@,
            flash: Some((Level::Error, "An account with this email already exists"@)),
        },
        SaveOutcome::Unavailable => ReplyView::ServerError,
    }
}

/// How an attempt ends for a user that was found, by the verdict on the
/// password.
pub open spec fn settled(user: User, verdict: Result<bool, VerificationError>) -> Authentication {
    match verdict {
        Ok(true) => Authentication::Accepted(user),
        Ok(false) => Authentication::Rejected,
        Err(_) => Authentication::Failed,
    }
}

/// How an attempt with password `password` ends, by the data layer's answer.
pub open spec fn authentication(password: Seq<char>, lookup: Lookup) -> Authentication {
    match lookup {
        Lookup::Found(user) => settled(
            user,
            verdict(verification(password, user.password_hash@)),
        ),
        Lookup::NotFound => Authentication::Rejected,
        Lookup::Unavailable => Authentication::Failed,
    }
}

/// The reply to a login attempt that asked for `next`.
pub open spec fn login_reply(auth: Authentication, next: Option<Seq<char>>) -> ReplyView {
    match auth {
        Authentication::Accepted(user) => ReplyView::Redirect {
            to: landing(next),
            flash: Some((Level::Success, "Successfully logged in as "@ + user.email@)),
        },
        Authentication::Rejected => ReplyView::Redirect {
            to: login_url(next),
            flash: Some((Level::Error, "Invalid credentials"@)),
        },
        Authentication::Failed => ReplyView::ServerError,
    }
}

/// The store after a login attempt: a new session for an accepted user,
/// and no change otherwise.
pub open spec fn login_store(
    sessions: Map<u128, Session>,
    session_id: u128,
    now: u64,
    auth: Authentication,
) -> Map<u128, Session> {
    match auth {
        Authentication::Accepted(user) => after_login(sessions, session_id, user.id, now),
        _ => sessions,
    }
}

/// Calls `uuid::Uuid::new_v4` for a new id, as a number. The id is random:
/// nothing is said of it.
#[verifier::external_body]
pub(crate) fn fresh_id() -> (id: u128) {
    uuid::Uuid::new_v4().as_u128()
}

/// Answers a registration that failed validation.
pub fn rejected(err: ValidationError) -> (reply: Reply)
    ensures
        reply@ == rejection(err),
{
    Reply::Redirect {
        to: String::from_str("/register"),
        flash: Some(Message { level: Level::Error, text: describe(err) }),
    }
}

/// Makes the user to store from a validated address and the result of the
/// hashing job. A hash that could not be had is a failure of the server.
pub fn enrol(email: UserEmail, hashed: Result<String, HashingError>) -> (r: Result<
    UserDraft,
    Reply,
>)
    ensures
        match (hashed, r) {
            (Ok(h), Ok(draft)) => draft.email == email && draft.password_hash == h,
            (Err(_), Err(reply)) => reply@ == ReplyView::ServerError,
            _ => false,
        },
{
    match hashed {
        Ok(password_hash) => Ok(UserDraft { id: fresh_id(), email, password_hash }),
        Err(_) => Err(Reply::ServerError),
    }
}

/// Handles a registration form up to the point where the user is stored.
/// A form that fails validation is answered at once; for a valid form the
/// password is hashed and the user is given a new id.
pub fn register(form: RegistrationForm) -> (r: Result<UserDraft, Reply>)
    ensures
        match r {
            Ok(draft) => {
                &&& form_fault(form.email@, form.password@) is None
                &&& draft.email@ == normalized(form.email@)
                &&& verification(form.password@, draft.password_hash@) == PasswordCheck::Match
            },
            Err(reply) => {
                &&& form_fault(form.email@, form.password@) is Some
                &&& reply@ == rejection(form_fault(form.email@, form.password@).unwrap())
            },
        },
{
    match NewUser::try_from(form) {
        Ok(new_user) => {
            let password_hash = hash(&new_user.password);
            enrol(new_user.email, Ok(password_hash))
        },
        Err(err) => Err(rejected(err)),
    }
}

/// Answers a registration once the data layer has spoken. A taken email is
/// an outcome of its own, told to the user; it is no server error.
pub fn registered(outcome: SaveOutcome) -> (reply: Reply)
    ensures
        reply@ == registration_reply(outcome),
{
    match outcome {
        SaveOutcome::Saved => Reply::Redirect {
            to: String::from_str("/"),
            flash: Some(
                Message {
                    level: Level::Success,
                    text: String::from_str("Successfully registered account!"),
                },
            ),
        },
        SaveOutcome::Conflict => Reply::Redirect {
            to: String::from_str("/register"),
            flash: Some(
                Message {
                    level: Level::Error,
                    text: String::from_str("An account with this email already exists"),
                },
            ),
        },
        SaveOutcome::Unavailable => Reply::ServerError,
    }
}

/// Decides an attempt for a user that was found, from the verdict on the
/// password. An attempt without a verdict fails; it is not a rejection.
pub fn settle(user: User, verdict: Result<bool, VerificationError>) -> (auth: Authentication)
    ensures
        auth == settled(user, verdict),
{
    match verdict {
        Ok(true) => Authentication::Accepted(user),
        Ok(false) => Authentication::Rejected,
        Err(_) => Authentication::Failed,
    }
}

/// Checks the credentials against what the data layer found. An unknown
/// identifier and a wrong password end alike.
pub fn authenticate(creds: &Credentials, lookup: Lookup) -> (auth: Authentication)
    ensures
        auth == authentication(creds.password@, lookup),
{
    match lookup {
        Lookup::Found(user) => {
            let verdict = verify(creds.password.as_str(), user.password_hash.as_str());
            settle(user, verdict)
        },
        Lookup::NotFound => Authentication::Rejected,
        Lookup::Unavailable => Authentication::Failed,
    }
}

/// Ends a login attempt. An accepted user gets a session under
/// `session_id` and is sent to the requested target if that is a local
/// path, and home otherwise. A rejected attempt goes back to the login
/// page, which keeps a usable target; the store is left as it was.
pub fn login(
    store: &mut SessionStore,
    session_id: u128,
    now: u64,
    creds: &Credentials,
    auth: Authentication,
) -> (reply: Reply)
    ensures
        final(store)@ == login_store(old(store)@, session_id, now, auth),
        reply@ == login_reply(auth, creds.requested()),
{
    let usable = match &creds.next {
        Some(s) => local_path(s.as_str()),
        None => false,
    };
    match auth {
        Authentication::Accepted(user) => {
            store.set(session_id, Session { user_id: user.id, expires_at: expires_at(now) });
            let to = match &creds.next {
                Some(s) if usable => s.clone(),
                _ => String::from_str("/"),
            };
            let text = String::from_str("Successfully logged in as ").concat(user.email.as_str());
            Reply::Redirect { to, flash: Some(Message { level: Level::Success, text }) }
        },
        Authentication::Rejected => {
            let to = match &creds.next {
                Some(s) if usable => String::from_str("/login?next=").concat(s.as_str()),
                _ => String::from_str("/login"),
            };
            Reply::Redirect {
                to,
                flash: Some(
                    Message { level: Level::Error, text: String::from_str("Invalid credentials") },
                ),
            }
        },
        Authentication::Failed => Reply::ServerError,
    }
}

/// Ends the session that the request's cookie names, if it names one, and
/// sends the client to the login page.
pub fn logout(store: &mut SessionStore, cookie: Option<&str>) -> (reply: Reply)
    ensures
        final(store)@ == after_logout(
            old(store)@,
            match cookie {
                Some(t) => Some(t@),
                None => None,
            },
        ),
        reply@ == (ReplyView::Redirect { to: "/login"@, flash: None }),
{
    match cookie {
        Some(text) => {
            match parse_session_id(text) {
                Some(id) => { store.delete(id); },
                None => {},
            }
        },
        None => {},
    }
    Reply::Redirect { to: String::from_str("/login"), flash: None }
}

/// A login never sends the client off this site: whatever target the
/// request named, an accepted login redirects to a local path.
pub proof fn login_lands_locally(user: User, next: Option<Seq<char>>)
    ensures
        login_reply(Authentication::Accepted(user), next) matches ReplyView::Redirect { to, .. }
            && crate::redirect::is_local_path(to),
{
    crate::redirect::landing_is_local(next);
}

/// An unknown identifier and a wrong password get the same reply, and
/// neither changes the store.
pub proof fn rejections_look_alike(
    sessions: Map<u128, Session>,
    session_id: u128,
    now: u64,
    password: Seq<char>,
    user: User,
    next: Option<Seq<char>>,
)
    requires
        verification(password, user.password_hash@) == PasswordCheck::Mismatch,
    ensures
        login_reply(authentication(password, Lookup::Found(user)), next) == login_reply(
            authentication(password, Lookup::NotFound),
            next,
        ),
        login_store(sessions, session_id, now, authentication(password, Lookup::Found(user)))
            == sessions,
        login_store(sessions, session_id, now, authentication(password, Lookup::NotFound))
            == sessions,
{
}

} // verus!
