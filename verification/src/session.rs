//! The session store and the guard that reads it. A session binds an opaque
//! id, which the client holds in a cookie, to a user and an expiry. A client
//! is authenticated exactly while its cookie names a live session.

use vstd::prelude::*;
use std::collections::HashMap;
use vstd::string::StringExecFns;
use crate::redirect::{local_path, login_url};
use crate::text::push_char;

verus! {

broadcast use vstd::std_specs::hash::group_hash_axioms;

/// The number of hexadecimal digits in a session cookie.
pub const SESSION_ID_DIGITS: usize = 32;

/// How long a session lives after login, in seconds.
pub const SESSION_TTL: u64 = 86400;

/// What the store keeps for a session id.
#[derive(Clone, Copy, Debug, PartialEq, Eq, Structural)]
pub struct Session {
    pub user_id: u128,
    /// The first second at which the session is no longer live.
    pub expires_at: u64,
}

/// What the guard found out about a request.
#[derive(Clone, Copy, Debug, PartialEq, Eq, Structural)]
pub enum AuthState {
    Anonymous,
    Authenticated { user_id: u128 },
}

/// What a route that needs a user answers.
#[derive(Debug)]
pub enum Access {
    Granted { user_id: u128 },
    /// Go to the login page at `to`.
    Redirect { to: String },
}

/// A lowercase hexadecimal digit.
pub open spec fn is_hex(c: char) -> bool {
    ('0' <= c && c <= '9') || ('a' <= c && c <= 'f')
}

/// The number that a hexadecimal digit stands for.
pub open spec fn hex_digit(c: char) -> u128 {
    if '0' <= c && c <= '9' {
        (c as u8 - 48) as u128
    } else {
        (c as u8 - 87) as u128
    }
}

/// The number that the hexadecimal digits of `s` spell, most significant
/// digit first.
pub open spec fn hex_value(s: Seq<char>) -> u128
    decreases s.len(),
{
    if s.len() == 0 {
        0
    } else {
        (hex_value(s.drop_last()) << 4) | hex_digit(s.last())
    }
}

/// The digit for a number below sixteen.
pub open spec fn hex_char(d: u128) -> char {
    if d < 10 {
        (48 + d) as char
    } else {
        (87 + d) as char
    }
}

/// The `i`-th group of four bits of `id`, counted from the most significant.
pub open spec fn nibble(id: u128, i: int) -> u128 {
    (id >> ((4 * (31 - i)) as u128)) & 0xf
}

/// The cookie that carries session id `id`.
pub open spec fn cookie_text(id: u128) -> Seq<char> {
    Seq::new(SESSION_ID_DIGITS as nat, |i: int| hex_char(nibble(id, i)))
}

/// A well-formed cookie: exactly `SESSION_ID_DIGITS` lowercase hexadecimal
/// digits.
pub open spec fn is_session_cookie(s: Seq<char>) -> bool {
    s.len() == SESSION_ID_DIGITS && forall|i: int| 0 <= i < s.len() ==> is_hex(#[trigger] s[i])
}

/// The session id that a request carries, if any: none without a cookie
/// and none with a malformed one.
pub open spec fn session_id_of(cookie: Option<Seq<char>>) -> Option<u128> {
    match cookie {
        Some(s) if is_session_cookie(s) => Some(hex_value(s)),
        _ => None,
    }
}

/// The state of a request that carries session id `id` at time `now`:
/// authenticated exactly if the store holds the id and the session has not
/// expired.
pub open spec fn state_of(sessions: Map<u128, Session>, id: Option<u128>, now: u64) -> AuthState {
    match id {
        Some(i) if sessions.contains_key(i) && now < sessions[i].expires_at => {
            AuthState::Authenticated { user_id: sessions[i].user_id }
        },
        _ => AuthState::Anonymous,
    }
}

/// The state of a request with the given cookie.
pub open spec fn resolved(sessions: Map<u128, Session>, cookie: Option<Seq<char>>, now: u64)
    -> AuthState {
    state_of(sessions, session_id_of(cookie), now)
}

/// When a session that starts at `now` expires. The clock's end is the
/// latest expiry there is.
pub open spec fn expiry(now: u64) -> u64 {
    if now > u64::MAX - SESSION_TTL {
        u64::MAX
    } else {
        (now + SESSION_TTL) as u64
    }
}

/// The store after a login: `id` is bound to `user_id` until the expiry.
pub open spec fn after_login(sessions: Map<u128, Session>, id: u128, user_id: u128, now: u64)
    -> Map<u128, Session> {
    sessions.insert(id, Session { user_id, expires_at: expiry(now) })
}

/// The store after the request with `cookie` logged out.
pub open spec fn after_logout(sessions: Map<u128, Session>, cookie: Option<Seq<char>>) -> Map<
    u128,
    Session,
> {
    match session_id_of(cookie) {
        Some(id) => sessions.remove(id),
        None => sessions,
    }
}

/// The store after the guard has seen a request: the session that the
/// cookie names is forgotten if it has expired, and nothing else changes.
pub open spec fn swept(sessions: Map<u128, Session>, cookie: Option<Seq<char>>, now: u64) -> Map<
    u128,
    Session,
> {
    match session_id_of(cookie) {
        Some(id) if sessions.contains_key(id) && sessions[id].expires_at <= now => sessions.remove(
            id,
        ),
        _ => sessions,
    }
}

/// Reads a session id from a cookie's text.
pub fn parse_session_id(text: &str) -> (id: Option<u128>)
    ensures
        id == session_id_of(Some(text@)),
{
    let n: usize = text.unicode_len();
    if n != SESSION_ID_DIGITS {
        return None;
    }
    let mut acc: u128 = 0;
    let mut k: usize = 0;
    while k < n
        invariant
            k <= n,
            n == text@.len(),
            forall|i: int| 0 <= i < k ==> is_hex(#[trigger] text@[i]),
            acc == hex_value(text@.subrange(0, k as int)),
        decreases n - k,
    {
        let c = text.get_char(k);
        let d: u128 = if '0' <= c && c <= '9' {
            (c as u8 - 48) as u128
        } else if 'a' <= c && c <= 'f' {
            (c as u8 - 87) as u128
        } else {
            return None;
        };
        assert(text@.subrange(0, k + 1).drop_last() =~= text@.subrange(0, k as int));
        acc = (acc << 4) | d;
        k = k + 1;
    }
    assert(text@.subrange(0, n as int) =~= text@);
    Some(acc)
}

/// Writes a session id as the text of its cookie.
pub fn session_cookie(id: u128) -> (text: String)
    ensures
        text@ == cookie_text(id),
{
    let mut out = String::new();
    let mut k: usize = 0;
    while k < SESSION_ID_DIGITS
        invariant
            k <= SESSION_ID_DIGITS,
            out@ == cookie_text(id).subrange(0, k as int),
        decreases SESSION_ID_DIGITS - k,
    {
        let shift: u128 = 4 * (31 - k as u128);
        let d: u128 = (id >> shift) & 0xf;
        assert(d < 16) by (bit_vector)
            requires
                d == (id >> shift) & 0xf,
        ;
        let c = if d < 10 {
            (48 + d as u8) as char
        } else {
            (87 + d as u8) as char
        };
        assert(c == hex_char(nibble(id, k as int)));
        push_char(&mut out, c);
        assert(out@ =~= cookie_text(id).subrange(0, k + 1));
        k = k + 1;
    }
    assert(cookie_text(id).subrange(0, SESSION_ID_DIGITS as int) =~= cookie_text(id));
    out
}

/// When a session that starts at `now` expires.
pub fn expires_at(now: u64) -> (at: u64)
    ensures
        at == expiry(now),
{
    if now > u64::MAX - SESSION_TTL {
        u64::MAX
    } else {
        now + SESSION_TTL
    }
}

/// The sessions that are known, by id.
pub struct SessionStore {
    sessions: HashMap<u128, Session>,
}

impl View for SessionStore {
    type V = Map<u128, Session>;

    closed spec fn view(&self) -> Map<u128, Session> {
        self.sessions@
    }
}

impl SessionStore {
    /// A store without sessions.
    pub fn new() -> (store: SessionStore)
        ensures
            store@ == Map::<u128, Session>::empty(),
    {
        SessionStore { sessions: HashMap::new() }
    }

    /// The session kept for `id`, if there is one.
    pub fn get(&self, id: u128) -> (found: Option<Session>)
        ensures
            found == (if self@.contains_key(id) {
                Some(self@[id])
            } else {
                None
            }),
    {
        match self.sessions.get(&id) {
            Some(s) => Some(*s),
            None => None,
        }
    }

    /// Binds `id` to `session`, in place of what it was bound to.
    pub fn set(&mut self, id: u128, session: Session)
        ensures
            final(self)@ == old(self)@.insert(id, session),
    {
        self.sessions.insert(id, session);
    }

    /// Forgets `id`.
    pub fn delete(&mut self, id: u128)
        ensures
            final(self)@ == old(self)@.remove(id),
    {
        self.sessions.remove(&id);
    }

    /// The guard: derives the state of a request from its cookie alone. A
    /// missing, malformed, unknown or expired cookie makes the request
    /// anonymous; none of them is an error. A session found expired is
    /// forgotten, so that it stays dead whatever the clock does.
    pub fn resolve(&mut self, cookie: Option<&str>, now: u64) -> (state: AuthState)
        ensures
            state == resolved(
                old(self)@,
                match cookie {
                    Some(t) => Some(t@),
                    None => None,
                },
                now,
            ),
            final(self)@ == swept(
                old(self)@,
                match cookie {
                    Some(t) => Some(t@),
                    None => None,
                },
                now,
            ),
    {
        let text = match cookie {
            Some(t) => t,
            None => { return AuthState::Anonymous; },
        };
        let id = match parse_session_id(text) {
            Some(i) => i,
            None => { return AuthState::Anonymous; },
        };
        match self.get(id) {
            Some(s) => {
                if now < s.expires_at {
                    AuthState::Authenticated { user_id: s.user_id }
                } else {
                    self.delete(id);
                    AuthState::Anonymous
                }
            },
            None => AuthState::Anonymous,
        }
    }
}

/// What a protected route answers to a request for `path` in the given
/// state.
pub open spec fn access(state: AuthState, path: Seq<char>) -> (Option<u128>, Seq<char>) {
    match state {
        AuthState::Authenticated { user_id } => (Some(user_id), Seq::empty()),
        AuthState::Anonymous => (None, login_url(Some(path))),
    }
}

impl Access {
    /// The user that was let in, if any, and else the address to go to.
    pub open spec fn view(&self) -> (Option<u128>, Seq<char>) {
        match *self {
            Access::Granted { user_id } => (Some(user_id), Seq::empty()),
            Access::Redirect { to } => (None, to@),
        }
    }
}

/// A route that needs a user: lets an authenticated request in, and sends an
/// anonymous one to the login page, which gets the requested path as the
/// place to come back to.
pub fn protected(state: AuthState, path: &str) -> (r: Access)
    ensures
        r@ == access(state, path@),
{
    match state {
        AuthState::Authenticated { user_id } => Access::Granted { user_id },
        AuthState::Anonymous => {
            if local_path(path) {
                Access::Redirect { to: String::from_str("/login?next=").concat(path) }
            } else {
                Access::Redirect { to: String::from_str("/login") }
            }
        },
    }
}

/// The first `k` digits of a cookie spell the top `4 * k` bits of its id.
pub proof fn lemma_cookie_prefix(id: u128, k: int)
    requires
        1 <= k <= SESSION_ID_DIGITS,
    ensures
        hex_value(cookie_text(id).subrange(0, k)) == id >> ((4 * (32 - k)) as u128),
    decreases k,
{
    let text = cookie_text(id);
    let head = text.subrange(0, k);
    let s: u128 = (4 * (32 - k)) as u128;
    let n: u128 = (id >> s) & 0xf;
    assert(head.last() == hex_char(nibble(id, k - 1)));
    assert(nibble(id, k - 1) == n);
    assert(n < 16) by (bit_vector)
        requires
            n == (id >> s) & 0xf,
    ;
    assert(hex_digit(hex_char(n)) == n);
    assert(head.drop_last() =~= text.subrange(0, k - 1));
    if k == 1 {
        assert(hex_value(text.subrange(0, 0)) == 0);
        assert((0u128 << 4) | ((id >> 124) & 0xf) == id >> 124) by (bit_vector);
    } else {
        lemma_cookie_prefix(id, k - 1);
        let up: u128 = (4 * (33 - k)) as u128;
        assert(up == s + 4);
        assert(((id >> up) << 4) | ((id >> s) & 0xf) == id >> s) by (bit_vector)
            requires
                s <= 120,
                up == s + 4,
        ;
    }
}

/// A cookie written for an id is well formed and is read back as that id.
pub proof fn cookie_round_trip(id: u128)
    ensures
        is_session_cookie(cookie_text(id)),
        session_id_of(Some(cookie_text(id))) == Some(id),
{
    let text = cookie_text(id);
    assert forall|i: int| 0 <= i < text.len() implies is_hex(#[trigger] text[i]) by {
        let s: u128 = (4 * (31 - i)) as u128;
        let n: u128 = (id >> s) & 0xf;
        assert(n < 16) by (bit_vector)
            requires
                n == (id >> s) & 0xf,
        ;
        assert(text[i] == hex_char(n));
    }
    lemma_cookie_prefix(id, SESSION_ID_DIGITS as int);
    assert(text.subrange(0, SESSION_ID_DIGITS as int) =~= text);
    assert(id >> 0 == id) by (bit_vector);
}

/// After a login the request that carries the session's cookie is let into
/// a protected route until the session expires; after a logout with that
/// cookie the same request is sent to the login page.
pub proof fn login_then_logout(
    sessions: Map<u128, Session>,
    cookie: Seq<char>,
    user_id: u128,
    now: u64,
    later: u64,
    path: Seq<char>,
)
    requires
        is_session_cookie(cookie),
        later < expiry(now),
    ensures
        access(
            resolved(after_login(sessions, hex_value(cookie), user_id, now), Some(cookie), later),
            path,
        ) == (Some(user_id), Seq::<char>::empty()),
        access(
            resolved(
                after_logout(
                    after_login(sessions, hex_value(cookie), user_id, now),
                    Some(cookie),
                ),
                Some(cookie),
                later,
            ),
            path,
        ) == (None::<u128>, login_url(Some(path))),
{
}

/// A request without a cookie, with a malformed one, or with one that the
/// store does not know is anonymous, whatever the store holds.
pub proof fn stranger_is_anonymous(sessions: Map<u128, Session>, cookie: Option<Seq<char>>, now: u64)
    requires
        cookie is None || !is_session_cookie(cookie.unwrap()) || !sessions.contains_key(
            hex_value(cookie.unwrap()),
        ),
    ensures
        resolved(sessions, cookie, now) == AuthState::Anonymous,
{
}

/// A session is never live at or after its expiry, and once the guard has
/// seen it expired it is anonymous at every time.
pub proof fn expired_is_anonymous(
    sessions: Map<u128, Session>,
    cookie: Seq<char>,
    now: u64,
    other_time: u64,
)
    requires
        is_session_cookie(cookie),
        sessions.contains_key(hex_value(cookie)),
        sessions[hex_value(cookie)].expires_at <= now,
    ensures
        resolved(sessions, Some(cookie), now) == AuthState::Anonymous,
        resolved(swept(sessions, Some(cookie), now), Some(cookie), other_time)
            == AuthState::Anonymous,
{
}

/// The guard leaves a live session, and every session of another cookie,
/// as it found them.
pub proof fn guard_keeps_live_sessions(
    sessions: Map<u128, Session>,
    cookie: Option<Seq<char>>,
    now: u64,
)
    requires
        resolved(sessions, cookie, now) is Authenticated,
    ensures
        swept(sessions, cookie, now) == sessions,
{
}

} // verus!
