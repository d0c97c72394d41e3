//! Validated value types for credentials. A value of `Email` or `Password`
//! exists only if the text it holds passed validation.

use vstd::prelude::*;
use crate::text::{
    all_space, char_is_space, char_lower, is_space, lowered, push_char, trim_bounds, trimmed,
};

verus! {

/// Longest accepted email address, in characters.
pub const MAX_EMAIL_LEN: usize = 254;

/// Shortest accepted password, in characters.
pub const MIN_PASSWORD_LEN: usize = 8;

/// Longest accepted password, in characters; it bounds the cost of hashing.
pub const MAX_PASSWORD_LEN: usize = 128;

#[derive(Clone, Copy, Debug, PartialEq, Eq, Structural)]
pub enum EmailError {
    /// Nothing is left after trimming.
    Empty,
    /// More than `MAX_EMAIL_LEN` characters.
    TooLong,
    /// A character outside the accepted set.
    DisallowedCharacter,
    /// No `@`.
    MissingAt,
    /// More than one `@`, or nothing before or nothing after it.
    MisplacedAt,
}

#[derive(Clone, Copy, Debug, PartialEq, Eq, Structural)]
pub enum PasswordError {
    /// Fewer than `MIN_PASSWORD_LEN` characters.
    TooShort,
    /// More than `MAX_PASSWORD_LEN` characters.
    TooLong,
    /// Nothing but whitespace.
    Blank,
}

#[derive(Clone, Copy, Debug, PartialEq, Eq, Structural)]
pub enum ValidationError {
    Email(EmailError),
    Password(PasswordError),
}

/// The characters an address may hold: ASCII letters and digits, `@`, and
/// the punctuation of an unquoted local part.
pub open spec fn allowed(c: char) -> bool {
    ('a' <= c && c <= 'z') || ('A' <= c && c <= 'Z') || ('0' <= c && c <= '9') || c == '@'
        || c == '.' || c == '!' || c == '#' || c == '$' || c == '%' || c == '&' || c == '\''
        || c == '*' || c == '+' || c == '/' || c == '=' || c == '?' || c == '^' || c == '_'
        || c == '`' || c == '{' || c == '|' || c == '}' || c == '~' || c == '-'
}

pub open spec fn all_allowed(s: Seq<char>) -> bool {
    forall|i: int| 0 <= i < s.len() ==> allowed(#[trigger] s[i])
}

/// How many `@` the text holds.
pub open spec fn at_count(s: Seq<char>) -> nat
    decreases s.len(),
{
    if s.len() == 0 {
        0
    } else {
        at_count(s.drop_last()) + if s.last() == '@' {
            1nat
        } else {
            0nat
        }
    }
}

/// The form in which an address is kept: trimmed, then lowered.
pub open spec fn normalized(raw: Seq<char>) -> Seq<char> {
    lowered(trimmed(raw))
}

/// Why the normalised text `t` is no address, or `None` if it is one. The
/// first cause that applies is the one reported.
pub open spec fn email_fault(t: Seq<char>) -> Option<EmailError> {
    if t.len() == 0 {
        Some(EmailError::Empty)
    } else if t.len() > MAX_EMAIL_LEN {
        Some(EmailError::TooLong)
    } else if !all_allowed(t) {
        Some(EmailError::DisallowedCharacter)
    } else if at_count(t) == 0 {
        Some(EmailError::MissingAt)
    } else if at_count(t) > 1 || t[0] == '@' || t.last() == '@' {
        Some(EmailError::MisplacedAt)
    } else {
        None
    }
}

/// A text that counts an `@` holds one.
pub proof fn lemma_counted_at_is_held(s: Seq<char>)
    requires
        at_count(s) > 0,
    ensures
        s.contains('@'),
    decreases s.len(),
{
    if s.last() == '@' {
        assert(s[s.len() - 1] == '@');
    } else {
        lemma_counted_at_is_held(s.drop_last());
        let i = choose|i: int| 0 <= i < s.drop_last().len() && s.drop_last()[i] == '@';
        assert(s[i] == '@');
    }
}

/// Why `p` is no password, or `None` if it is one.
pub open spec fn password_fault(p: Seq<char>) -> Option<PasswordError> {
    if p.len() < MIN_PASSWORD_LEN {
        Some(PasswordError::TooShort)
    } else if p.len() > MAX_PASSWORD_LEN {
        Some(PasswordError::TooLong)
    } else if all_space(p) {
        Some(PasswordError::Blank)
    } else {
        None
    }
}

/// Whether `c` may stand in an address.
pub fn char_allowed(c: char) -> (b: bool)
    ensures
        b == allowed(c),
{
    ('a' <= c && c <= 'z') || ('A' <= c && c <= 'Z') || ('0' <= c && c <= '9') || c == '@'
        || c == '.' || c == '!' || c == '#' || c == '$' || c == '%' || c == '&' || c == '\''
        || c == '*' || c == '+' || c == '/' || c == '=' || c == '?' || c == '^' || c == '_'
        || c == '`' || c == '{' || c == '|' || c == '}' || c == '~' || c == '-'
}

/// A normalised, syntactically valid email address.
pub struct UserEmail {
    email: String,
}

impl View for UserEmail {
    type V = Seq<char>;

    closed spec fn view(&self) -> Seq<char> {
        self.email@
    }
}

impl UserEmail {
    #[verifier::type_invariant]
    closed spec fn wf(&self) -> bool {
        email_fault(self.email@) is None
    }

    /// Trims and lowers `raw`; the result is an address exactly when the
    /// normalised text has no fault, and otherwise the first fault.
    pub fn parse(raw: String) -> (r: Result<UserEmail, EmailError>)
        ensures
            match r {
                Ok(e) => email_fault(normalized(raw@)) is None && e@ == normalized(raw@),
                Err(err) => email_fault(normalized(raw@)) == Some(err),
            },
    {
        let text = raw.as_str();
        let (start, end) = trim_bounds(text);
        let ghost t = trimmed(raw@);
        if end == start {
            return Err(EmailError::Empty);
        }
        if end - start > MAX_EMAIL_LEN {
            return Err(EmailError::TooLong);
        }
        let mut out = String::new();
        let mut clean = true;
        let mut ats: usize = 0;
        let mut k: usize = start;
        while k < end
            invariant
                start <= k <= end <= raw@.len(),
                text@ == raw@,
                t == raw@.subrange(start as int, end as int),
                out@ == lowered(t.subrange(0, k - start)),
                clean == all_allowed(out@),
                ats == at_count(out@),
                ats <= k - start,
            decreases end - k,
        {
            let c = char_lower(text.get_char(k));
            let ghost before = out@;
            push_char(&mut out, c);
            proof {
                assert(out@ =~= lowered(t.subrange(0, k + 1 - start)));
                assert(out@[before.len() as int] == c);
                assert(forall|i: int| 0 <= i < before.len() ==> out@[i] == before[i]);
                assert(out@.drop_last() =~= before);
                if !all_allowed(before) {
                    let w = choose|i: int| 0 <= i < before.len() && !allowed(#[trigger] before[i]);
                    assert(!allowed(out@[w]));
                }
            }
            if !char_allowed(c) {
                clean = false;
            }
            if c == '@' {
                ats = ats + 1;
            }
            k = k + 1;
        }
        assert(t.subrange(0, end - start) =~= t);
        if !clean {
            return Err(EmailError::DisallowedCharacter);
        }
        if ats == 0 {
            return Err(EmailError::MissingAt);
        }
        let first = out.as_str().get_char(0);
        let last = out.as_str().get_char(end - start - 1);
        if ats > 1 || first == '@' || last == '@' {
            return Err(EmailError::MisplacedAt);
        }
        Ok(UserEmail { email: out })
    }

    /// The address as text.
    pub fn as_str(&self) -> (s: &str)
        ensures
            s@ == self@,
            email_fault(s@) is None,
    {
        proof {
            use_type_invariant(self);
        }
        self.email.as_str()
    }
}

/// A password that passed validation. The text is kept only to be hashed.
pub struct UserPassword {
    secret: String,
}

impl View for UserPassword {
    type V = Seq<char>;

    closed spec fn view(&self) -> Seq<char> {
        self.secret@
    }
}

impl UserPassword {
    #[verifier::type_invariant]
    closed spec fn wf(&self) -> bool {
        password_fault(self.secret@) is None
    }

    /// Accepts `raw` unchanged exactly when it has no fault, and otherwise
    /// reports the first fault.
    pub fn parse(raw: String) -> (r: Result<UserPassword, PasswordError>)
        ensures
            match r {
                Ok(p) => password_fault(raw@) is None && p@ == raw@,
                Err(err) => password_fault(raw@) == Some(err),
            },
    {
        let n: usize = raw.as_str().unicode_len();
        if n < MIN_PASSWORD_LEN {
            return Err(PasswordError::TooShort);
        }
        if n > MAX_PASSWORD_LEN {
            return Err(PasswordError::TooLong);
        }
        let mut blank = true;
        let mut k: usize = 0;
        while k < n
            invariant
                k <= n,
                n == raw@.len(),
                blank == all_space(raw@.subrange(0, k as int)),
            decreases n - k,
        {
            let c = raw.as_str().get_char(k);
            proof {
                let a = raw@.subrange(0, k as int);
                let b = raw@.subrange(0, k + 1);
                assert(b[k as int] == c);
                assert(forall|i: int| 0 <= i < k ==> b[i] == a[i]);
                if !all_space(a) {
                    let w = choose|i: int| 0 <= i < a.len() && !is_space(#[trigger] a[i]);
                    assert(!is_space(b[w]));
                }
            }
            if !char_is_space(c) {
                blank = false;
            }
            k = k + 1;
        }
        assert(raw@.subrange(0, n as int) =~= raw@);
        if blank {
            return Err(PasswordError::Blank);
        }
        Ok(UserPassword { secret: raw })
    }

    /// The password as text, for hashing.
    pub fn expose(&self) -> (s: &str)
        ensures
            s@ == self@,
            password_fault(s@) is None,
    {
        proof {
            use_type_invariant(self);
        }
        self.secret.as_str()
    }
}

/// A well-formed address is accepted however it is capitalised and
/// whatever whitespace surrounds it, and is kept trimmed and lowered.
pub proof fn padded_address_accepted(left: Seq<char>, core: Seq<char>, right: Seq<char>)
    requires
        all_space(left),
        all_space(right),
        email_fault(lowered(core)) is None,
    ensures
        normalized(left + core + right) == lowered(core),
        email_fault(normalized(left + core + right)) is None,
{
    let low = lowered(core);
    assert(allowed(low[0]));
    assert(allowed(low[core.len() - 1]));
    crate::text::trimmed_of_padded(left, core, right);
}

/// An accepted address holds no capital letter and no whitespace.
pub proof fn accepted_is_lower_and_trimmed(raw: Seq<char>)
    requires
        email_fault(normalized(raw)) is None,
    ensures
        forall|i: int|
            0 <= i < normalized(raw).len() ==> {
                let c = #[trigger] normalized(raw)[i];
                !('A' <= c && c <= 'Z') && !is_space(c)
            },
{
    let t = trimmed(raw);
    let n = normalized(raw);
    assert forall|i: int| 0 <= i < n.len() implies {
        let c = #[trigger] n[i];
        !('A' <= c && c <= 'Z') && !is_space(c)
    } by {
        assert(n[i] == crate::text::lower(t[i]));
        assert(allowed(n[i]));
    }
}

/// The empty text and a text without `@` are no address.
pub proof fn empty_or_no_at_rejected(raw: Seq<char>)
    requires
        raw.len() == 0 || !raw.contains('@'),
    ensures
        email_fault(normalized(raw)) is Some,
{
    let t = trimmed(raw);
    let n = normalized(raw);
    if raw.len() == 0 {
        crate::text::trimmed_of_empty(raw);
    } else if at_count(n) > 0 {
        lemma_counted_at_is_held(n);
        let i = choose|i: int| 0 <= i < n.len() && n[i] == '@';
        assert(n[i] == crate::text::lower(t[i]));
        assert(t[i] == '@');
        assert(t.contains('@'));
        crate::text::trimmed_within(raw, '@');
    }
}

/// Normalising twice changes nothing more: an accepted address parses to
/// itself.
pub proof fn normalized_is_stable(raw: Seq<char>)
    requires
        email_fault(normalized(raw)) is None,
    ensures
        normalized(normalized(raw)) == normalized(raw),
{
    let n = normalized(raw);
    assert(allowed(n[0]));
    assert(allowed(n[n.len() - 1]));
    assert(Seq::<char>::empty() + n + Seq::<char>::empty() =~= n);
    crate::text::trimmed_of_padded(Seq::empty(), n, Seq::empty());
    assert(lowered(n) =~= n);
}

/// What a registration request carries, as it arrived.
pub struct RegistrationForm {
    pub email: String,
    pub password: String,
}

/// The validated pair from which a user is created.
pub struct NewUser {
    pub email: UserEmail,
    pub password: UserPassword,
}

/// What validating a form with email text `email` and password text
/// `password` reports: the email's fault first, then the password's.
pub open spec fn form_fault(email: Seq<char>, password: Seq<char>) -> Option<ValidationError> {
    match email_fault(normalized(email)) {
        Some(e) => Some(ValidationError::Email(e)),
        None => match password_fault(password) {
            Some(p) => Some(ValidationError::Password(p)),
            None => None,
        },
    }
}

impl NewUser {
    /// Validates both fields of `form`. The email is checked first.
    pub fn try_from(form: RegistrationForm) -> (r: Result<NewUser, ValidationError>)
        ensures
            match r {
                Ok(u) => form_fault(form.email@, form.password@) is None && u.email@
                    == normalized(form.email@) && u.password@ == form.password@,
                Err(err) => form_fault(form.email@, form.password@) == Some(err),
            },
    {
        let email = match UserEmail::parse(form.email) {
            Ok(e) => e,
            Err(err) => { return Err(ValidationError::Email(err)); },
        };
        let password = match UserPassword::parse(form.password) {
            Ok(p) => p,
            Err(err) => { return Err(ValidationError::Password(err)); },
        };
        Ok(NewUser { email, password })
    }
}

} // verus!
