//! Where to send a client after it logged in. A target named by the client
//! is used only if it is a path on this site.

use vstd::prelude::*;
use vstd::string::StringExecFns;

verus! {

/// A character that may stand in a redirect target: printable, and no
/// backslash, which browsers read as a slash.
pub open spec fn plain(c: char) -> bool {
    ' ' <= c && c != '\u{7F}' && c != '\\'
}

/// `s` is a path relative to this origin: it starts with one `/`, not two,
/// and holds only plain characters.
pub open spec fn is_local_path(s: Seq<char>) -> bool {
    &&& s.len() > 0
    &&& s[0] == '/'
    &&& (s.len() > 1 ==> s[1] != '/')
    &&& forall|i: int| 0 <= i < s.len() ==> plain(#[trigger] s[i])
}

/// The target that is used for a requested `next`: the request if it is a
/// local path, and the home page otherwise.
pub open spec fn landing(next: Option<Seq<char>>) -> Seq<char> {
    match next {
        Some(s) if is_local_path(s) => s,
        _ => "/"@,
    }
}

/// The login page's address, carrying `next` if it is a local path.
pub open spec fn login_url(next: Option<Seq<char>>) -> Seq<char> {
    match next {
        Some(s) if is_local_path(s) => "/login?next="@ + s,
        _ => "/login"@,
    }
}

/// Whether `s` is a path on this site.
pub fn local_path(s: &str) -> (b: bool)
    ensures
        b == is_local_path(s@),
{
    let n: usize = s.unicode_len();
    if n == 0 {
        return false;
    }
    if s.get_char(0) != '/' {
        return false;
    }
    if n > 1 && s.get_char(1) == '/' {
        return false;
    }
    let mut k: usize = 0;
    while k < n
        invariant
            k <= n,
            n == s@.len(),
            forall|i: int| 0 <= i < k ==> plain(#[trigger] s@[i]),
        decreases n - k,
    {
        let c = s.get_char(k);
        if !(' ' <= c && c != '\u{7F}' && c != '\\') {
            return false;
        }
        k = k + 1;
    }
    true
}

/// The `next` parameter of a request, as the client sent it.
#[derive(Debug)]
pub struct NextUrl {
    pub next: Option<String>,
}

impl NextUrl {
    /// The requested target as plain text.
    pub open spec fn requested(&self) -> Option<Seq<char>> {
        match self.next {
            Some(s) => Some(s@),
            None => None,
        }
    }

    /// Where to go after a successful login.
    pub fn target(&self) -> (to: String)
        ensures
            to@ == landing(self.requested()),
    {
        match &self.next {
            Some(s) => {
                if local_path(s.as_str()) {
                    s.clone()
                } else {
                    String::from_str("/")
                }
            },
            None => String::from_str("/"),
        }
    }

    /// The login page's address, with the requested target kept if it is
    /// usable.
    pub fn login_page(&self) -> (to: String)
        ensures
            to@ == login_url(self.requested()),
    {
        match &self.next {
            Some(s) => {
                if local_path(s.as_str()) {
                    String::from_str("/login?next=").concat(s.as_str())
                } else {
                    String::from_str("/login")
                }
            },
            None => String::from_str("/login"),
        }
    }
}

/// Whatever the client asked for, the target that is used is a local path.
pub proof fn landing_is_local(next: Option<Seq<char>>)
    ensures
        is_local_path(landing(next)),
        next is Some && is_local_path(next.unwrap()) ==> landing(next) == next.unwrap(),
        next is Some && !is_local_path(next.unwrap()) ==> landing(next) == "/"@,
        next is None ==> landing(next) == "/"@,
{
    reveal_strlit("/");
}

/// A target that names another site is never used: one that starts with a
/// scheme or with two slashes is no local path.
pub proof fn foreign_target_discarded(s: Seq<char>)
    requires
        s.len() > 0,
        s[0] != '/' || (s.len() > 1 && s[1] == '/'),
    ensures
        landing(Some(s)) == "/"@,
{
}

} // verus!
