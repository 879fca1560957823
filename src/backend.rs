use vstd::prelude::*;

verus! {

/// `c` is `lower` or, where `lower` is an ASCII lowercase letter, its uppercase form.
pub open spec fn ascii_char_matches(c: char, lower: char) -> bool {
    c == lower || ('a' <= lower && lower <= 'z' && (c as u32) + 32 == (lower as u32))
}

/// `s` equals the lowercase text `lower` when ASCII letters are compared without case.
pub open spec fn ascii_matches(s: Seq<char>, lower: Seq<char>) -> bool {
    &&& s.len() == lower.len()
    &&& forall|i: int| 0 <= i < s.len() ==> ascii_char_matches(#[trigger] s[i], lower[i])
}

/// Compares `s` with the lowercase text `lower`, ignoring the case of ASCII letters in `s`.
pub fn matches_ignoring_case(s: &str, lower: &str) -> (r: bool)
    ensures
        r == ascii_matches(s@, lower@),
{
    let n = s.unicode_len();
    if n != lower.unicode_len() {
        return false;
    }
    let mut i: usize = 0;
    while i < n
        invariant
            n == s@.len(),
            n == lower@.len(),
            i <= n,
            forall|j: int| 0 <= j < i ==> ascii_char_matches(#[trigger] s@[j], lower@[j]),
        decreases n - i,
    {
        let c = s.get_char(i);
        let l = lower.get_char(i);
        let same = c == l || ('a' <= l && l <= 'z' && (c as u32) + 32 == (l as u32));
        if !same {
            return false;
        }
        i = i + 1;
    }
    true
}

/// The HTTP transport that sends the request.
#[derive(Debug, Clone, Copy, PartialEq, Eq, Structural)]
pub enum Backend {
    /// The async-h1 client, which cannot stream a request body.
    H1,
    /// The isahc client, on libcurl.
    Curl,
    /// The hyper client.
    Hyper,
}

/// The backend that a name selects, if any.
pub open spec fn backend_named(s: Seq<char>) -> Option<Backend> {
    if ascii_matches(s, "h1"@) || ascii_matches(s, "async-h1"@) {
        Some(Backend::H1)
    } else if ascii_matches(s, "curl"@) || ascii_matches(s, "isahc"@) {
        Some(Backend::Curl)
    } else if ascii_matches(s, "hyper"@) {
        Some(Backend::Hyper)
    } else {
        None
    }
}

/// A backend name that names no backend.
#[derive(Debug, Clone, PartialEq, Eq)]
pub struct BackendError {
    /// The name as it was given.
    pub input: String,
}

impl BackendError {
    /// The message shown to the user.
    pub fn message(&self) -> (r: String)
        ensures
            r@ == "unrecognized backend "@ + self.input@,
    {
        let mut r = String::from_str("unrecognized backend ");
        r.append(self.input.as_str());
        r
    }
}

impl Backend {
    /// Reads a backend name: `h1` or `async-h1`, `curl` or `isahc`, `hyper`,
    /// with ASCII letters in any case.
    pub fn from_str(s: &str) -> (r: Result<Backend, BackendError>)
        ensures
            r matches Ok(b) ==> backend_named(s@) == Some(b),
            r is Err <==> backend_named(s@) is None,
            r matches Err(e) ==> e.input@ == s@,
    {
        if matches_ignoring_case(s, "h1") || matches_ignoring_case(s, "async-h1") {
            Ok(Backend::H1)
        } else if matches_ignoring_case(s, "curl") || matches_ignoring_case(s, "isahc") {
            Ok(Backend::Curl)
        } else if matches_ignoring_case(s, "hyper") {
            Ok(Backend::Hyper)
        } else {
            Err(BackendError { input: s.to_string() })
        }
    }
}

} // verus!
