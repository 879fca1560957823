use vstd::prelude::*;
use vstd::utf8::{char_u32_cast, is_ascii_chars};
use surf::http::Method;

verus! {

#[verifier::external_type_specification]
pub struct ExMethod(Method);

/// What `str::to_uppercase` returns for the characters `s`.
pub uninterp spec fn upper_of(s: Seq<char>) -> Seq<char>;

/// The code of `c` with an ASCII lowercase letter turned to upper case.
pub open spec fn ascii_upper_code(c: char) -> int {
    let x = c as u32;
    // 'a' is 97 and 'z' is 122; the upper-case letters lie 32 below.
    if 97 <= x && x <= 122 {
        x - 32
    } else {
        x as int
    }
}

/// `upper` is `s` with its ASCII letters in upper case.
pub open spec fn ascii_upper_matches(s: Seq<char>, upper: Seq<char>) -> bool {
    &&& s.len() == upper.len()
    &&& forall|i: int| 0 <= i < s.len() ==> ascii_upper_code(#[trigger] s[i]) == upper[i] as u32
}

/// `a` and `b` differ at most in the case of ASCII letters.
pub open spec fn ascii_case_equal(a: Seq<char>, b: Seq<char>) -> bool {
    &&& a.len() == b.len()
    &&& forall|i: int|
        0 <= i < a.len() ==> #[trigger] ascii_upper_code(a[i]) == ascii_upper_code(b[i])
}

/// The method that http-types' table gives for `t`, compared with ASCII
/// letters in upper case.
pub open spec fn method_named(t: Seq<char>) -> Option<Method> {
    if ascii_upper_matches(t, "ACL"@) {
        Some(Method::Acl)
    } else if ascii_upper_matches(t, "BASELINE-CONTROL"@) {
        Some(Method::BaselineControl)
    } else if ascii_upper_matches(t, "BIND"@) {
        Some(Method::Bind)
    } else if ascii_upper_matches(t, "CHECKIN"@) {
        Some(Method::Checkin)
    } else if ascii_upper_matches(t, "CHECKOUT"@) {
        Some(Method::Checkout)
    } else if ascii_upper_matches(t, "CONNECT"@) {
        Some(Method::Connect)
    } else if ascii_upper_matches(t, "COPY"@) {
        Some(Method::Copy)
    } else if ascii_upper_matches(t, "DELETE"@) {
        Some(Method::Delete)
    } else if ascii_upper_matches(t, "GET"@) {
        Some(Method::Get)
    } else if ascii_upper_matches(t, "HEAD"@) {
        Some(Method::Head)
    } else if ascii_upper_matches(t, "LABEL"@) {
        Some(Method::Label)
    } else if ascii_upper_matches(t, "LINK"@) {
        Some(Method::Link)
    } else if ascii_upper_matches(t, "LOCK"@) {
        Some(Method::Lock)
    } else if ascii_upper_matches(t, "MERGE"@) {
        Some(Method::Merge)
    } else if ascii_upper_matches(t, "MKACTIVITY"@) {
        Some(Method::MkActivity)
    } else if ascii_upper_matches(t, "MKCALENDAR"@) {
        Some(Method::MkCalendar)
    } else if ascii_upper_matches(t, "MKCOL"@) {
        Some(Method::MkCol)
    } else if ascii_upper_matches(t, "MKREDIRECTREF"@) {
        Some(Method::MkRedirectRef)
    } else if ascii_upper_matches(t, "MKWORKSPACE"@) {
        Some(Method::MkWorkspace)
    } else if ascii_upper_matches(t, "MOVE"@) {
        Some(Method::Move)
    } else if ascii_upper_matches(t, "OPTIONS"@) {
        Some(Method::Options)
    } else if ascii_upper_matches(t, "ORDERPATCH"@) {
        Some(Method::OrderPatch)
    } else if ascii_upper_matches(t, "PATCH"@) {
        Some(Method::Patch)
    } else if ascii_upper_matches(t, "POST"@) {
        Some(Method::Post)
    } else if ascii_upper_matches(t, "PRI"@) {
        Some(Method::Pri)
    } else if ascii_upper_matches(t, "PROPFIND"@) {
        Some(Method::PropFind)
    } else if ascii_upper_matches(t, "PROPPATCH"@) {
        Some(Method::PropPatch)
    } else if ascii_upper_matches(t, "PUT"@) {
        Some(Method::Put)
    } else if ascii_upper_matches(t, "REBIND"@) {
        Some(Method::Rebind)
    } else if ascii_upper_matches(t, "REPORT"@) {
        Some(Method::Report)
    } else if ascii_upper_matches(t, "SEARCH"@) {
        Some(Method::Search)
    } else if ascii_upper_matches(t, "TRACE"@) {
        Some(Method::Trace)
    } else if ascii_upper_matches(t, "UNBIND"@) {
        Some(Method::Unbind)
    } else if ascii_upper_matches(t, "UNCHECKOUT"@) {
        Some(Method::Uncheckout)
    } else if ascii_upper_matches(t, "UNLINK"@) {
        Some(Method::Unlink)
    } else if ascii_upper_matches(t, "UNLOCK"@) {
        Some(Method::Unlock)
    } else if ascii_upper_matches(t, "UPDATE"@) {
        Some(Method::Update)
    } else if ascii_upper_matches(t, "UPDATEREDIRECTREF"@) {
        Some(Method::UpdateRedirectRef)
    } else if ascii_upper_matches(t, "VERSION-CONTROL"@) {
        Some(Method::VersionControl)
    } else {
        None
    }
}

/// The name of a method, as http-types writes it.
pub open spec fn method_name(m: Method) -> Seq<char> {
    match m {
        Method::Acl => "ACL"@,
        Method::BaselineControl => "BASELINE-CONTROL"@,
        Method::Bind => "BIND"@,
        Method::Checkin => "CHECKIN"@,
        Method::Checkout => "CHECKOUT"@,
        Method::Connect => "CONNECT"@,
        Method::Copy => "COPY"@,
        Method::Delete => "DELETE"@,
        Method::Get => "GET"@,
        Method::Head => "HEAD"@,
        Method::Label => "LABEL"@,
        Method::Link => "LINK"@,
        Method::Lock => "LOCK"@,
        Method::Merge => "MERGE"@,
        Method::MkActivity => "MKACTIVITY"@,
        Method::MkCalendar => "MKCALENDAR"@,
        Method::MkCol => "MKCOL"@,
        Method::MkRedirectRef => "MKREDIRECTREF"@,
        Method::MkWorkspace => "MKWORKSPACE"@,
        Method::Move => "MOVE"@,
        Method::Options => "OPTIONS"@,
        Method::OrderPatch => "ORDERPATCH"@,
        Method::Patch => "PATCH"@,
        Method::Post => "POST"@,
        Method::Pri => "PRI"@,
        Method::PropFind => "PROPFIND"@,
        Method::PropPatch => "PROPPATCH"@,
        Method::Put => "PUT"@,
        Method::Rebind => "REBIND"@,
        Method::Report => "REPORT"@,
        Method::Search => "SEARCH"@,
        Method::Trace => "TRACE"@,
        Method::Unbind => "UNBIND"@,
        Method::Uncheckout => "UNCHECKOUT"@,
        Method::Unlink => "UNLINK"@,
        Method::Unlock => "UNLOCK"@,
        Method::Update => "UPDATE"@,
        Method::UpdateRedirectRef => "UPDATEREDIRECTREF"@,
        Method::VersionControl => "VERSION-CONTROL"@,
    }
}

/// No character of `s` is an ASCII lower-case letter.
pub open spec fn has_no_ascii_lower(s: Seq<char>) -> bool {
    forall|i: int| 0 <= i < s.len() ==> !(97 <= #[trigger] (s[i] as u32) && s[i] as u32 <= 122)
}

/// Relies on `str::to_uppercase`: the result depends on the characters alone,
/// holds no lower-case letter, and ASCII text comes back with its ASCII
/// letters in upper case.
#[verifier::external_body]
fn uppercase(s: &str) -> (r: String)
    ensures
        r@ == upper_of(s@),
        has_no_ascii_lower(r@),
        is_ascii_chars(s@) ==> ascii_upper_matches(s@, r@),
{
    s.to_uppercase()
}

/// Relies on `<surf::http::Method as FromStr>::from_str`: it upper-cases the
/// ASCII letters and looks the text up in its table of names.
#[verifier::external_body]
fn method_from_token(s: &str) -> (r: Option<Method>)
    ensures
        r == method_named(s@),
{
    s.parse::<Method>().ok()
}

/// A method argument that names no HTTP method.
#[derive(Debug, Clone, PartialEq, Eq)]
pub struct MethodError {
    /// The argument as it was given.
    pub input: String,
}

impl MethodError {
    /// The message shown to the user.
    pub fn message(&self) -> (r: String)
        ensures
            r@ == "Invalid HTTP method"@,
    {
        String::from_str("Invalid HTTP method")
    }
}

/// Reads the method named by `upper`, the upper-case form of the argument `src`.
pub fn method_from_upper(upper: &str, src: &str) -> (r: Result<Method, MethodError>)
    ensures
        r is Ok <==> method_named(upper@) is Some,
        r matches Ok(m) ==> method_named(upper@) == Some(m),
        r matches Err(e) ==> e.input@ == src@,
{
    match method_from_token(upper) {
        Some(m) => Ok(m),
        None => Err(MethodError { input: src.to_string() }),
    }
}

/// Reads an HTTP method, in any letter case.
pub fn parse_method_case_insensitive(src: &str) -> (r: Result<Method, MethodError>)
    ensures
        r is Ok <==> method_named(upper_of(src@)) is Some,
        r matches Ok(m) ==> method_named(upper_of(src@)) == Some(m),
        r matches Err(e) ==> e.input@ == src@,
        is_ascii_chars(src@) ==> (r is Ok <==> method_named(src@) is Some),
        is_ascii_chars(src@) ==> (r matches Ok(m) ==> method_named(src@) == Some(m)),
        (forall|m: Method| method_name(m) != upper_of(src@)) ==> r is Err,
{
    let upper = uppercase(src);
    proof {
        unknown_method_rejected(upper@);
        if is_ascii_chars(src@) {
            upper_form_is_case_equal(src@, upper@);
            method_lookup_ignores_case(src@, upper@);
        }
    }
    method_from_upper(upper.as_str(), src)
}

/// A text without lower-case ASCII letters that is no method's name names
/// no method.
pub proof fn unknown_method_rejected(t: Seq<char>)
    requires
        has_no_ascii_lower(t),
    ensures
        (forall|m: Method| method_name(m) != t) ==> method_named(t) is None,
{
    if let Some(m) = method_named(t) {
        let n = method_name(m);
        assert(ascii_upper_matches(t, n));
        assert forall|i: int| 0 <= i < t.len() implies t[i] == n[i] by {
            assert(!(97 <= (t[i] as u32) && t[i] as u32 <= 122));
            assert(ascii_upper_code(t[i]) == n[i] as u32);
            assert(t[i] as u32 == n[i] as u32);
            char_u32_cast(t[i], t[i] as u32);
            char_u32_cast(n[i], n[i] as u32);
        }
        assert(t =~= n);
    }
}

/// The upper-case form of a text differs from it only in letter case.
pub proof fn upper_form_is_case_equal(s: Seq<char>, upper: Seq<char>)
    requires
        ascii_upper_matches(s, upper),
    ensures
        ascii_case_equal(s, upper),
{
    assert forall|i: int| 0 <= i < s.len() implies #[trigger] ascii_upper_code(s[i])
        == ascii_upper_code(upper[i]) by {
        assert(ascii_upper_code(s[i]) == upper[i] as u32);
    }
}

/// Method lookup ignores letter case: two texts that differ only in the case
/// of ASCII letters name the same method, or both name none.
pub proof fn method_lookup_ignores_case(a: Seq<char>, b: Seq<char>)
    requires
        ascii_case_equal(a, b),
    ensures
        method_named(a) == method_named(b),
{
    assert forall|n: Seq<char>| ascii_upper_matches(a, n) == ascii_upper_matches(b, n) by {
        if ascii_upper_matches(a, n) {
            assert forall|i: int| 0 <= i < b.len() implies ascii_upper_code(#[trigger] b[i])
                == n[i] as u32 by {
                assert(ascii_upper_code(a[i]) == ascii_upper_code(b[i]));
            }
        }
        if ascii_upper_matches(b, n) {
            assert forall|i: int| 0 <= i < a.len() implies ascii_upper_code(#[trigger] a[i])
                == n[i] as u32 by {
                assert(ascii_upper_code(a[i]) == ascii_upper_code(b[i]));
            }
        }
    }
}

/// Every method's name, in any letter case, reads back as that method.
pub proof fn method_name_round_trip(m: Method, t: Seq<char>)
    requires
        ascii_case_equal(t, method_name(m)),
    ensures
        method_named(t) == Some(m),
{
    method_lookup_ignores_case(t, method_name(m));
    reveal_strlit("ACL");
    reveal_strlit("BASELINE-CONTROL");
    reveal_strlit("BIND");
    reveal_strlit("CHECKIN");
    reveal_strlit("CHECKOUT");
    reveal_strlit("CONNECT");
    reveal_strlit("COPY");
    reveal_strlit("DELETE");
    reveal_strlit("GET");
    reveal_strlit("HEAD");
    reveal_strlit("LABEL");
    reveal_strlit("LINK");
    reveal_strlit("LOCK");
    reveal_strlit("MERGE");
    reveal_strlit("MKACTIVITY");
    reveal_strlit("MKCALENDAR");
    reveal_strlit("MKCOL");
    reveal_strlit("MKREDIRECTREF");
    reveal_strlit("MKWORKSPACE");
    reveal_strlit("MOVE");
    reveal_strlit("OPTIONS");
    reveal_strlit("ORDERPATCH");
    reveal_strlit("PATCH");
    reveal_strlit("POST");
    reveal_strlit("PRI");
    reveal_strlit("PROPFIND");
    reveal_strlit("PROPPATCH");
    reveal_strlit("PUT");
    reveal_strlit("REBIND");
    reveal_strlit("REPORT");
    reveal_strlit("SEARCH");
    reveal_strlit("TRACE");
    reveal_strlit("UNBIND");
    reveal_strlit("UNCHECKOUT");
    reveal_strlit("UNLINK");
    reveal_strlit("UNLOCK");
    reveal_strlit("UPDATE");
    reveal_strlit("UPDATEREDIRECTREF");
    reveal_strlit("VERSION-CONTROL");
    // Names of equal length are told apart at their first differing character.
    match m {
        Method::Acl => {
            assert(ascii_upper_matches("ACL"@, "ACL"@));
        },
        Method::BaselineControl => {
            assert(ascii_upper_matches("BASELINE-CONTROL"@, "BASELINE-CONTROL"@));
        },
        Method::Bind => {
            assert(ascii_upper_matches("BIND"@, "BIND"@));
        },
        Method::Checkin => {
            assert(ascii_upper_matches("CHECKIN"@, "CHECKIN"@));
        },
        Method::Checkout => {
            assert(ascii_upper_matches("CHECKOUT"@, "CHECKOUT"@));
        },
        Method::Connect => {
            assert(ascii_upper_code("CONNECT"@[1]) != "CHECKIN"@[1] as u32);
            assert(ascii_upper_matches("CONNECT"@, "CONNECT"@));
        },
        Method::Copy => {
            assert(ascii_upper_code("COPY"@[0]) != "BIND"@[0] as u32);
            assert(ascii_upper_matches("COPY"@, "COPY"@));
        },
        Method::Delete => {
            assert(ascii_upper_matches("DELETE"@, "DELETE"@));
        },
        Method::Get => {
            assert(ascii_upper_code("GET"@[0]) != "ACL"@[0] as u32);
            assert(ascii_upper_matches("GET"@, "GET"@));
        },
        Method::Head => {
            assert(ascii_upper_code("HEAD"@[0]) != "BIND"@[0] as u32);
            assert(ascii_upper_code("HEAD"@[0]) != "COPY"@[0] as u32);
            assert(ascii_upper_matches("HEAD"@, "HEAD"@));
        },
        Method::Label => {
            assert(ascii_upper_matches("LABEL"@, "LABEL"@));
        },
        Method::Link => {
            assert(ascii_upper_code("LINK"@[0]) != "BIND"@[0] as u32);
            assert(ascii_upper_code("LINK"@[0]) != "COPY"@[0] as u32);
            assert(ascii_upper_code("LINK"@[0]) != "HEAD"@[0] as u32);
            assert(ascii_upper_matches("LINK"@, "LINK"@));
        },
        Method::Lock => {
            assert(ascii_upper_code("LOCK"@[0]) != "BIND"@[0] as u32);
            assert(ascii_upper_code("LOCK"@[0]) != "COPY"@[0] as u32);
            assert(ascii_upper_code("LOCK"@[0]) != "HEAD"@[0] as u32);
            assert(ascii_upper_code("LOCK"@[1]) != "LINK"@[1] as u32);
            assert(ascii_upper_matches("LOCK"@, "LOCK"@));
        },
        Method::Merge => {
            assert(ascii_upper_code("MERGE"@[0]) != "LABEL"@[0] as u32);
            assert(ascii_upper_matches("MERGE"@, "MERGE"@));
        },
        Method::MkActivity => {
            assert(ascii_upper_matches("MKACTIVITY"@, "MKACTIVITY"@));
        },
        Method::MkCalendar => {
            assert(ascii_upper_code("MKCALENDAR"@[2]) != "MKACTIVITY"@[2] as u32);
            assert(ascii_upper_matches("MKCALENDAR"@, "MKCALENDAR"@));
        },
        Method::MkCol => {
            assert(ascii_upper_code("MKCOL"@[0]) != "LABEL"@[0] as u32);
            assert(ascii_upper_code("MKCOL"@[1]) != "MERGE"@[1] as u32);
            assert(ascii_upper_matches("MKCOL"@, "MKCOL"@));
        },
        Method::MkRedirectRef => {
            assert(ascii_upper_matches("MKREDIRECTREF"@, "MKREDIRECTREF"@));
        },
        Method::MkWorkspace => {
            assert(ascii_upper_matches("MKWORKSPACE"@, "MKWORKSPACE"@));
        },
        Method::Move => {
            assert(ascii_upper_code("MOVE"@[0]) != "BIND"@[0] as u32);
            assert(ascii_upper_code("MOVE"@[0]) != "COPY"@[0] as u32);
            assert(ascii_upper_code("MOVE"@[0]) != "HEAD"@[0] as u32);
            assert(ascii_upper_code("MOVE"@[0]) != "LINK"@[0] as u32);
            assert(ascii_upper_code("MOVE"@[0]) != "LOCK"@[0] as u32);
            assert(ascii_upper_matches("MOVE"@, "MOVE"@));
        },
        Method::Options => {
            assert(ascii_upper_code("OPTIONS"@[0]) != "CHECKIN"@[0] as u32);
            assert(ascii_upper_code("OPTIONS"@[0]) != "CONNECT"@[0] as u32);
            assert(ascii_upper_matches("OPTIONS"@, "OPTIONS"@));
        },
        Method::OrderPatch => {
            assert(ascii_upper_code("ORDERPATCH"@[0]) != "MKACTIVITY"@[0] as u32);
            assert(ascii_upper_code("ORDERPATCH"@[0]) != "MKCALENDAR"@[0] as u32);
            assert(ascii_upper_matches("ORDERPATCH"@, "ORDERPATCH"@));
        },
        Method::Patch => {
            assert(ascii_upper_code("PATCH"@[0]) != "LABEL"@[0] as u32);
            assert(ascii_upper_code("PATCH"@[0]) != "MERGE"@[0] as u32);
            assert(ascii_upper_code("PATCH"@[0]) != "MKCOL"@[0] as u32);
            assert(ascii_upper_matches("PATCH"@, "PATCH"@));
        },
        Method::Post => {
            assert(ascii_upper_code("POST"@[0]) != "BIND"@[0] as u32);
            assert(ascii_upper_code("POST"@[0]) != "COPY"@[0] as u32);
            assert(ascii_upper_code("POST"@[0]) != "HEAD"@[0] as u32);
            assert(ascii_upper_code("POST"@[0]) != "LINK"@[0] as u32);
            assert(ascii_upper_code("POST"@[0]) != "LOCK"@[0] as u32);
            assert(ascii_upper_code("POST"@[0]) != "MOVE"@[0] as u32);
            assert(ascii_upper_matches("POST"@, "POST"@));
        },
        Method::Pri => {
            assert(ascii_upper_code("PRI"@[0]) != "ACL"@[0] as u32);
            assert(ascii_upper_code("PRI"@[0]) != "GET"@[0] as u32);
            assert(ascii_upper_matches("PRI"@, "PRI"@));
        },
        Method::PropFind => {
            assert(ascii_upper_code("PROPFIND"@[0]) != "CHECKOUT"@[0] as u32);
            assert(ascii_upper_matches("PROPFIND"@, "PROPFIND"@));
        },
        Method::PropPatch => {
            assert(ascii_upper_matches("PROPPATCH"@, "PROPPATCH"@));
        },
        Method::Put => {
            assert(ascii_upper_code("PUT"@[0]) != "ACL"@[0] as u32);
            assert(ascii_upper_code("PUT"@[0]) != "GET"@[0] as u32);
            assert(ascii_upper_code("PUT"@[1]) != "PRI"@[1] as u32);
            assert(ascii_upper_matches("PUT"@, "PUT"@));
        },
        Method::Rebind => {
            assert(ascii_upper_code("REBIND"@[0]) != "DELETE"@[0] as u32);
            assert(ascii_upper_matches("REBIND"@, "REBIND"@));
        },
        Method::Report => {
            assert(ascii_upper_code("REPORT"@[0]) != "DELETE"@[0] as u32);
            assert(ascii_upper_code("REPORT"@[2]) != "REBIND"@[2] as u32);
            assert(ascii_upper_matches("REPORT"@, "REPORT"@));
        },
        Method::Search => {
            assert(ascii_upper_code("SEARCH"@[0]) != "DELETE"@[0] as u32);
            assert(ascii_upper_code("SEARCH"@[0]) != "REBIND"@[0] as u32);
            assert(ascii_upper_code("SEARCH"@[0]) != "REPORT"@[0] as u32);
            assert(ascii_upper_matches("SEARCH"@, "SEARCH"@));
        },
        Method::Trace => {
            assert(ascii_upper_code("TRACE"@[0]) != "LABEL"@[0] as u32);
            assert(ascii_upper_code("TRACE"@[0]) != "MERGE"@[0] as u32);
            assert(ascii_upper_code("TRACE"@[0]) != "MKCOL"@[0] as u32);
            assert(ascii_upper_code("TRACE"@[0]) != "PATCH"@[0] as u32);
            assert(ascii_upper_matches("TRACE"@, "TRACE"@));
        },
        Method::Unbind => {
            assert(ascii_upper_code("UNBIND"@[0]) != "DELETE"@[0] as u32);
            assert(ascii_upper_code("UNBIND"@[0]) != "REBIND"@[0] as u32);
            assert(ascii_upper_code("UNBIND"@[0]) != "REPORT"@[0] as u32);
            assert(ascii_upper_code("UNBIND"@[0]) != "SEARCH"@[0] as u32);
            assert(ascii_upper_matches("UNBIND"@, "UNBIND"@));
        },
        Method::Uncheckout => {
            assert(ascii_upper_code("UNCHECKOUT"@[0]) != "MKACTIVITY"@[0] as u32);
            assert(ascii_upper_code("UNCHECKOUT"@[0]) != "MKCALENDAR"@[0] as u32);
            assert(ascii_upper_code("UNCHECKOUT"@[0]) != "ORDERPATCH"@[0] as u32);
            assert(ascii_upper_matches("UNCHECKOUT"@, "UNCHECKOUT"@));
        },
        Method::Unlink => {
            assert(ascii_upper_code("UNLINK"@[0]) != "DELETE"@[0] as u32);
            assert(ascii_upper_code("UNLINK"@[0]) != "REBIND"@[0] as u32);
            assert(ascii_upper_code("UNLINK"@[0]) != "REPORT"@[0] as u32);
            assert(ascii_upper_code("UNLINK"@[0]) != "SEARCH"@[0] as u32);
            assert(ascii_upper_code("UNLINK"@[2]) != "UNBIND"@[2] as u32);
            assert(ascii_upper_matches("UNLINK"@, "UNLINK"@));
        },
        Method::Unlock => {
            assert(ascii_upper_code("UNLOCK"@[0]) != "DELETE"@[0] as u32);
            assert(ascii_upper_code("UNLOCK"@[0]) != "REBIND"@[0] as u32);
            assert(ascii_upper_code("UNLOCK"@[0]) != "REPORT"@[0] as u32);
            assert(ascii_upper_code("UNLOCK"@[0]) != "SEARCH"@[0] as u32);
            assert(ascii_upper_code("UNLOCK"@[2]) != "UNBIND"@[2] as u32);
            assert(ascii_upper_code("UNLOCK"@[3]) != "UNLINK"@[3] as u32);
            assert(ascii_upper_matches("UNLOCK"@, "UNLOCK"@));
        },
        Method::Update => {
            assert(ascii_upper_code("UPDATE"@[0]) != "DELETE"@[0] as u32);
            assert(ascii_upper_code("UPDATE"@[0]) != "REBIND"@[0] as u32);
            assert(ascii_upper_code("UPDATE"@[0]) != "REPORT"@[0] as u32);
            assert(ascii_upper_code("UPDATE"@[0]) != "SEARCH"@[0] as u32);
            assert(ascii_upper_code("UPDATE"@[1]) != "UNBIND"@[1] as u32);
            assert(ascii_upper_code("UPDATE"@[1]) != "UNLINK"@[1] as u32);
            assert(ascii_upper_code("UPDATE"@[1]) != "UNLOCK"@[1] as u32);
            assert(ascii_upper_matches("UPDATE"@, "UPDATE"@));
        },
        Method::UpdateRedirectRef => {
            assert(ascii_upper_matches("UPDATEREDIRECTREF"@, "UPDATEREDIRECTREF"@));
        },
        Method::VersionControl => {
            assert(ascii_upper_matches("VERSION-CONTROL"@, "VERSION-CONTROL"@));
        },
    }
}

} // verus!
