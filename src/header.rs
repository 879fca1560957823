use vstd::prelude::*;

verus! {

/// A header argument could not be split into a name and a value.
#[derive(Debug, Clone, PartialEq, Eq)]
pub struct HeaderError {
    /// The argument as it was given.
    pub input: String,
}

impl HeaderError {
    /// The message shown to the user.
    pub fn message(&self) -> (r: String)
        ensures
            r@ == header_error_message(self.input@),
    {
        let mut r = String::from_str("invalid KEY=value: no `=` found in `");
        r.append(self.input.as_str());
        r.append("`");
        r
    }
}

/// The message of a `HeaderError` for the argument `s`.
pub open spec fn header_error_message(s: Seq<char>) -> Seq<char> {
    "invalid KEY=value: no `=` found in `"@ + s + "`"@
}

/// `(key, value)` is the split of `s` at its first `=`.
pub open spec fn is_header_split(s: Seq<char>, key: Seq<char>, value: Seq<char>) -> bool {
    &&& !key.contains('=')
    &&& s == key + seq!['='] + value
}

/// Splits a `KEY=VALUE` argument at its first `=`.
pub fn parse_header(s: &str) -> (r: Result<(String, String), HeaderError>)
    ensures
        r is Ok <==> s@.contains('='),
        r matches Ok((k, v)) ==> is_header_split(s@, k@, v@),
        r matches Err(e) ==> e.input@ == s@,
{
    let n = s.unicode_len();
    let mut i: usize = 0;
    while i < n
        invariant
            n == s@.len(),
            i <= n,
            forall|j: int| 0 <= j < i ==> s@[j] != '=',
        decreases n - i,
    {
        if s.get_char(i) == '=' {
            let key = s.substring_char(0, i);
            let value = s.substring_char(i + 1, n);
            proof {
                assert(!key@.contains('=')) by {
                    if key@.contains('=') {
                        let j = choose|j: int| 0 <= j < key@.len() && key@[j] == '=';
                        assert(s@[j] == '=');
                    }
                }
                assert(s@ =~= key@ + seq!['='] + value@);
            }
            return Ok((key.to_string(), value.to_string()));
        }
        i = i + 1;
    }
    proof {
        assert(!s@.contains('=')) by {
            if s@.contains('=') {
                let j = choose|j: int| 0 <= j < s@.len() && s@[j] == '=';
                assert(s@[j] == '=');
            }
        }
    }
    Err(HeaderError { input: s.to_string() })
}

} // verus!
