use vstd::prelude::*;
use std::path::PathBuf;
use surf::http::Method;
use surf::{Body, Request, Url};
use vstd::utf8::is_ascii_chars;
use crate::backend::Backend;

verus! {

#[verifier::external_type_specification]
#[verifier::external_body]
pub struct ExUrl(Url);

#[verifier::external_type_specification]
#[verifier::external_body]
pub struct ExPathBuf(PathBuf);

#[verifier::external_type_specification]
#[verifier::external_body]
pub struct ExRequest(Request);

#[verifier::external_type_specification]
#[verifier::external_body]
pub struct ExBody(Body);

/// The method of a request.
pub uninterp spec fn request_method(r: Request) -> Method;

/// The URL of a request.
pub uninterp spec fn request_url(r: Request) -> Url;

/// The headers of a request: each name, with its ASCII letters in lower
/// case, maps to its values in the order they were added.
pub uninterp spec fn request_headers(r: Request) -> Map<Seq<char>, Seq<Seq<char>>>;

/// The headers of a new request: none.
pub open spec fn no_headers() -> Map<Seq<char>, Seq<Seq<char>>> {
    Map::empty()
}

/// `c` with an ASCII upper-case letter turned to lower case.
pub open spec fn ascii_lower_char(c: char) -> char {
    let x = c as u32;
    // 'A' is 65 and 'Z' is 90; the lower-case letters lie 32 above.
    if 65 <= x && x <= 90 {
        ((x + 32) as u32) as char
    } else {
        c
    }
}

/// A header name as http-types keys it: ASCII letters in lower case.
pub open spec fn header_key(name: Seq<char>) -> Seq<char> {
    name.map_values(|c: char| ascii_lower_char(c))
}

/// The key of the Content-Type header.
pub open spec fn content_type_key() -> Seq<char> {
    "content-type"@
}

/// The values filed under `key`, none where there are none.
pub open spec fn values_under(
    headers: Map<Seq<char>, Seq<Seq<char>>>,
    key: Seq<char>,
) -> Seq<Seq<char>> {
    if headers.contains_key(key) {
        headers[key]
    } else {
        Seq::empty()
    }
}

/// `headers` with `value` added after the values filed under `name`.
pub open spec fn with_header(
    headers: Map<Seq<char>, Seq<Seq<char>>>,
    name: Seq<char>,
    value: Seq<char>,
) -> Map<Seq<char>, Seq<Seq<char>>> {
    headers.insert(header_key(name), values_under(headers, header_key(name)).push(value))
}

/// The headers that the pairs give when added in order.
pub open spec fn headers_map(pairs: Seq<(String, String)>) -> Map<Seq<char>, Seq<Seq<char>>>
    decreases pairs.len(),
{
    if pairs.len() == 0 {
        Map::empty()
    } else {
        let last = pairs.last();
        with_header(headers_map(pairs.drop_last()), last.0@, last.1@)
    }
}

/// The values of the pairs whose name has the key `key`, in order.
pub open spec fn values_for(pairs: Seq<(String, String)>, key: Seq<char>) -> Seq<Seq<char>>
    decreases pairs.len(),
{
    if pairs.len() == 0 {
        Seq::empty()
    } else {
        let last = pairs.last();
        if header_key(last.0@) == key {
            values_for(pairs.drop_last(), key).push(last.1@)
        } else {
            values_for(pairs.drop_last(), key)
        }
    }
}

/// Adding the pairs in order files under each key the values of the pairs
/// whose name matches it ignoring ASCII case, in the order given, and nothing
/// under a key that no name has.
pub proof fn headers_map_collects_values(pairs: Seq<(String, String)>, key: Seq<char>)
    ensures
        values_under(headers_map(pairs), key) == values_for(pairs, key),
        headers_map(pairs).contains_key(key) <==> values_for(pairs, key).len() > 0,
    decreases pairs.len(),
{
    if pairs.len() > 0 {
        headers_map_collects_values(pairs.drop_last(), key);
    }
}

/// What setting a body does to the headers: they are kept, and where there
/// is no Content-Type one value, the body's media type, is filed under it.
pub open spec fn content_type_filled(
    before: Map<Seq<char>, Seq<Seq<char>>>,
    after: Map<Seq<char>, Seq<Seq<char>>>,
) -> bool {
    if before.contains_key(content_type_key()) {
        after == before
    } else {
        exists|v: Seq<char>| after == before.insert(content_type_key(), seq![v])
    }
}

/// The body that `set_body` last gave a request; `None` while it holds the
/// empty body it was created with, or text that `body_string` gave it.
pub uninterp spec fn request_body(r: Request) -> Option<Body>;

/// The text that `body_string` last gave a request as its body; `None` while
/// it holds the empty body it was created with, or a body from `set_body`.
pub uninterp spec fn request_body_text(r: Request) -> Option<Seq<char>>;

/// Relies on `surf::Request::new`: the request has the given method and URL,
/// no headers, and an empty body.
pub assume_specification[ Request::new ](method: Method, url: Url) -> (r: Request)
    ensures
        request_method(r) == method,
        request_url(r) == url,
        request_headers(r) == no_headers(),
        request_body(r) is None,
        request_body_text(r) is None,
;

/// Relies on `surf::Request::append_header`: it adds the value after those
/// already filed under the name in lower case; it panics unless both are ASCII.
#[verifier::external_body]
fn append_header(request: &mut Request, name: &str, value: &str)
    requires
        is_ascii_chars(name@),
        is_ascii_chars(value@),
    ensures
        request_headers(*final(request)) == with_header(request_headers(*old(request)), name@, value@),
        request_method(*final(request)) == request_method(*old(request)),
        request_url(*final(request)) == request_url(*old(request)),
        request_body(*final(request)) == request_body(*old(request)),
        request_body_text(*final(request)) == request_body_text(*old(request)),
{
    request.append_header(name, value)
}

/// Relies on `surf::Request::set_body`: it replaces the request body, and
/// files the body's media type under Content-Type where none is there.
#[verifier::external_body]
fn set_body(request: &mut Request, body: Body)
    ensures
        request_body(*final(request)) == Some(body),
        request_body_text(*final(request)) is None,
        content_type_filled(request_headers(*old(request)), request_headers(*final(request))),
        request_method(*final(request)) == request_method(*old(request)),
        request_url(*final(request)) == request_url(*old(request)),
{
    request.set_body(body)
}

/// Relies on `surf::Request::body_string`: it replaces the request body with
/// the text, and files its media type under Content-Type where none is there.
#[verifier::external_body]
fn set_body_text(request: &mut Request, text: String)
    ensures
        request_body_text(*final(request)) == Some(text@),
        request_body(*final(request)) is None,
        content_type_filled(request_headers(*old(request)), request_headers(*final(request))),
        request_method(*final(request)) == request_method(*old(request)),
        request_url(*final(request)) == request_url(*old(request)),
{
    request.body_string(text)
}

/// The view of an optional text.
pub open spec fn opt_text(s: Option<String>) -> Option<Seq<char>> {
    match s {
        Some(t) => Some(t@),
        None => None,
    }
}

/// The body source of `lb`, given whether standard input is a terminal.
pub open spec fn source_of(lb: &Longboard, stdin_is_terminal: bool) -> BodySource {
    body_source_of(lb.file is Some, lb.body is Some, stdin_is_terminal, lb.client)
}

/// The header's name and value are ASCII text.
pub open spec fn header_is_ascii(header: (String, String)) -> bool {
    is_ascii_chars(header.0@) && is_ascii_chars(header.1@)
}

/// Every header name and value is ASCII text.
pub open spec fn headers_are_ascii(headers: Seq<(String, String)>) -> bool {
    forall|i: int| 0 <= i < headers.len() ==> header_is_ascii(#[trigger] headers[i])
}

/// Relies on `url::Url`'s derived `Clone`: the copy equals the original.
pub assume_specification[ <Url as core::clone::Clone>::clone ](u: &Url) -> (r: Url)
    ensures
        r == *u,
;

/// Where the body of the outgoing request comes from.
#[derive(Debug, Clone, Copy, PartialEq, Eq, Structural)]
pub enum BodySource {
    /// The file at the given path.
    File,
    /// The text given on the command line.
    Inline,
    /// Standard input, read whole before the request is sent.
    StdinBuffered,
    /// Standard input, streamed as the request is sent.
    StdinStreamed,
    /// No body.
    Empty,
}

/// The body source: a file wins over inline text, which wins over piped
/// standard input; the h1 backend cannot stream, so it reads standard input whole.
pub open spec fn body_source_of(
    has_file: bool,
    has_body: bool,
    stdin_is_terminal: bool,
    client: Backend,
) -> BodySource {
    if has_file {
        BodySource::File
    } else if has_body {
        BodySource::Inline
    } else if !stdin_is_terminal {
        if client == Backend::H1 {
            BodySource::StdinBuffered
        } else {
            BodySource::StdinStreamed
        }
    } else {
        BodySource::Empty
    }
}

/// A request as described on the command line.
#[derive(Debug)]
pub struct Longboard {
    pub method: Method,
    pub url: Url,
    /// A file whose contents are the request body.
    pub file: Option<PathBuf>,
    /// The request body, given inline.
    pub body: Option<String>,
    /// Header names and values, in the order given.
    pub headers: Vec<(String, String)>,
    /// The transport that sends the request.
    pub client: Backend,
    /// A cookie jar file, in newline-delimited JSON.
    pub jar: Option<PathBuf>,
}

impl Longboard {
    /// The URL the request goes to.
    pub fn url(&self) -> (r: Url)
        ensures
            r == self.url,
    {
        self.url.clone()
    }

    /// Whether every header name and value is ASCII, as the request demands.
    pub fn has_ascii_headers(&self) -> (r: bool)
        ensures
            r == headers_are_ascii(self.headers@),
    {
        let n = self.headers.len();
        let mut i: usize = 0;
        while i < n
            invariant
                n == self.headers@.len(),
                i <= n,
                forall|j: int| 0 <= j < i ==> header_is_ascii(#[trigger] self.headers@[j]),
            decreases n - i,
        {
            let (name, value) = &self.headers[i];
            let name_ok = name.as_str().is_ascii();
            let value_ok = value.as_str().is_ascii();
            if !name_ok || !value_ok {
                return false;
            }
            assert(header_is_ascii(self.headers@[i as int]));
            i = i + 1;
        }
        true
    }

    /// The outgoing request: the method, the URL, each header in order, and
    /// the body from the source that `body_source` picks. `loaded` is the body
    /// read from the file or streamed from standard input, and `stdin_text` is
    /// standard input read whole; each is used only for its source.
    pub fn request(
        &self,
        stdin_is_terminal: bool,
        loaded: Option<Body>,
        stdin_text: Option<String>,
    ) -> (r: Request)
        requires
            headers_are_ascii(self.headers@),
        ensures
            request_method(r) == self.method,
            request_url(r) == self.url,
            request_body(r) is None && request_body_text(r) is None ==> request_headers(r)
                == headers_map(self.headers@),
            request_body(r) is Some || request_body_text(r) is Some ==> content_type_filled(
                headers_map(self.headers@),
                request_headers(r),
            ),
            source_of(self, stdin_is_terminal) == BodySource::Empty ==> request_body(r) is None
                && request_body_text(r) is None,
            source_of(self, stdin_is_terminal) == BodySource::Inline ==> request_body(r) is None
                && request_body_text(r) == opt_text(self.body),
            source_of(self, stdin_is_terminal) == BodySource::StdinBuffered ==> request_body(r)
                is None && request_body_text(r) == opt_text(stdin_text),
            source_of(self, stdin_is_terminal) == BodySource::File || source_of(
                self,
                stdin_is_terminal,
            ) == BodySource::StdinStreamed ==> request_body(r) == loaded && request_body_text(r)
                is None,
    {
        let mut request = Request::new(self.method, self.url.clone());
        let n = self.headers.len();
        let mut i: usize = 0;
        while i < n
            invariant
                n == self.headers@.len(),
                i <= n,
                headers_are_ascii(self.headers@),
                request_method(request) == self.method,
                request_url(request) == self.url,
                request_headers(request) == headers_map(self.headers@.subrange(0, i as int)),
                request_body(request) is None,
                request_body_text(request) is None,
            decreases n - i,
        {
            let (name, value) = &self.headers[i];
            append_header(&mut request, name.as_str(), value.as_str());
            assert(self.headers@.subrange(0, i + 1) =~= self.headers@.subrange(0, i as int).push(
                self.headers@[i as int],
            ));
            assert(self.headers@.subrange(0, i + 1).drop_last() =~= self.headers@.subrange(
                0,
                i as int,
            ));
            i = i + 1;
        }
        assert(self.headers@.subrange(0, n as int) =~= self.headers@);
        match self.body_source(stdin_is_terminal) {
            BodySource::File | BodySource::StdinStreamed => {
                if let Some(b) = loaded {
                    set_body(&mut request, b);
                }
            },
            BodySource::Inline => {
                if let Some(text) = &self.body {
                    set_body_text(&mut request, text.clone());
                }
            },
            BodySource::StdinBuffered => {
                if let Some(text) = stdin_text {
                    set_body_text(&mut request, text);
                }
            },
            BodySource::Empty => {},
        }
        request
    }

    /// Where the request body comes from, given whether standard input is a terminal.
    pub fn body_source(&self, stdin_is_terminal: bool) -> (r: BodySource)
        ensures
            r == body_source_of(
                self.file is Some,
                self.body is Some,
                stdin_is_terminal,
                self.client,
            ),
    {
        if self.file.is_some() {
            BodySource::File
        } else if self.body.is_some() {
            BodySource::Inline
        } else if !stdin_is_terminal {
            if self.client == Backend::H1 {
                BodySource::StdinBuffered
            } else {
                BodySource::StdinStreamed
            }
        } else {
            BodySource::Empty
        }
    }
}

/// With no file, no inline body and standard input on a terminal, the
/// request has no body.
pub proof fn no_source_means_no_body(client: Backend)
    ensures
        body_source_of(false, false, true, client) == BodySource::Empty,
{
}

/// A file given together with an inline body is the one used.
pub proof fn file_wins_over_inline(stdin_is_terminal: bool, client: Backend)
    ensures
        body_source_of(true, true, stdin_is_terminal, client) == BodySource::File,
{
}

} // verus!
