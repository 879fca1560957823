use vstd::prelude::*;

verus! {

/// One labelled part of the rendered response.
#[derive(Debug, Clone, PartialEq, Eq)]
pub struct Section {
    /// The file name that drives syntax detection.
    pub name: String,
    /// The title printed above the part.
    pub title: String,
    /// The text of the part.
    pub text: String,
}

/// How the response reaches standard output.
#[derive(Debug, Clone, Copy, PartialEq, Eq, Structural)]
pub enum OutputMode {
    /// The body bytes, copied as they are.
    Raw,
    /// Headers, status and body as labelled parts for the pretty-printer.
    Pretty,
}

/// Chooses how the response is shown: a terminal gets labelled parts,
/// redirected output gets the body bytes as they are.
pub fn output_mode(stdout_is_terminal: bool) -> (r: OutputMode)
    ensures
        r == (if stdout_is_terminal {
            OutputMode::Pretty
        } else {
            OutputMode::Raw
        }),
{
    if stdout_is_terminal {
        OutputMode::Pretty
    } else {
        OutputMode::Raw
    }
}

/// The media type that gets a JSON label.
pub open spec fn json_type() -> Seq<char> {
    "application/json"@
}

/// The name that drives syntax detection of the body: JSON responses are
/// labelled `body.json`, others by the URL path.
pub open spec fn body_name_of(content_type: Option<Seq<char>>, url_path: Seq<char>) -> Seq<char> {
    if content_type == Some(json_type()) {
        "body.json"@
    } else {
        url_path
    }
}

/// The title of the body part.
pub open spec fn body_title_of(content_type: Option<Seq<char>>) -> Seq<char> {
    match content_type {
        Some(t) => "response body ("@ + t + ")"@,
        None => "response body"@,
    }
}

/// The status line: the code, a colon, and the reason phrase.
pub open spec fn status_line_of(code: Seq<char>, reason: Seq<char>) -> Seq<char> {
    code + ": "@ + reason
}

/// The view of an optional string.
pub open spec fn opt_view(s: Option<&str>) -> Option<Seq<char>> {
    match s {
        Some(t) => Some(t@),
        None => None,
    }
}

/// Whether two texts are equal.
pub fn same_text(a: &str, b: &str) -> (r: bool)
    ensures
        r == (a@ == b@),
{
    let n = a.unicode_len();
    if n != b.unicode_len() {
        return false;
    }
    let mut i: usize = 0;
    while i < n
        invariant
            n == a@.len(),
            n == b@.len(),
            i <= n,
            forall|j: int| 0 <= j < i ==> a@[j] == b@[j],
        decreases n - i,
    {
        if a.get_char(i) != b.get_char(i) {
            return false;
        }
        i = i + 1;
    }
    assert(a@ =~= b@);
    true
}

/// The name that drives syntax detection of the body.
pub fn body_name(content_type: Option<&str>, url_path: &str) -> (r: String)
    ensures
        r@ == body_name_of(opt_view(content_type), url_path@),
{
    let is_json = match content_type {
        Some(t) => same_text(t, "application/json"),
        None => false,
    };
    if is_json {
        String::from_str("body.json")
    } else {
        url_path.to_string()
    }
}

/// The title of the body part.
pub fn body_title(content_type: Option<&str>) -> (r: String)
    ensures
        r@ == body_title_of(opt_view(content_type)),
{
    match content_type {
        Some(t) => {
            let mut r = String::from_str("response body (");
            r.append(t);
            r.append(")");
            r
        },
        None => String::from_str("response body"),
    }
}

/// The status line: the code, a colon, and the reason phrase.
pub fn status_line(code: &str, reason: &str) -> (r: String)
    ensures
        r@ == status_line_of(code@, reason@),
{
    let mut r = code.to_string();
    r.append(": ");
    r.append(reason);
    r
}

/// The parts that a terminal shows, in order: headers, status, body.
pub open spec fn pretty_sections_of(
    headers: Seq<char>,
    code: Seq<char>,
    reason: Seq<char>,
    content_type: Option<Seq<char>>,
    url_path: Seq<char>,
    body: Seq<char>,
) -> Seq<(Seq<char>, Seq<char>, Seq<char>)> {
    seq![
        ("headers.rs"@, "response headers"@, headers),
        ("status"@, "status"@, status_line_of(code, reason)),
        (body_name_of(content_type, url_path), body_title_of(content_type), body),
    ]
}

/// The view of a section: name, title, text.
pub open spec fn section_view(s: Section) -> (Seq<char>, Seq<char>, Seq<char>) {
    (s.name@, s.title@, s.text@)
}

/// The three labelled parts a terminal shows, in order: headers, status, body.
pub fn pretty_sections(
    headers: &str,
    code: &str,
    reason: &str,
    content_type: Option<&str>,
    url_path: &str,
    body: &str,
) -> (parts: Vec<Section>)
    ensures
        parts@.map_values(|s: Section| section_view(s)) == pretty_sections_of(
            headers@,
            code@,
            reason@,
            opt_view(content_type),
            url_path@,
            body@,
        ),
{
    let mut parts: Vec<Section> = Vec::new();
    parts.push(
        Section {
            name: String::from_str("headers.rs"),
            title: String::from_str("response headers"),
            text: headers.to_string(),
        },
    );
    parts.push(
        Section {
            name: String::from_str("status"),
            title: String::from_str("status"),
            text: status_line(code, reason),
        },
    );
    parts.push(
        Section {
            name: body_name(content_type, url_path),
            title: body_title(content_type),
            text: body.to_string(),
        },
    );
    let ghost want = pretty_sections_of(
        headers@,
        code@,
        reason@,
        opt_view(content_type),
        url_path@,
        body@,
    );
    assert(parts@.map_values(|s: Section| section_view(s)) =~= want);
    parts
}

/// On a terminal the output has three distinct parts, headers, status and
/// body, and a JSON response body is labelled `body.json`.
pub proof fn terminal_output_labels_json(
    headers: Seq<char>,
    code: Seq<char>,
    reason: Seq<char>,
    url_path: Seq<char>,
    body: Seq<char>,
)
    ensures
        ({
            let parts = pretty_sections_of(headers, code, reason, Some(json_type()), url_path, body);
            &&& parts.len() == 3
            &&& parts[0].0 != parts[1].0
            &&& parts[1].0 != parts[2].0
            &&& parts[0].0 != parts[2].0
            &&& parts[2].0 == "body.json"@
        }),
{
    reveal_strlit("headers.rs");
    reveal_strlit("status");
    reveal_strlit("body.json");
    assert("headers.rs"@[0] != "status"@[0]);
    assert("status"@.len() != "body.json"@.len());
    assert("headers.rs"@.len() != "body.json"@.len());
}

} // verus!
