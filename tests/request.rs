use longboard::backend::Backend;
use longboard::longboard::{BodySource, Longboard};
use std::path::PathBuf;
use surf::http::Method;
use surf::{Body, Url};

fn sample(file: Option<&str>, body: Option<&str>, client: Backend) -> Longboard {
    Longboard {
        method: Method::Post,
        url: Url::parse("http://httpbin.org/anything/x.json").unwrap(),
        file: file.map(PathBuf::from),
        body: body.map(String::from),
        headers: vec![
            (String::from("Accept"), String::from("application/json")),
            (String::from("X-Two"), String::from("a=b")),
        ],
        client,
        jar: None,
    }
}

#[test]
fn no_source_gives_no_body() {
    for client in [Backend::H1, Backend::Curl, Backend::Hyper] {
        assert_eq!(sample(None, None, client).body_source(true), BodySource::Empty);
    }
}

#[test]
fn file_wins_over_inline_body() {
    let lb = sample(Some("./body.json"), Some("{}"), Backend::H1);
    assert_eq!(lb.body_source(true), BodySource::File);
    assert_eq!(lb.body_source(false), BodySource::File);
}

#[test]
fn inline_wins_over_stdin() {
    let lb = sample(None, Some("{}"), Backend::Curl);
    assert_eq!(lb.body_source(false), BodySource::Inline);
    assert_eq!(lb.body_source(true), BodySource::Inline);
}

#[test]
fn piped_stdin_is_buffered_for_h1_only() {
    assert_eq!(
        sample(None, None, Backend::H1).body_source(false),
        BodySource::StdinBuffered
    );
    assert_eq!(
        sample(None, None, Backend::Curl).body_source(false),
        BodySource::StdinStreamed
    );
    assert_eq!(
        sample(None, None, Backend::Hyper).body_source(false),
        BodySource::StdinStreamed
    );
}

#[test]
fn url_is_a_copy() {
    let lb = sample(None, None, Backend::H1);
    assert_eq!(lb.url().as_str(), "http://httpbin.org/anything/x.json");
}

#[test]
fn ascii_headers_are_checked() {
    let mut lb = sample(None, None, Backend::H1);
    assert!(lb.has_ascii_headers());
    lb.headers.push((String::from("X-Name"), String::from("välue")));
    assert!(!lb.has_ascii_headers());
    lb.headers.clear();
    assert!(lb.has_ascii_headers());
}

#[test]
fn request_carries_method_url_and_headers() {
    let lb = sample(None, None, Backend::H1);
    let mut req = lb.request(true, None, None);
    assert_eq!(req.method(), Method::Post);
    assert_eq!(req.url().as_str(), "http://httpbin.org/anything/x.json");
    assert_eq!(req.header("accept").unwrap().last().as_str(), "application/json");
    assert_eq!(req.header("x-two").unwrap().last().as_str(), "a=b");
    assert_eq!(req.take_body().len(), Some(0));
}

#[test]
fn request_with_no_source_has_no_body() {
    let lb = sample(None, None, Backend::Curl);
    let loaded = Some(Body::from_string(String::from("unused")));
    let mut req = lb.request(true, loaded, Some(String::from("unused")));
    assert_eq!(req.take_body().len(), Some(0));
}

#[test]
fn request_uses_inline_body() {
    let lb = sample(None, Some("{\"hello\": \"world\"}"), Backend::H1);
    let mut req = lb.request(false, None, Some(String::from("from stdin")));
    assert_eq!(req.method(), Method::Post);
    assert_eq!(req.take_body().len(), Some(18));
}

#[test]
fn request_file_body_wins_over_inline() {
    let lb = sample(Some("./body.json"), Some("inline"), Backend::H1);
    let loaded = Some(Body::from_string(String::from("file contents")));
    let mut req = lb.request(true, loaded, None);
    assert_eq!(req.take_body().len(), Some(13));
}

#[test]
fn request_buffers_stdin_for_h1() {
    let lb = sample(None, None, Backend::H1);
    let mut req = lb.request(false, None, Some(String::from("piped")));
    assert_eq!(req.take_body().len(), Some(5));
}

#[test]
fn request_streams_stdin_for_other_backends() {
    let lb = sample(None, None, Backend::Hyper);
    let loaded = Some(Body::from_reader(async_std::io::Cursor::new(vec![1u8, 2, 3]), None));
    let mut req = lb.request(false, loaded, Some(String::from("ignored")));
    assert_eq!(req.take_body().len(), None);
}

#[test]
fn request_files_headers_by_lower_case_name() {
    let mut lb = sample(None, None, Backend::H1);
    lb.headers = vec![
        (String::from("X-Tag"), String::from("one")),
        (String::from("Accept"), String::from("text/html")),
        (String::from("x-TAG"), String::from("two")),
    ];
    let req = lb.request(true, None, None);
    let tags: Vec<&str> = req.header("x-tag").unwrap().iter().map(|v| v.as_str()).collect();
    assert_eq!(tags, vec!["one", "two"]);
    assert_eq!(req.header("ACCEPT").unwrap().last().as_str(), "text/html");
    assert!(req.header("content-type").is_none());
}

#[test]
fn request_keeps_given_content_type() {
    let mut lb = sample(None, Some("{}"), Backend::H1);
    lb.headers = vec![(String::from("Content-Type"), String::from("application/json"))];
    let req = lb.request(true, None, None);
    let values: Vec<&str> = req
        .header("content-type")
        .unwrap()
        .iter()
        .map(|v| v.as_str())
        .collect();
    assert_eq!(values, vec!["application/json"]);
}

#[test]
fn request_body_fills_missing_content_type() {
    let mut lb = sample(None, Some("hello"), Backend::H1);
    lb.headers = vec![];
    let req = lb.request(true, None, None);
    assert_eq!(req.header("content-type").unwrap().iter().count(), 1);
}
