use longboard::render::{
    body_name, body_title, output_mode, pretty_sections, same_text, status_line, OutputMode,
};

#[test]
fn redirected_output_is_raw() {
    assert_eq!(output_mode(false), OutputMode::Raw);
    assert_eq!(output_mode(true), OutputMode::Pretty);
}

#[test]
fn terminal_output_has_three_sections() {
    let parts = pretty_sections(
        "{\"content-type\": \"application/json\"}",
        "200",
        "OK",
        Some("application/json"),
        "/anything",
        "{\"a\":1}",
    );
    assert_eq!(parts.len(), 3);
    assert_eq!(parts[0].name, "headers.rs");
    assert_eq!(parts[0].title, "response headers");
    assert_eq!(parts[0].text, "{\"content-type\": \"application/json\"}");
    assert_eq!(parts[1].name, "status");
    assert_eq!(parts[1].title, "status");
    assert_eq!(parts[1].text, "200: OK");
    assert_eq!(parts[2].name, "body.json");
    assert_eq!(parts[2].title, "response body (application/json)");
    assert_eq!(parts[2].text, "{\"a\":1}");
}

#[test]
fn terminal_output_without_content_type() {
    let parts = pretty_sections("{}", "404", "Not Found", None, "/missing.html", "");
    assert_eq!(parts[1].text, "404: Not Found");
    assert_eq!(parts[2].name, "/missing.html");
    assert_eq!(parts[2].title, "response body");
    assert_eq!(parts[2].text, "");
}

#[test]
fn body_name_follows_content_type_or_path() {
    assert_eq!(body_name(Some("application/json"), "/x.txt"), "body.json");
    assert_eq!(body_name(Some("text/html"), "/index.html"), "/index.html");
    assert_eq!(
        body_name(Some("application/json; charset=utf-8"), "/a"),
        "/a"
    );
    assert_eq!(body_name(None, "/data.yaml"), "/data.yaml");
}

#[test]
fn body_title_mentions_content_type() {
    assert_eq!(body_title(Some("text/plain")), "response body (text/plain)");
    assert_eq!(body_title(None), "response body");
}

#[test]
fn status_line_joins_code_and_reason() {
    assert_eq!(status_line("201", "Created"), "201: Created");
}

#[test]
fn text_comparison() {
    assert!(same_text("abc", "abc"));
    assert!(same_text("", ""));
    assert!(!same_text("abc", "abd"));
    assert!(!same_text("abc", "ab"));
}
