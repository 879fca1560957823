use longboard::backend::Backend;
use longboard::header::parse_header;
use longboard::method::{method_from_upper, parse_method_case_insensitive};
use surf::http::Method;

#[test]
fn header_splits_at_first_equals() {
    let (k, v) = parse_header("Authorization=Basic u:p=x").unwrap();
    assert_eq!(k, "Authorization");
    assert_eq!(v, "Basic u:p=x");
}

#[test]
fn header_with_empty_parts() {
    assert_eq!(parse_header("=").unwrap(), (String::new(), String::new()));
    assert_eq!(
        parse_header("Accept=").unwrap(),
        (String::from("Accept"), String::new())
    );
    assert_eq!(
        parse_header("=json").unwrap(),
        (String::new(), String::from("json"))
    );
}

#[test]
fn header_with_non_ascii_text() {
    let (k, v) = parse_header("clé=välue").unwrap();
    assert_eq!(k, "clé");
    assert_eq!(v, "välue");
}

#[test]
fn header_without_equals_fails() {
    let e = parse_header("Accept: application/json").unwrap_err();
    assert_eq!(e.input, "Accept: application/json");
    assert_eq!(
        e.message(),
        "invalid KEY=value: no `=` found in `Accept: application/json`"
    );
    assert!(parse_header("").is_err());
}

#[test]
fn method_in_any_case() {
    assert_eq!(parse_method_case_insensitive("get").unwrap(), Method::Get);
    assert_eq!(parse_method_case_insensitive("GET").unwrap(), Method::Get);
    assert_eq!(parse_method_case_insensitive("PoSt").unwrap(), Method::Post);
    assert_eq!(
        parse_method_case_insensitive("baseline-control").unwrap(),
        Method::BaselineControl
    );
}

#[test]
fn method_upper_cased_beyond_ascii() {
    // U+0131, the dotless i, has the upper-case form `I`.
    assert_eq!(parse_method_case_insensitive("l\u{131}nk").unwrap(), Method::Link);
}

#[test]
fn method_unknown_fails() {
    let e = parse_method_case_insensitive("fetch").unwrap_err();
    assert_eq!(e.input, "fetch");
    assert_eq!(e.message(), "Invalid HTTP method");
    assert!(parse_method_case_insensitive("").is_err());
    assert!(parse_method_case_insensitive("get ").is_err());
}

#[test]
fn backend_aliases() {
    assert_eq!(Backend::from_str("h1").unwrap(), Backend::H1);
    assert_eq!(Backend::from_str("async-h1").unwrap(), Backend::H1);
    assert_eq!(Backend::from_str("curl").unwrap(), Backend::Curl);
    assert_eq!(Backend::from_str("isahc").unwrap(), Backend::Curl);
    assert_eq!(Backend::from_str("hyper").unwrap(), Backend::Hyper);
}

#[test]
fn backend_in_any_case() {
    assert_eq!(Backend::from_str("H1").unwrap(), Backend::H1);
    assert_eq!(Backend::from_str("Async-H1").unwrap(), Backend::H1);
    assert_eq!(Backend::from_str("ISAHC").unwrap(), Backend::Curl);
    assert_eq!(Backend::from_str("HyPeR").unwrap(), Backend::Hyper);
}

#[test]
fn backend_unknown_fails() {
    let e = Backend::from_str("reqwest").unwrap_err();
    assert_eq!(e.input, "reqwest");
    assert_eq!(e.message(), "unrecognized backend reqwest");
    assert!(Backend::from_str("").is_err());
    assert!(Backend::from_str("h2").is_err());
    assert!(Backend::from_str("hyper1").is_err());
}

#[test]
fn method_from_upper_case_form() {
    assert_eq!(method_from_upper("DELETE", "delete").unwrap(), Method::Delete);
    assert_eq!(method_from_upper("version-control", "x").unwrap(), Method::VersionControl);
    let e = method_from_upper("FETCH", "fetch").unwrap_err();
    assert_eq!(e.input, "fetch");
}

#[test]
fn every_method_name_reads_back() {
    let all = [
        Method::Acl, Method::BaselineControl, Method::Bind, Method::Checkin, Method::Checkout,
        Method::Connect, Method::Copy, Method::Delete, Method::Get, Method::Head, Method::Label,
        Method::Link, Method::Lock, Method::Merge, Method::MkActivity, Method::MkCalendar,
        Method::MkCol, Method::MkRedirectRef, Method::MkWorkspace, Method::Move, Method::Options,
        Method::OrderPatch, Method::Patch, Method::Post, Method::Pri, Method::PropFind,
        Method::PropPatch, Method::Put, Method::Rebind, Method::Report, Method::Search,
        Method::Trace, Method::Unbind, Method::Uncheckout, Method::Unlink, Method::Unlock,
        Method::Update, Method::UpdateRedirectRef, Method::VersionControl,
    ];
    for m in all {
        let name = m.to_string();
        assert_eq!(parse_method_case_insensitive(&name).unwrap(), m);
        assert_eq!(parse_method_case_insensitive(&name.to_lowercase()).unwrap(), m);
    }
}

#[test]
fn method_case_variants_agree() {
    assert_eq!(parse_method_case_insensitive("pAtCh").unwrap(), Method::Patch);
    assert_eq!(parse_method_case_insensitive("delete").unwrap(), Method::Delete);
    assert_eq!(parse_method_case_insensitive("DELETE").unwrap(), Method::Delete);
    assert!(parse_method_case_insensitive("FeTcH").is_err());
    assert!(parse_method_case_insensitive("fetch").is_err());
}

#[test]
fn method_non_ascii_unknown_fails() {
    assert!(parse_method_case_insensitive("g\u{e9}t").is_err());
    assert!(parse_method_case_insensitive("\u{131}").is_err());
}
