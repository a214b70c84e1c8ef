use request_builder::option_builder_pattern::{BuildError, RequestBuilder};

fn s(text: &str) -> String {
    String::from(text)
}

#[test]
fn missing_url() {
    let req_builder = RequestBuilder::default().body(String::from("body")).build();

    assert_eq!(req_builder.err().unwrap(), BuildError::MissingUrl);
}

#[test]
fn missing_method() {
    let req_builder = RequestBuilder::default().url(String::from("url")).build();

    assert_eq!(req_builder.err().unwrap(), BuildError::MissingMethod);
}

#[test]
fn option_builder_pattern_build_request_success() {
    let req_builder = RequestBuilder::default()
        .url(s("url"))
        .method(s("GET"))
        .body(s("body"))
        .header(s("xxx-user-agent"), s("something"))
        .build();

    assert!(req_builder.is_ok());
}

#[test]
fn missing_url_reported_before_missing_method() {
    let r = RequestBuilder::default().header(s("A"), s("1")).build();
    assert_eq!(r.err().unwrap(), BuildError::MissingUrl);
}

#[test]
fn missing_method_with_url_and_body() {
    let r = RequestBuilder::default().body(s("b")).url(s("u")).build();
    assert_eq!(r.err().unwrap(), BuildError::MissingMethod);
}

#[test]
fn method_alone_reports_missing_url() {
    let r = RequestBuilder::default().method(s("GET")).build();
    assert_eq!(r.err().unwrap(), BuildError::MissingUrl);
}

#[test]
fn option_builder_keeps_fields_and_header_order() {
    let r = RequestBuilder::default()
        .url(s("first"))
        .url(s("http://x"))
        .method(s("POST"))
        .header(s("A"), s("1"))
        .header(s("A"), s("2"))
        .header(s("B"), s("3"))
        .build()
        .ok()
        .unwrap();
    assert_eq!(r.url, "http://x");
    assert_eq!(r.method, "POST");
    assert_eq!(r.body, None);
    assert_eq!(
        r.headers,
        vec![(s("A"), s("1")), (s("A"), s("2")), (s("B"), s("3"))]
    );
}

#[test]
fn option_builder_body_overwrite_keeps_last() {
    let r = RequestBuilder::default()
        .url(s("u"))
        .method(s("GET"))
        .body(s("one"))
        .body(s("two"))
        .build()
        .ok()
        .unwrap();
    assert_eq!(r.body, Some(s("two")));
}
