use request_builder::type_state_builder_pattern::RequestBuilder;

fn s(text: &str) -> String {
    String::from(text)
}

#[test]
fn type_state_builder_pattern_build_request_success() {
    let req_builder = RequestBuilder::new()
        .method(s("GET"))
        .url(s("url"))
        .body(s("body"))
        .header(s("xxx-user-agent"), s("something"))
        .seal()
        .build();

    assert_eq!(req_builder.url, "url");
}

#[test]
fn end_to_end_request() {
    let r = RequestBuilder::new()
        .method(s("GET"))
        .url(s("http://x"))
        .body(s("payload"))
        .header(s("A"), s("1"))
        .seal()
        .build();
    assert_eq!(r.url, "http://x");
    assert_eq!(r.method, "GET");
    assert_eq!(r.body, Some(s("payload")));
    assert_eq!(r.header, vec![(s("A"), s("1"))]);
}

#[test]
fn url_then_method_matches_method_then_url() {
    let a = RequestBuilder::new().url(s("http://x")).method(s("PUT")).seal().build();
    let b = RequestBuilder::new().method(s("PUT")).url(s("http://x")).seal().build();
    assert_eq!(a.url, b.url);
    assert_eq!(a.method, b.method);
    assert_eq!(a.body, b.body);
    assert_eq!(a.header, b.header);
    assert_eq!(a.method, "PUT");
}

#[test]
fn headers_keep_insertion_order_with_duplicates() {
    let r = RequestBuilder::new()
        .header(s("K"), s("1"))
        .url(s("u"))
        .header(s("J"), s("2"))
        .method(s("GET"))
        .header(s("K"), s("3"))
        .seal()
        .build();
    assert_eq!(
        r.header,
        vec![(s("K"), s("1")), (s("J"), s("2")), (s("K"), s("3"))]
    );
}

#[test]
fn second_url_method_and_body_win() {
    let r = RequestBuilder::new()
        .url(s("old"))
        .method(s("GET"))
        .body(s("first"))
        .url(s("new"))
        .method(s("POST"))
        .body(s("second"))
        .seal()
        .build();
    assert_eq!(r.url, "new");
    assert_eq!(r.method, "POST");
    assert_eq!(r.body, Some(s("second")));
}

#[test]
fn no_body_and_no_headers_when_none_given() {
    let r = RequestBuilder::new().url(s("u")).method(s("GET")).seal().build();
    assert_eq!(r.body, None);
    assert!(r.header.is_empty());
}
