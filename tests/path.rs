use burgundy::{string_or_error, Domain, Error, Method, Response};

#[test]
fn push_works() {
    let domain = Domain::new(&"https://api.example.com");
    let path = domain.get().push(&"org").push(&"Microsoft").push(&"projects");

    assert_eq!(path.render(&domain), "https://api.example.com/org/Microsoft/projects");
}

#[test]
fn path_domain_should_strip_slash() {
    let domain = Domain::new(&"https://api.example.com");
    let path = domain.get().push(&"list").push(&123);

    assert_eq!(path.render(&domain), "https://api.example.com/list/123");
}

#[test]
fn query_parameters() {
    let domain = Domain::new("https://api.example.com");
    let path = domain.get().push(&"list").query(&"size", &50).query(&"index", &2);

    assert_eq!(path.render(&domain), "https://api.example.com/list?size=50&index=2");
}

#[test]
fn end_to_end_push_renders_segments() {
    let domain = Domain::new("https://api.example.com/");
    let path = domain.get().push(&"list").push(&123);
    assert_eq!(path.render(&domain), "https://api.example.com/list/123");
}

#[test]
fn query_suffix_uses_question_mark_then_ampersand() {
    let domain = Domain::new("https://api.example.com");
    let path = domain.get().query(&"size", &50).query(&"index", &2);
    assert!(path.render(&domain).ends_with("?size=50&index=2"));
}

#[test]
fn push_segments_keep_one_slash_each() {
    let domain = Domain::new("https://api.example.com");
    let path = domain.get().push(&"a").push(&"").push(&"b");
    assert_eq!(path.render(&domain), "https://api.example.com/a//b");
    let path = domain.get().push(&String::from("x")).push(&7u64).push(&-3i64);
    assert_eq!(path.render(&domain), "https://api.example.com/x/7/-3");
}

#[test]
fn push_partial_adds_no_slash() {
    let domain = Domain::new("https://api.example.com");
    let path = domain.get().push(&"file").push_partial(&".json");
    assert_eq!(path.render(&domain), "https://api.example.com/file.json");
}

#[test]
fn render_is_repeatable() {
    let mut domain = Domain::new("https://api.example.com/");
    domain.query(&"a", &1);
    let path = domain.get().push(&"list").query(&"b", &2);
    let first = path.render(&domain);
    let second = path.render(&domain);
    assert_eq!(first, second);
    assert_eq!(first, "https://api.example.com/list?a=1&b=2");
}

#[test]
fn status_200_gives_the_body() {
    let response = Response { status: 200, body: "OK".to_string() };
    assert_eq!(string_or_error(Ok(response)), Ok("OK".to_string()));
}

#[test]
fn status_404_gives_request_not_ok() {
    let response = Response { status: 404, body: "nope".to_string() };
    assert_eq!(
        string_or_error(Ok(response)),
        Err(Error::RequestNotOk { status: 404, body: "nope".to_string() })
    );
}

#[test]
fn status_201_is_not_success() {
    let response = Response { status: 201, body: "made".to_string() };
    assert!(matches!(string_or_error(Ok(response)), Err(Error::RequestNotOk { status: 201, .. })));
}

#[test]
fn transport_error_passes_through() {
    let error = Error::NetworkError { error: "refused".to_string() };
    assert_eq!(string_or_error(Err(error.clone())), Err(error));
}

#[test]
fn get_body_goes_into_query_not_payload() {
    let domain = Domain::new("https://api.example.com");
    let path = domain.get().push(&"list");
    let body = serde_urlencoded::to_string(&vec![("size", 50)]).unwrap();
    let request = path.into_request(&domain, Some(body));
    assert_eq!(request.method, Method::Get);
    assert_eq!(request.payload, None);
    assert_eq!(request.url, "https://api.example.com/list?size=50");
}

#[test]
fn get_body_follows_existing_queries() {
    let mut domain = Domain::new("https://api.example.com");
    domain.query(&"a", &1);
    let path = domain.get().push(&"list").query(&"b", &2);
    let request = path.into_request(&domain, Some("size=50".to_string()));
    assert_eq!(request.url, "https://api.example.com/list?a=1&b=2&size=50");
    assert_eq!(request.payload, None);
}

#[test]
fn post_body_is_the_payload() {
    let domain = Domain::new("https://api.example.com");
    let path = domain.post().push(&"list");
    let request = path.into_request(&domain, Some("{\"size\":50}".to_string()));
    assert_eq!(request.method, Method::Post);
    assert_eq!(request.url, "https://api.example.com/list");
    assert_eq!(request.payload, Some("{\"size\":50}".to_string()));
}

#[test]
fn no_body_no_payload() {
    let domain = Domain::new("https://api.example.com");
    let request = domain.put().push(&"x").into_request(&domain, None);
    assert_eq!(request.payload, None);
    assert_eq!(request.url, "https://api.example.com/x");
}

#[test]
fn domain_and_path_headers_are_both_sent() {
    let mut domain = Domain::new("https://api.example.com");
    domain.header("Accept", &"application/json");
    let mut path = domain.get().push(&"list");
    path.header("Accept", &"text/plain");
    path.header("X-Count", &3);
    let request = path.into_request(&domain, None);
    assert_eq!(
        request.headers,
        vec![
            ("Accept".to_string(), "application/json".to_string()),
            ("Accept".to_string(), "text/plain".to_string()),
            ("X-Count".to_string(), "3".to_string()),
        ]
    );
}

#[test]
fn error_constructors_fill_their_fields() {
    assert_eq!(
        Error::new_deserialization_error("bad".to_string(), "{".to_string()),
        Error::DeserializationError { error: "bad".to_string(), text: "{".to_string() }
    );
    assert_eq!(
        Error::new_request_not_ok(Response { status: 500, body: "x".to_string() }),
        Error::RequestNotOk { status: 500, body: "x".to_string() }
    );
    assert_eq!(
        Error::new_serialize_query_error("q".to_string()),
        Error::SerializeQueryError { error: "q".to_string() }
    );
    assert_eq!(
        Error::new_serialize_body_error("b".to_string()),
        Error::SerializeBodyError { error: "b".to_string() }
    );
}
