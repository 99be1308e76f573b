use burgundy::query_builder::QueryBuilder;

#[test]
fn query_builder_empty_query_is_blank() {
    let query = QueryBuilder::new();

    assert_eq!(query.to_string(), "");
    assert!(query.is_empty());
}

#[test]
fn query_builder_one_query_key_value() {
    let mut query = QueryBuilder::new();
    query.add(&"key", &"value");

    assert_eq!(query.to_string(), "key=value");
}

#[test]
fn query_builder_multiple_query_key_value() {
    let mut query = QueryBuilder::new();
    query.add(&"key", &"value");
    query.add(&"donkeyfy", &true);
    query.add(&"num_cats", &123);

    assert_eq!(query.to_string(), "key=value&donkeyfy=true&num_cats=123");
}

#[test]
fn query_with_blob() {
    let blob = vec![("pages", "123"), ("name", "abc_999_xyz")];
    let encoded = serde_urlencoded::to_string(&blob).unwrap();

    let mut query = QueryBuilder::new();
    query.add_blob(&encoded);

    assert_eq!(query.to_string(), "pages=123&name=abc_999_xyz");
}

#[test]
fn query_with_blob_and_parts() {
    let blob = vec![("pages", "123"), ("name", "abc_999_xyz")];
    let encoded = serde_urlencoded::to_string(&blob).unwrap();

    let mut query = QueryBuilder::new();
    query.add(&"donkeyfy", &true);
    query.add_blob(&encoded);
    query.add(&"num_cats", &123);

    assert_eq!(query.to_string(), "donkeyfy=true&pages=123&name=abc_999_xyz&num_cats=123");
}

#[test]
fn query_params_join_in_call_order_without_leading_separator() {
    let mut query = QueryBuilder::new();
    query.add(&"a", &1);
    assert_eq!(query.to_string(), "a=1");
    query.add(&"b", &"two");
    assert_eq!(query.to_string(), "a=1&b=two");
    query.add(&"c", &false);
    assert_eq!(query.to_string(), "a=1&b=two&c=false");
    assert!(!query.is_empty());
}

#[test]
fn query_empty_blob_keeps_query_empty() {
    let mut query = QueryBuilder::new();
    query.add_blob("");
    assert!(query.is_empty());
    assert_eq!(query.as_str(), "");
}
