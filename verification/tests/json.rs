use yall::json::Json;

#[test]
fn builders() {
    assert_eq!(Json::text("a"), Json::Text("a".to_string()));
    assert_eq!(Json::list1(Json::text("a")), Json::List(vec![Json::Text("a".to_string())]));
    assert_eq!(
        Json::object1("k", Json::text("v")),
        Json::Object(vec![("k".to_string(), Json::Text("v".to_string()))])
    );
}

#[test]
fn with_adds_a_member_at_the_end() {
    let json = Json::object1("a", Json::text("1")).with("b", Json::list1(Json::text("2"))).with("a", Json::text("3"));
    assert_eq!(
        json,
        Json::Object(vec![
            ("a".to_string(), Json::Text("1".to_string())),
            ("b".to_string(), Json::List(vec![Json::Text("2".to_string())])),
            ("a".to_string(), Json::Text("3".to_string())),
        ])
    );
}

#[test]
fn with_leaves_other_documents_alone() {
    assert_eq!(Json::text("a").with("k", Json::text("v")), Json::text("a"));
    assert_eq!(Json::list1(Json::text("a")).with("k", Json::text("v")), Json::list1(Json::text("a")));
    let parsed = Json::Parsed(serde_json::Value::Bool(true));
    assert_eq!(parsed.with("k", Json::text("v")), Json::Parsed(serde_json::Value::Bool(true)));
}
