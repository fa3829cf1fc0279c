use sdui::auth::{
    login_from_data, login_response, search_schools_response, search_url, LoginResponse, School,
    LOGIN_URL,
};
use sdui::envelope::GenericSduiResponse;
use sdui::error::SduiError;
use sdui::json::{Json, JsonNumber};
use sdui::rate_limit::{parse_u64, RateLimit};

fn no_headers() -> Vec<(String, String)> {
    Vec::new()
}

fn header(name: &str, value: &str) -> (String, String) {
    (name.to_string(), value.to_string())
}

#[test]
fn login_body_decodes_token_and_expiry() {
    let body = r#"{"data": {"access_token": "abc123", "expires_in": 3600}}"#;
    let (login, rate_limit) = login_response(&no_headers(), body).unwrap();
    assert_eq!(login.get_token(), "abc123");
    assert_eq!(login.get_expires_in(), 3600);
    assert_eq!(rate_limit, RateLimit::default());
}

#[test]
fn search_skips_malformed_items() {
    let body = r#"{"data": [{"id":1,"name":"A"}, "not-an-object", {"id":2,"name":"B"}]}"#;
    let (schools, _) = search_schools_response(&no_headers(), body).unwrap();
    assert_eq!(
        schools,
        vec![
            School { id: 1, name: "A".to_string() },
            School { id: 2, name: "B".to_string() },
        ]
    );
}

#[test]
fn search_keeps_order_of_valid_items_among_invalid_ones() {
    let body = r#"{"data": [7, {"id":3,"name":"C"}, {"id":"x","name":"D"}, {"name":"E"},
        {"id":1,"name":"F"}, {"id":2}, null, {"id":-4,"name":"G"}, {"id":9,"name":"H","city":"Z"}]}"#;
    let (schools, _) = search_schools_response(&no_headers(), body).unwrap();
    let ids: Vec<u64> = schools.iter().map(|s| s.id).collect();
    assert_eq!(ids, vec![3, 1, 9]);
    assert_eq!(schools[2].name, "H");
}

#[test]
fn search_of_only_invalid_items_is_empty() {
    let body = r#"{"data": [1, "two", [3], {"id": 4.5, "name": "X"}]}"#;
    let (schools, _) = search_schools_response(&no_headers(), body).unwrap();
    assert!(schools.is_empty());
}

#[test]
fn search_data_not_array_is_json_error() {
    let body = r#"{"data": {"id":1,"name":"A"}}"#;
    let r = search_schools_response(&no_headers(), body);
    assert!(matches!(r, Err(SduiError::JSONError)));
}

#[test]
fn login_missing_field_is_login_error() {
    let no_expiry = r#"{"data": {"access_token": "abc123"}}"#;
    assert!(matches!(login_response(&no_headers(), no_expiry), Err(SduiError::LoginError)));
    let no_token = r#"{"data": {"expires_in": 3600}}"#;
    assert!(matches!(login_response(&no_headers(), no_token), Err(SduiError::LoginError)));
}

#[test]
fn login_wrong_field_type_is_login_error() {
    let bodies = [
        r#"{"data": {"access_token": 5, "expires_in": 3600}}"#,
        r#"{"data": {"access_token": "t", "expires_in": -1}}"#,
        r#"{"data": {"access_token": "t", "expires_in": 1.5}}"#,
        r#"{"data": {"access_token": "t", "expires_in": "3600"}}"#,
        r#"{"data": "abc123"}"#,
        r#"{"data": null}"#,
    ];
    for body in bodies {
        assert!(matches!(login_response(&no_headers(), body), Err(SduiError::LoginError)));
    }
}

#[test]
fn login_without_data_is_json_error() {
    let body = r#"{"access_token": "abc123", "expires_in": 3600}"#;
    assert!(matches!(login_response(&no_headers(), body), Err(SduiError::JSONError)));
    assert!(matches!(login_response(&no_headers(), "[1]"), Err(SduiError::JSONError)));
}

#[test]
fn invalid_json_is_json_error() {
    for body in ["", "   ", "{", "{\"data\": [1,]}", "not json", "{\"data\": 1} trailing"] {
        assert!(matches!(search_schools_response(&no_headers(), body), Err(SduiError::JSONError)));
        assert!(matches!(login_response(&no_headers(), body), Err(SduiError::JSONError)));
        assert!(matches!(GenericSduiResponse::decode(body), Err(SduiError::JSONError)));
    }
}

#[test]
fn envelope_keeps_data_member() {
    let env = GenericSduiResponse::decode(r#"{"other": 1, "data": "payload"}"#).unwrap();
    assert_eq!(env.data.as_str(), Some("payload"));
}

#[test]
fn rate_limit_without_headers_is_neutral() {
    let r = RateLimit::from_headers(&no_headers());
    assert_eq!(r, RateLimit { limit: None, remaining: None, reset: None });
    let unrelated = vec![header("content-type", "application/json"), header("x-ratelimit", "5")];
    assert_eq!(RateLimit::from_headers(&unrelated), RateLimit::default());
}

#[test]
fn rate_limit_reads_headers() {
    let headers = vec![
        header("content-type", "application/json"),
        header("X-RateLimit-Limit", "60"),
        header("x-ratelimit-remaining", "+59"),
        header("x-ratelimit-reset", "1700000000"),
    ];
    let r = RateLimit::from_headers(&headers);
    assert_eq!(r, RateLimit { limit: Some(60), remaining: Some(59), reset: Some(1700000000) });
}

#[test]
fn rate_limit_malformed_headers_are_none() {
    let headers = vec![
        header("x-ratelimit-limit", "sixty"),
        header("x-ratelimit-remaining", "18446744073709551616"),
        header("x-ratelimit-reset", ""),
        header("x-ratelimit-limit", "60"),
    ];
    let r = RateLimit::from_headers(&headers);
    assert_eq!(r, RateLimit::default());
}

#[test]
fn rate_limit_is_returned_beside_result() {
    let headers = vec![header("x-ratelimit-remaining", "12")];
    let body = r#"{"data": []}"#;
    let (schools, rate_limit) = search_schools_response(&headers, body).unwrap();
    assert!(schools.is_empty());
    assert_eq!(rate_limit.remaining, Some(12));
    assert_eq!(rate_limit.limit, None);
}

#[test]
fn parse_u64_values() {
    assert_eq!(parse_u64("0"), Some(0));
    assert_eq!(parse_u64("3600"), Some(3600));
    assert_eq!(parse_u64("+7"), Some(7));
    assert_eq!(parse_u64("18446744073709551615"), Some(u64::MAX));
    assert_eq!(parse_u64("18446744073709551616"), None);
    assert_eq!(parse_u64(""), None);
    assert_eq!(parse_u64("+"), None);
    assert_eq!(parse_u64("-1"), None);
    assert_eq!(parse_u64(" 1"), None);
    assert_eq!(parse_u64("1a"), None);
}

#[test]
fn json_parse_reads_every_kind_of_value() {
    let doc = Json::parse(r#"[null, true, 7, -2, 1.5, "s", [], {"k": 1}]"#).unwrap();
    let items = match doc {
        Json::Array(items) => items,
        _ => panic!("not an array"),
    };
    assert_eq!(items.len(), 8);
    assert!(matches!(items[0], Json::Null));
    assert!(matches!(items[1], Json::Bool(true)));
    assert!(matches!(items[2], Json::Number(JsonNumber::Unsigned(7))));
    assert!(matches!(items[3], Json::Number(JsonNumber::Signed(-2))));
    match &items[4] {
        Json::Number(JsonNumber::Float(t)) => assert_eq!(t, "1.5"),
        other => panic!("unexpected {:?}", other),
    }
    assert_eq!(items[5].as_str(), Some("s"));
    assert!(matches!(&items[6], Json::Array(v) if v.is_empty()));
    assert_eq!(items[7].get("k").and_then(|k| k.as_u64()), Some(1));
    assert!(items[7].get("missing").is_none());
}

#[test]
fn json_parse_nesting_limit() {
    let ok = format!("{}{}", "[".repeat(127), "]".repeat(127));
    assert!(Json::parse(&ok).is_some());
    let deep = format!("{}{}", "[".repeat(128), "]".repeat(128));
    assert!(Json::parse(&deep).is_none());
}

#[test]
fn json_take_and_get() {
    let doc = Json::parse(r#"{"a": 1, "b": "two"}"#).unwrap();
    assert_eq!(doc.get("a").and_then(|a| a.as_u64()), Some(1));
    let b = doc.take("b").unwrap();
    assert_eq!(b.as_str(), Some("two"));
    assert!(Json::Null.take("b").is_none());
}

#[test]
fn login_from_data_reads_object() {
    let data = Json::Object(vec![
        ("expires_in".to_string(), Json::Number(JsonNumber::Signed(60))),
        ("access_token".to_string(), Json::Str("tok".to_string())),
    ]);
    let login = login_from_data(&data).unwrap();
    assert_eq!(login.get_token(), "tok");
    assert_eq!(login.get_expires_in(), 60);
    assert!(LoginResponse::from_value(&Json::Array(Vec::new())).is_none());
}

#[test]
fn school_from_value_needs_id_and_name() {
    let good = Json::Object(vec![
        ("id".to_string(), Json::Number(JsonNumber::Unsigned(5))),
        ("name".to_string(), Json::Str("Five".to_string())),
    ]);
    assert_eq!(School::from_value(&good), Some(School { id: 5, name: "Five".to_string() }));
    let no_name = Json::Object(vec![("id".to_string(), Json::Number(JsonNumber::Unsigned(5)))]);
    assert_eq!(School::from_value(&no_name), None);
}

#[test]
fn urls() {
    assert_eq!(search_url("peter"), "https://api.sdui.app/v1/leads?search=peter");
    assert_eq!(LOGIN_URL, "https://api.sdui.app/v1/auth/login");
}
