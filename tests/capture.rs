use httpc_test::{
    body_kind, classify, value_at_pointer, Body, BodyKind, Cookie, Header, HttpcError, Method, Response,
};

fn header(name: &str, value: &str) -> Header {
    Header::new(name.to_string(), Some(value.to_string()))
}

fn plain_cookie(name: &str, value: &str) -> Cookie {
    Cookie::from_attributes(name.to_string(), value.to_string(), None, None, None, None, None, None)
}

fn json_response(status: u16, body: &str, cookies: Vec<Cookie>, client_cookies: Vec<Cookie>) -> Response {
    Response::capture(
        Method::Get,
        "https://api.example.com/posts/1".to_string(),
        status,
        vec![header("content-type", "application/json; charset=utf-8")],
        client_cookies,
        cookies,
        body.as_bytes().to_vec(),
    )
    .unwrap()
}

#[test]
fn classify_by_content_type() {
    assert_eq!(classify(None), BodyKind::Opaque);
    assert_eq!(classify(Some("application/json")), BodyKind::Json);
    assert_eq!(classify(Some("application/json; charset=utf-8")), BodyKind::Json);
    assert_eq!(classify(Some("text/html")), BodyKind::Text);
    assert_eq!(classify(Some("text/plain; charset=utf-8")), BodyKind::Text);
    assert_eq!(classify(Some("image/png")), BodyKind::Opaque);
    assert_eq!(classify(Some("")), BodyKind::Opaque);
    assert_eq!(classify(Some("application/jso")), BodyKind::Opaque);
    assert_eq!(classify(Some("Application/JSON")), BodyKind::Opaque);
}

#[test]
fn classify_gives_the_same_answer_every_time() {
    let first = classify(Some("text/csv"));
    let _ = classify(Some("application/json"));
    let _ = classify(None);
    assert_eq!(classify(Some("text/csv")), first);
}

#[test]
fn body_kind_reads_the_first_content_type_line() {
    let headers = vec![header("Content-Type", "text/plain"), header("content-type", "application/json")];
    assert_eq!(body_kind(&headers), BodyKind::Text);
    assert_eq!(body_kind(&vec![header("x-other", "application/json")]), BodyKind::Opaque);
    let not_text = vec![Header::new("content-type".to_string(), None), header("content-type", "text/plain")];
    assert_eq!(body_kind(&not_text), BodyKind::Opaque);
}

#[test]
fn get_json_scenario() {
    let res = json_response(200, r#"{"id":1,"userId":1}"#, vec![], vec![]);
    assert_eq!(res.status(), 200);
    let expected: serde_json::Value = serde_json::from_str(r#"{"id":1,"userId":1}"#).unwrap();
    assert_eq!(res.json_body().unwrap(), expected);
    assert!(res.header("content-type").unwrap().starts_with("application/json"));
    assert!(res.header("Content-Type").unwrap().starts_with("application/json"));
    assert_eq!(res.request_url(), "https://api.example.com/posts/1");
    assert_eq!(res.request_method(), Method::Get);
}

#[test]
fn json_body_round_trip() {
    let text = r#"{"body":"quia et suscipit\nsuscipit","id":1,"title":"t","userId":1}"#;
    let value: serde_json::Value = serde_json::from_str(text).unwrap();
    let res = Response::from_parts(
        Method::Get,
        "/posts/1".to_string(),
        200,
        vec![],
        vec![],
        vec![],
        Body::Json(value.clone()),
    );
    assert_eq!(res.json_body().unwrap(), value);
    assert_eq!(res.json_body().unwrap().to_string(), text);
}

#[test]
fn post_json_scenario() {
    let res = Response::capture(
        Method::Post,
        "https://api.example.com/posts".to_string(),
        201,
        vec![header("content-type", "application/json")],
        vec![],
        vec![],
        br#"{"title":"t","id":101}"#.to_vec(),
    )
    .unwrap();
    assert_eq!(res.status(), 201);
    let body = res.json_body().unwrap();
    let fields: std::collections::BTreeMap<String, serde_json::Value> = serde_json::from_value(body.clone()).unwrap();
    assert_eq!(fields.get("title").unwrap(), "t");
    let wrong = serde_json::from_value::<Vec<u64>>(body);
    assert!(wrong.is_err());
}

#[test]
fn json_value_at_pointer() {
    let res = json_response(200, r#"{"a":{"b":[10,20]},"id":1}"#, vec![], vec![]);
    assert_eq!(res.json_value("/a/b/1").unwrap(), serde_json::Value::from(20));
    assert_eq!(res.json_value("/id").unwrap(), serde_json::Value::from(1));
    assert_eq!(res.json_value("").unwrap(), res.json_body().unwrap());
    match res.json_value("/missing/path") {
        Err(HttpcError::NoJsonValueFound { json_pointer }) => assert_eq!(json_pointer, "/missing/path"),
        other => panic!("unexpected {:?}", other),
    }
    assert!(matches!(res.json_value("id"), Err(HttpcError::NoJsonValueFound { .. })));
    assert!(matches!(res.json_value("/a/b/7"), Err(HttpcError::NoJsonValueFound { .. })));
}

#[test]
fn json_value_on_other_bodies() {
    let res = Response::from_parts(Method::Get, "/t".to_string(), 200, vec![], vec![], vec![], Body::Text("hi".to_string()));
    assert!(matches!(res.json_value("/missing/path"), Err(HttpcError::NoJsonBody)));
    assert!(matches!(res.json_body(), Err(HttpcError::NoJsonBody)));
    assert_eq!(res.text_body().unwrap(), "hi");
}

#[test]
fn pointer_outcome() {
    assert!(matches!(value_at_pointer("/x", Some(serde_json::Value::from(3))), Ok(v) if v == serde_json::Value::from(3)));
    match value_at_pointer("/x/y", None) {
        Err(HttpcError::NoJsonValueFound { json_pointer }) => assert_eq!(json_pointer, "/x/y"),
        other => panic!("unexpected {:?}", other),
    }
}

#[test]
fn text_body_capture() {
    let res = Response::capture(
        Method::Get,
        "/t".to_string(),
        200,
        vec![header("content-type", "text/plain; charset=utf-8")],
        vec![],
        vec![],
        "héllo".as_bytes().to_vec(),
    )
    .unwrap();
    assert_eq!(res.text_body().unwrap(), "héllo");
    assert!(matches!(res.json_body(), Err(HttpcError::NoJsonBody)));
}

#[test]
fn invalid_bodies_fail_capture() {
    let bad_json = Response::capture(
        Method::Get,
        "/j".to_string(),
        200,
        vec![header("content-type", "application/json")],
        vec![],
        vec![],
        b"{not json".to_vec(),
    );
    assert!(matches!(bad_json, Err(HttpcError::SerdeJson(_))));
    let bad_text = Response::capture(
        Method::Get,
        "/t".to_string(),
        200,
        vec![header("content-type", "text/plain")],
        vec![],
        vec![],
        vec![0xff, 0xfe],
    );
    assert!(matches!(bad_text, Err(HttpcError::TextBodyNotUtf8)));
}

#[test]
fn opaque_bodies_are_not_kept() {
    let res = Response::capture(
        Method::Get,
        "/img".to_string(),
        200,
        vec![header("content-type", "image/png")],
        vec![],
        vec![],
        br#"{"looks":"like json"}"#.to_vec(),
    )
    .unwrap();
    assert!(matches!(res.json_body(), Err(HttpcError::NoJsonBody)));
    assert!(matches!(res.text_body(), Err(HttpcError::NoTextBody)));
    let no_type = Response::capture(Method::Get, "/x".to_string(), 204, vec![], vec![], vec![], vec![]).unwrap();
    assert!(matches!(no_type.text_body(), Err(HttpcError::NoTextBody)));
}

#[test]
fn headers_are_looked_up_without_case() {
    let headers = vec![
        header("set-cookie", "a=1"),
        header("content-type", "text/plain"),
        Header::new("x-binary".to_string(), None),
        header("Set-Cookie", "b=2"),
    ];
    let res = Response::capture(Method::Get, "/h".to_string(), 200, headers, vec![], vec![], b"ok".to_vec()).unwrap();
    assert_eq!(res.header_all("SET-COOKIE"), vec!["a=1".to_string(), "b=2".to_string()]);
    assert_eq!(res.header("set-cookie"), Some("a=1".to_string()));
    assert_eq!(res.header("x-binary"), None);
    assert_eq!(res.header("x-missing"), None);
    assert!(res.header_all("x-binary").is_empty());
}

#[test]
fn two_set_cookie_lines_keep_their_order() {
    let res = json_response(200, "{}", vec![plain_cookie("first", "1"), plain_cookie("second", "2")], vec![]);
    assert_eq!(res.res_cookie_value("second"), Some("2".to_string()));
    assert_eq!(res.res_cookie_value("first"), Some("1".to_string()));
    assert_eq!(res.res_cookie("first").unwrap().value, "1");
    assert_eq!(res.res_cookie_value("third"), None);
    assert!(res.client_cookie("first").is_none());
}

#[test]
fn first_cookie_of_a_name_wins() {
    let res = json_response(200, "{}", vec![plain_cookie("a", "old"), plain_cookie("a", "new")], vec![]);
    assert_eq!(res.res_cookie_value("a"), Some("old".to_string()));
}

#[test]
fn response_cookie_lookup_is_idempotent() {
    let res = json_response(200, "{}", vec![plain_cookie("token", "abc")], vec![]);
    let one = res.res_cookie("token").map(|c| c.value.clone());
    let two = res.res_cookie("token").map(|c| c.value.clone());
    assert_eq!(one, two);
    assert_eq!(res.res_cookie_value("token"), res.res_cookie_value("token"));
}

#[test]
fn client_snapshots_are_isolated() {
    let r1 = json_response(200, "{}", vec![], vec![plain_cookie("session", "s1")]);
    let r2 = json_response(
        200,
        "{}",
        vec![plain_cookie("late", "x")],
        vec![plain_cookie("session", "s1"), plain_cookie("late", "x")],
    );
    assert!(r1.client_cookie("late").is_none());
    assert_eq!(r2.client_cookie_value("late"), Some("x".to_string()));
    assert_eq!(r1.client_cookie_value("session"), Some("s1".to_string()));
}
