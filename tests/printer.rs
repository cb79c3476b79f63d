use httpc_test::{decimal_text, Body, Cookie, Header, Method, Response};

#[test]
fn decimal_numerals() {
    assert_eq!(decimal_text(0), "0");
    assert_eq!(decimal_text(7), "7");
    assert_eq!(decimal_text(404), "404");
    assert_eq!(decimal_text(65535), "65535");
}

fn sample(body: Body) -> Response {
    Response::from_parts(
        Method::Post,
        "http://h/p".to_string(),
        201,
        vec![
            Header::new("content-type".to_string(), Some("text/plain".to_string())),
            Header::new("x-bin".to_string(), None),
        ],
        vec![Cookie::from_attributes("c".to_string(), "2".to_string(), None, None, None, None, None, None)],
        vec![Cookie::from_attributes("r".to_string(), "1".to_string(), None, None, None, None, None, None)],
        body,
    )
}

#[test]
fn transcript_with_text_body() {
    let res = sample(Body::Text("hello".to_string()));
    let expected = "\n=== Response for POST http://h/p\n=> Status         : 201 Created\n=> Headers        :\n   content-type: text/plain\n   x-bin: \n=> Response Cookies:\n   r: 1\n=> Client Cookies :\n   c: 2\n=> Response Body  :\nhello\n===\n\n";
    assert_eq!(res.render(true), expected);
}

#[test]
fn transcript_without_body() {
    let res = sample(Body::Text("hello".to_string()));
    let text = res.render(false);
    assert!(!text.contains("Response Body"));
    assert!(text.ends_with("   c: 2\n===\n\n"));
}

#[test]
fn transcript_of_json_body_is_pretty() {
    let v: serde_json::Value = serde_json::from_str(r#"{"id":1}"#).unwrap();
    let res = sample(Body::Json(v));
    let text = res.render(true);
    assert!(text.ends_with("=> Response Body  :\n{\n  \"id\": 1\n}\n===\n\n"));
}

#[test]
fn transcript_leaves_out_empty_cookie_lists_and_opaque_bodies() {
    let res = Response::from_parts(Method::Get, "/x".to_string(), 200, vec![], vec![], vec![], Body::Other);
    assert_eq!(
        res.render(true),
        "\n=== Response for GET /x\n=> Status         : 200 OK\n=> Headers        :\n===\n\n"
    );
    assert_eq!(res.render_with_json_text(false, "ignored"), res.render(false));
    assert_eq!(res.render(false), res.render(true));
}
