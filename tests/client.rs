use httpc_test::{
    eq_ignore_ascii_case, from_tower_cookie_deref, has_prefix, new_client, response_cookies, same_text, BaseUrl, Cookie,
    Header, HttpcError, Method, PostContent, SameSitePolicy,
};

#[test]
fn compose_url_joins_base_and_path() {
    let hc = new_client("https://api.example.com").unwrap();
    assert_eq!(hc.compose_url("/posts/1"), "https://api.example.com/posts/1");
    assert_eq!(hc.compose_url("posts"), "https://api.example.composts");
    let bare = new_client(None::<String>).unwrap();
    assert_eq!(bare.compose_url("https://x.test/a"), "https://x.test/a");
    let owned = new_client(BaseUrl::from_str("http://h")).unwrap();
    assert_eq!(owned.compose_url("/p"), "http://h/p");
}

#[test]
fn push_is_refused_for_other_methods() {
    let hc = new_client("https://api.example.com").unwrap();
    match hc.push_url(Method::Delete, "/posts/1") {
        Err(HttpcError::NotSupportedMethodForPush { given_method }) => assert_eq!(given_method, Method::Delete),
        other => panic!("unexpected {:?}", other),
    }
    assert!(matches!(hc.push_url(Method::Get, "/posts"), Err(HttpcError::NotSupportedMethodForPush { .. })));
    assert_eq!(hc.push_url(Method::Post, "/posts").unwrap(), "https://api.example.com/posts");
    assert_eq!(hc.push_url(Method::Put, "/posts/1").unwrap(), "https://api.example.com/posts/1");
    assert_eq!(hc.push_url(Method::Patch, "/posts/1").unwrap(), "https://api.example.com/posts/1");
}

#[test]
fn fresh_client_has_an_empty_jar() {
    let hc = new_client("https://api.example.com").unwrap();
    assert!(hc.client_cookies().unwrap().is_empty());
    assert!(hc.cookie("session").unwrap().is_none());
    assert!(hc.cookie_value("session").unwrap().is_none());
}

#[test]
fn capture_response_takes_a_jar_snapshot() {
    let hc = new_client("https://api.example.com").unwrap();
    let res = hc
        .capture_response(
            Method::Get,
            hc.compose_url("/posts/1"),
            200,
            vec![
                httpc_test::Header::new("content-type".to_string(), Some("application/json".to_string())),
                httpc_test::Header::new("Set-Cookie".to_string(), Some("a=1; Path=/".to_string())),
                httpc_test::Header::new("set-cookie".to_string(), Some("b=2; HttpOnly".to_string())),
            ],
            br#"{"id":1,"userId":1}"#.to_vec(),
        )
        .unwrap();
    assert_eq!(res.status(), 200);
    assert!(res.client_cookie("any").is_none());
    assert_eq!(res.res_cookie_value("a"), Some("1".to_string()));
    assert_eq!(res.res_cookie_value("b"), Some("2".to_string()));
    assert!(res.res_cookie("b").unwrap().http_only);
    assert_eq!(res.json_value("/userId").unwrap(), serde_json::Value::from(1));
}

#[test]
fn method_names() {
    assert_eq!(Method::Get.as_str(), "GET");
    assert_eq!(Method::Patch.as_str(), "PATCH");
    assert!(Method::Post.is_push());
    assert!(!Method::Delete.is_push());
    assert!(!Method::Head.is_push());
}

#[test]
fn post_content_shapes() {
    let v: serde_json::Value = serde_json::from_str(r#"{"title":"t"}"#).unwrap();
    assert!(matches!(PostContent::from(v.clone()), PostContent::Json(x) if x == v));
    assert!(matches!(PostContent::from("hi"), PostContent::Text { body, content_type } if body == "hi" && content_type == "text/plain"));
    assert!(matches!(PostContent::from(("<a/>", "application/xml")), PostContent::Text { body, content_type } if body == "<a/>" && content_type == "application/xml"));
    assert!(matches!(PostContent::text_with_type("x", "text/csv"), PostContent::Text { content_type, .. } if content_type == "text/csv"));
    let s = String::from("body");
    assert!(matches!(PostContent::from(&s), PostContent::Text { body, .. } if body == "body"));
    let b: Option<String> = BaseUrl::from("http://h").into();
    assert_eq!(b, Some("http://h".to_string()));
}

#[test]
fn text_comparisons() {
    assert!(has_prefix("application/json; charset=utf-8", "application/json"));
    assert!(!has_prefix("app", "application"));
    assert!(has_prefix("x", ""));
    assert!(same_text("abc", "abc"));
    assert!(!same_text("abc", "abd"));
    assert!(!same_text("abc", "ab"));
    assert!(eq_ignore_ascii_case("Content-Type", "content-TYPE"));
    assert!(!eq_ignore_ascii_case("content-type", "content_type"));
    assert!(!eq_ignore_ascii_case("É", "é"));
}

#[test]
fn cookie_from_attributes() {
    let c = Cookie::from_attributes(
        "id".to_string(),
        "42".to_string(),
        Some(true),
        None,
        Some(SameSitePolicy::Strict),
        Some("/app".to_string()),
        Some(-5),
        Some(1_700_000_000),
    );
    assert!(c.http_only);
    assert!(!c.secure);
    assert!(c.same_site_strict);
    assert!(!c.same_site_lax);
    assert_eq!(c.path.as_deref(), Some("/app"));
    assert_eq!(c.max_age, Some(0));
    assert_eq!(c.expires, Some(1_700_000_000));
    let d = Cookie::from_attributes("a".to_string(), "b".to_string(), Some(false), Some(true), Some(SameSitePolicy::Unrestricted), None, Some(60), None);
    assert!(!d.http_only && d.secure && !d.same_site_lax && !d.same_site_strict);
    assert_eq!(d.max_age, Some(60));
}

#[test]
fn cookie_from_jar_cookie() {
    let raw = reqwest_cookie_store::RawCookie::parse("sid=xyz; HttpOnly; Secure; SameSite=Lax; Path=/api; Max-Age=120").unwrap();
    let c = from_tower_cookie_deref(&raw);
    assert_eq!(c.name, "sid");
    assert_eq!(c.value, "xyz");
    assert!(c.http_only);
    assert!(c.secure);
    assert!(c.same_site_lax);
    assert!(!c.same_site_strict);
    assert_eq!(c.path.as_deref(), Some("/api"));
    assert_eq!(c.max_age, Some(120));
    assert_eq!(c.expires, None);
    let via_from = Cookie::from(&raw);
    assert_eq!(via_from.name, "sid");
    assert_eq!(via_from.max_age, Some(120));
    let dated = reqwest_cookie_store::RawCookie::parse("k=v; Expires=Wed, 21 Oct 2015 07:28:00 GMT").unwrap();
    let d = from_tower_cookie_deref(&dated);
    assert_eq!(d.expires, Some(1_445_412_480));
    assert!(!d.http_only && !d.secure && d.path.is_none() && d.max_age.is_none());
}

#[test]
fn push_request_builds_the_body() {
    let hc = new_client("https://api.example.com").unwrap();
    let v: serde_json::Value = serde_json::from_str(r#"{"title":"t"}"#).unwrap();
    let req = hc.push_request(Method::Post, "/posts", PostContent::from(v)).unwrap();
    assert_eq!(req.method, Method::Post);
    assert_eq!(req.url, "https://api.example.com/posts");
    assert_eq!(req.content_type, "application/json");
    assert_eq!(req.body, br#"{"title":"t"}"#.to_vec());
    let text = hc.push_request(Method::Put, "/notes/1", PostContent::from(("héllo", "text/markdown"))).unwrap();
    assert_eq!(text.content_type, "text/markdown");
    assert_eq!(text.body, "héllo".as_bytes().to_vec());
    let plain = hc.push_request(Method::Patch, "/n", PostContent::from("x")).unwrap();
    assert_eq!(plain.content_type, "text/plain");
    match hc.push_request(Method::Delete, "/posts/1", PostContent::from("x")) {
        Err(HttpcError::NotSupportedMethodForPush { given_method }) => assert_eq!(given_method, Method::Delete),
        Err(e) => panic!("unexpected {:?}", e),
        Ok(_) => panic!("a DELETE with a body was accepted"),
    }
}

#[test]
fn response_cookies_follow_set_cookie_lines() {
    let headers = vec![
        Header::new("set-cookie".to_string(), Some("first=1; Max-Age=-3".to_string())),
        Header::new("x-other".to_string(), Some("z=9".to_string())),
        Header::new("set-cookie".to_string(), Some("no equals sign".to_string())),
        Header::new("SET-COOKIE".to_string(), Some("second=2; Secure; SameSite=Strict".to_string())),
        Header::new("set-cookie".to_string(), None),
    ];
    let cookies = response_cookies(&headers);
    assert_eq!(cookies.len(), 2);
    assert_eq!(cookies[0].name, "first");
    assert_eq!(cookies[0].max_age, Some(0));
    assert_eq!(cookies[1].name, "second");
    assert_eq!(cookies[1].value, "2");
    assert!(cookies[1].secure && cookies[1].same_site_strict);
}

#[test]
fn base_url_conversions() {
    let from_string = new_client(String::from("https://a.test/")).unwrap();
    assert_eq!(from_string.compose_url("/posts"), "https://a.test//posts");
    let s = String::from("http://h");
    let from_ref = new_client(&s).unwrap();
    assert_eq!(from_ref.compose_url("/x"), "http://h/x");
    let none = new_client(BaseUrl::none()).unwrap();
    assert_eq!(none.compose_url("http://full/x"), "http://full/x");
}
