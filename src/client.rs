use vstd::prelude::*;

use vstd::slice::slice_to_vec;
use vstd::utf8::{decode_utf8, encode_utf8, valid_utf8};

use reqwest::Client as ReqwestClient;
use reqwest_cookie_store::CookieStoreMutex;
use std::sync::Arc;

use crate::content::BodyKind;
use crate::cookies::{
    copied_all, first_cookie, first_named, first_named_value, from_tower_cookie_deref, opt_string_view,
    response_cookies, set_cookies_of, Cookie,
};
use crate::error::HttpcError;
use crate::headers::Header;
use crate::json::{is_json_text, json_bytes, json_bytes_of, parsed_json};
use crate::method::Method;
use crate::response::{body_kind_spec, json_body_spec, Body, Response};

verus! {

#[verifier::external_type_specification]
#[verifier::external_body]
pub struct ExCookieStoreMutex(CookieStoreMutex);

#[verifier::external_type_specification]
#[verifier::external_body]
pub struct ExReqwestClient(ReqwestClient);

#[verifier::external_type_specification]
#[verifier::external_body]
pub struct ExReqwestClientBuilder(reqwest::ClientBuilder);

/// The base URL that a client puts before every path, if any.
pub struct BaseUrl(pub Option<String>);

/// The body of a POST, PUT or PATCH request: a JSON value, sent as
/// `application/json`, or text with its content type.
#[derive(Debug)]
pub enum PostContent {
    Json(serde_json::Value),
    Text { body: String, content_type: &'static str },
}

/// A request that carries a body, ready to be sent: its method, full URL,
/// `Content-Type` and body bytes.
pub struct PushRequest {
    pub method: Method,
    pub url: String,
    pub content_type: String,
    pub body: Vec<u8>,
}

/// The URL that a request for `url` goes to: the base URL, if any, and then
/// `url`, joined as they are.
pub open spec fn composed_url(base_url: Option<Seq<char>>, url: Seq<char>) -> Seq<char> {
    match base_url {
        Some(b) => b + url,
        None => url,
    }
}

/// An HTTP client with a cookie jar that persists across its requests.
pub struct Client {
    base_url: Option<String>,
    cookie_store: Arc<CookieStoreMutex>,
    reqwest_client: ReqwestClient,
}

/// Relies on `Default` of reqwest_cookie_store::CookieStoreMutex: an empty jar.
#[verifier::external_body]
fn empty_jar() -> (r: CookieStoreMutex) {
    CookieStoreMutex::default()
}

/// Relies on std's Arc::clone: one more handle on the same jar.
#[verifier::external_body]
fn share_jar(jar: &Arc<CookieStoreMutex>) -> (r: Arc<CookieStoreMutex>)
    ensures
        r == *jar,
{
    jar.clone()
}

/// Relies on reqwest::Client::builder.
#[verifier::external_body]
fn default_builder() -> (r: reqwest::ClientBuilder) {
    ReqwestClient::builder()
}

/// Relies on reqwest::ClientBuilder::cookie_provider: the built client keeps
/// its cookies in this jar.
#[verifier::external_body]
fn with_cookie_jar(builder: reqwest::ClientBuilder, jar: Arc<CookieStoreMutex>) -> (r: reqwest::ClientBuilder) {
    builder.cookie_provider(jar)
}

/// Relies on reqwest::ClientBuilder::build.
#[verifier::external_body]
fn build_client(builder: reqwest::ClientBuilder) -> (r: Result<ReqwestClient, reqwest::Error>) {
    builder.build()
}

/// Relies on reqwest_cookie_store::CookieStoreMutex::lock and
/// cookie_store::CookieStore::iter_any: every cookie that the jar holds,
/// expired ones too, copied out; `None` where the lock is poisoned.
#[verifier::external_body]
fn jar_snapshot(jar: &Arc<CookieStoreMutex>) -> (r: Option<Vec<Cookie>>) {
    match jar.lock() {
        Ok(store) => Some(store.iter_any().map(|c| from_tower_cookie_deref(c)).collect()),
        Err(_) => None,
    }
}

/// Makes a client with an empty cookie jar, built from `reqwest_builder`.
pub fn new_client_with_reqwest<B: Into<BaseUrl>>(base_url: B, reqwest_builder: reqwest::ClientBuilder) -> (r: Result<Client, HttpcError>)
    ensures
        r matches Ok(c) ==> exists|u: BaseUrl| call_ensures(B::into, (base_url,), u) && c.base_url_spec() == u.view(),
        r matches Err(e) ==> e is Reqwest,
{
    let ghost arg = base_url;
    let base: BaseUrl = base_url.into();
    let ghost u = base;
    let cookie_store = Arc::new(empty_jar());
    let builder = with_cookie_jar(reqwest_builder, share_jar(&cookie_store));
    match build_client(builder) {
        Ok(reqwest_client) => {
            let c = Client { base_url: base.0, cookie_store, reqwest_client };
            assert(call_ensures(B::into, (arg,), u) && c.base_url_spec() == u.view());
            Ok(c)
        },
        Err(e) => Err(HttpcError::Reqwest(e)),
    }
}

/// Makes a client with an empty cookie jar and reqwest's default settings.
pub fn new_client<B: Into<BaseUrl>>(base_url: B) -> (r: Result<Client, HttpcError>)
    ensures
        r matches Ok(c) ==> exists|u: BaseUrl| call_ensures(B::into, (base_url,), u) && c.base_url_spec() == u.view(),
        r matches Err(e) ==> e is Reqwest,
{
    new_client_with_reqwest(base_url, default_builder())
}

impl BaseUrl {
    pub open spec fn view(&self) -> Option<Seq<char>> {
        match self.0 {
            Some(s) => Some(s@),
            None => None,
        }
    }

    /// A base URL from text.
    pub fn from_str(s: &str) -> (r: BaseUrl)
        ensures
            r.view() == Some(s@),
    {
        BaseUrl(Some(s.to_string()))
    }

    /// No base URL: every request names a full URL.
    pub fn none() -> (r: BaseUrl)
        ensures
            r.view() is None,
    {
        BaseUrl(None)
    }
}

impl From<String> for BaseUrl {
    fn from(val: String) -> (r: BaseUrl)
        ensures
            r.view() == Some(val@),
    {
        BaseUrl(Some(val))
    }
}

impl vstd::std_specs::convert::FromSpecImpl<String> for BaseUrl {
    open spec fn obeys_from_spec() -> bool {
        true
    }

    open spec fn from_spec(v: String) -> BaseUrl {
        BaseUrl(Some(v))
    }
}

impl From<Option<String>> for BaseUrl {
    fn from(val: Option<String>) -> (r: BaseUrl)
        ensures
            r.view() == opt_string_view(val),
    {
        BaseUrl(val)
    }
}

impl vstd::std_specs::convert::FromSpecImpl<Option<String>> for BaseUrl {
    open spec fn obeys_from_spec() -> bool {
        true
    }

    open spec fn from_spec(v: Option<String>) -> BaseUrl {
        BaseUrl(v)
    }
}

impl From<&str> for BaseUrl {
    fn from(val: &str) -> (r: BaseUrl)
        ensures
            r.view() == Some(val@),
    {
        BaseUrl(Some(val.to_string()))
    }
}

impl vstd::std_specs::convert::FromSpecImpl<&str> for BaseUrl {
    open spec fn obeys_from_spec() -> bool {
        false
    }

    open spec fn from_spec(v: &str) -> BaseUrl {
        arbitrary()
    }
}

impl From<serde_json::Value> for PostContent {
    fn from(val: serde_json::Value) -> (r: PostContent)
        ensures
            r == PostContent::Json(val),
    {
        PostContent::Json(val)
    }
}

impl vstd::std_specs::convert::FromSpecImpl<serde_json::Value> for PostContent {
    open spec fn obeys_from_spec() -> bool {
        true
    }

    open spec fn from_spec(v: serde_json::Value) -> PostContent {
        PostContent::Json(v)
    }
}

impl From<&String> for BaseUrl {
    fn from(val: &String) -> (r: BaseUrl)
        ensures
            r.view() == Some(val@),
    {
        BaseUrl(Some(val.clone()))
    }
}

impl vstd::std_specs::convert::FromSpecImpl<&String> for BaseUrl {
    open spec fn obeys_from_spec() -> bool {
        false
    }

    open spec fn from_spec(v: &String) -> BaseUrl {
        arbitrary()
    }
}

impl From<BaseUrl> for Option<String> {
    fn from(val: BaseUrl) -> (r: Option<String>)
        ensures
            opt_string_view(r) == val.view(),
    {
        val.0
    }
}

impl vstd::std_specs::convert::FromSpecImpl<BaseUrl> for Option<String> {
    open spec fn obeys_from_spec() -> bool {
        true
    }

    open spec fn from_spec(v: BaseUrl) -> Option<String> {
        v.0
    }
}

impl From<String> for PostContent {
    fn from(val: String) -> (r: PostContent)
        ensures
            r matches PostContent::Text { body, content_type } && body@ == val@ && content_type@ == "text/plain"@,
    {
        PostContent::Text { body: val, content_type: "text/plain" }
    }
}

impl vstd::std_specs::convert::FromSpecImpl<String> for PostContent {
    open spec fn obeys_from_spec() -> bool {
        true
    }

    open spec fn from_spec(v: String) -> PostContent {
        PostContent::Text { body: v, content_type: "text/plain" }
    }
}

impl From<&String> for PostContent {
    fn from(val: &String) -> (r: PostContent)
        ensures
            r matches PostContent::Text { body, content_type } && body@ == val@ && content_type@ == "text/plain"@,
    {
        PostContent::Text { body: val.clone(), content_type: "text/plain" }
    }
}

impl vstd::std_specs::convert::FromSpecImpl<&String> for PostContent {
    open spec fn obeys_from_spec() -> bool {
        false
    }

    open spec fn from_spec(v: &String) -> PostContent {
        arbitrary()
    }
}

impl From<&str> for PostContent {
    fn from(val: &str) -> (r: PostContent)
        ensures
            r matches PostContent::Text { body, content_type } && body@ == val@ && content_type@ == "text/plain"@,
    {
        PostContent::Text { body: val.to_string(), content_type: "text/plain" }
    }
}

impl vstd::std_specs::convert::FromSpecImpl<&str> for PostContent {
    open spec fn obeys_from_spec() -> bool {
        false
    }

    open spec fn from_spec(v: &str) -> PostContent {
        arbitrary()
    }
}

impl From<(String, &'static str)> for PostContent {
    fn from(val: (String, &'static str)) -> (r: PostContent)
        ensures
            r matches PostContent::Text { body, content_type } && body@ == val.0@ && content_type@ == val.1@,
    {
        PostContent::Text { body: val.0, content_type: val.1 }
    }
}

impl vstd::std_specs::convert::FromSpecImpl<(String, &'static str)> for PostContent {
    open spec fn obeys_from_spec() -> bool {
        true
    }

    open spec fn from_spec(v: (String, &'static str)) -> PostContent {
        PostContent::Text { body: v.0, content_type: v.1 }
    }
}

impl From<(&str, &'static str)> for PostContent {
    fn from(val: (&str, &'static str)) -> (r: PostContent)
        ensures
            r matches PostContent::Text { body, content_type } && body@ == val.0@ && content_type@ == val.1@,
    {
        PostContent::Text { body: val.0.to_string(), content_type: val.1 }
    }
}

impl vstd::std_specs::convert::FromSpecImpl<(&str, &'static str)> for PostContent {
    open spec fn obeys_from_spec() -> bool {
        false
    }

    open spec fn from_spec(v: (&str, &'static str)) -> PostContent {
        arbitrary()
    }
}

impl PostContent {
    /// A JSON body.
    pub fn json(value: serde_json::Value) -> (r: PostContent)
        ensures
            r == PostContent::Json(value),
    {
        PostContent::Json(value)
    }

    /// A `text/plain` body.
    pub fn text(body: &str) -> (r: PostContent)
        ensures
            r matches PostContent::Text { body: b, content_type } && b@ == body@ && content_type@ == "text/plain"@,
    {
        PostContent::Text { body: body.to_string(), content_type: "text/plain" }
    }

    /// A text body with its content type.
    pub fn text_with_type(body: &str, content_type: &'static str) -> (r: PostContent)
        ensures
            r matches PostContent::Text { body: b, content_type: t } && b@ == body@ && t@ == content_type@,
    {
        PostContent::Text { body: body.to_string(), content_type }
    }
}

impl Client {
    /// The base URL, if any.
    pub closed spec fn base_url_spec(&self) -> Option<Seq<char>> {
        match self.base_url {
            Some(s) => Some(s@),
            None => None,
        }
    }

    /// A handle on the client's cookie jar.
    pub fn cookie_store(&self) -> (r: Arc<CookieStoreMutex>) {
        share_jar(&self.cookie_store)
    }

    /// The underlying reqwest client.
    pub fn reqwest_client(&self) -> (r: &ReqwestClient) {
        &self.reqwest_client
    }

    /// The URL that a request for `url` goes to: the base URL and `url`
    /// joined as they are, or `url` alone where there is no base URL.
    pub fn compose_url(&self, url: &str) -> (r: String)
        ensures
            r@ == composed_url(self.base_url_spec(), url@),
    {
        match &self.base_url {
            Some(base_url) => {
                let mut r = base_url.clone();
                r.append(url);
                r
            },
            None => url.to_string(),
        }
    }

    /// The URL for a request that carries a body. Only POST, PUT and PATCH
    /// carry one; any other method is refused before anything is sent.
    pub fn push_url(&self, method: Method, url: &str) -> (r: Result<String, HttpcError>)
        ensures
            method.is_push_spec() ==> (r matches Ok(u) && u@ == composed_url(self.base_url_spec(), url@)),
            !method.is_push_spec() ==> (r matches Err(HttpcError::NotSupportedMethodForPush { given_method })
                && given_method == method),
    {
        let url = self.compose_url(url);
        if !method.is_push() {
            return Err(HttpcError::NotSupportedMethodForPush { given_method: method });
        }
        Ok(url)
    }

    /// The request that sends `content` to `url` with a body-carrying
    /// method: a JSON value goes as its compact JSON text with the content
    /// type `application/json`, text goes as its UTF-8 bytes with its own
    /// content type. Any method but POST, PUT and PATCH is refused before
    /// anything is sent.
    pub fn push_request(&self, method: Method, url: &str, content: PostContent) -> (r: Result<PushRequest, HttpcError>)
        ensures
            !method.is_push_spec() ==> (r matches Err(HttpcError::NotSupportedMethodForPush { given_method })
                && given_method == method),
            method.is_push_spec() ==> r is Ok,
            r matches Ok(req) ==> {
                &&& req.method == method
                &&& req.url@ == composed_url(self.base_url_spec(), url@)
                &&& (content matches PostContent::Json(v) ==> req.content_type@ == "application/json"@
                    && req.body@ == json_bytes_of(v))
                &&& (content matches PostContent::Text { body, content_type } ==> req.content_type@ == content_type@
                    && req.body@ == encode_utf8(body@))
            },
    {
        let url = self.push_url(method, url)?;
        match content {
            PostContent::Json(value) => match json_bytes(&value) {
                Ok(body) => Ok(PushRequest { method, url, content_type: "application/json".to_string(), body }),
                Err(e) => {
                    proof {
                        assert(false);
                    }
                    Err(HttpcError::SerdeJson(e))
                },
            },
            PostContent::Text { body, content_type } => {
                let bytes = slice_to_vec(body.as_str().as_bytes());
                Ok(PushRequest { method, url, content_type: content_type.to_string(), body: bytes })
            },
        }
    }

    /// Every cookie that the jar holds now, in the jar's order. Fails where
    /// the jar's lock was poisoned by an earlier panic.
    pub fn client_cookies(&self) -> (r: Result<Vec<Cookie>, HttpcError>)
        ensures
            r matches Err(e) ==> e is CookieJarPoisoned,
    {
        match jar_snapshot(&self.cookie_store) {
            Some(cookies) => Ok(cookies),
            None => Err(HttpcError::CookieJarPoisoned),
        }
    }

    /// The first cookie of this name that the jar holds now. Fails where the
    /// jar's lock was poisoned by an earlier panic.
    pub fn cookie(&self, name: &str) -> (r: Result<Option<Cookie>, HttpcError>)
        ensures
            r matches Ok(Some(c)) ==> c.name@ == name@,
            r matches Ok(found) ==> exists|jar: Seq<Cookie>| found == first_named(jar, name@),
            r matches Err(e) ==> e is CookieJarPoisoned,
    {
        let cookies = self.client_cookies()?;
        let ghost jar = cookies@;
        let found = first_cookie(cookies, name);
        assert(found == first_named(jar, name@));
        Ok(found)
    }

    /// The value of the first cookie of this name that the jar holds now.
    /// Fails where the jar's lock was poisoned by an earlier panic.
    pub fn cookie_value(&self, name: &str) -> (r: Result<Option<String>, HttpcError>)
        ensures
            r matches Ok(found) ==> exists|jar: Seq<Cookie>| opt_string_view(found) == first_named_value(jar, name@),
            r matches Err(e) ==> e is CookieJarPoisoned,
    {
        let found = self.cookie(name)?;
        let ghost jar = choose|jar: Seq<Cookie>| found == first_named(jar, name@);
        let r = match found {
            Some(c) => Some(c.value),
            None => None,
        };
        assert(opt_string_view(r) == first_named_value(jar, name@));
        Ok(r)
    }

    /// Captures a response that has just arrived for a request: the jar is
    /// copied as it stands now, after the transport applied this response's
    /// cookies, the response's own cookies are read from its `Set-Cookie`
    /// lines in order, and the body is read as its `Content-Type` says.
    pub fn capture_response(
        &self,
        request_method: Method,
        url: String,
        status: u16,
        headers: Vec<Header>,
        raw_body: Vec<u8>,
    ) -> (r: Result<Response, HttpcError>)
        ensures
            r matches Ok(resp) ==> {
                &&& resp@.request_method == request_method
                &&& resp@.request_url == url@
                &&& resp@.status == status
                &&& resp@.headers == headers@
                &&& copied_all(resp@.cookies, set_cookies_of(headers@))
                &&& (body_kind_spec(headers@) == BodyKind::Json ==> resp@.body == Body::Json(parsed_json(raw_body@)))
                &&& (body_kind_spec(headers@) == BodyKind::Json ==> json_body_spec(resp@.body) == Ok::<serde_json::Value, HttpcError>(parsed_json(raw_body@)))
                &&& (body_kind_spec(headers@) == BodyKind::Text ==> (resp@.body matches Body::Text(s) && s@ == decode_utf8(raw_body@)))
                &&& (body_kind_spec(headers@) == BodyKind::Opaque ==> resp@.body is Other)
            },
            body_kind_spec(headers@) == BodyKind::Json && !is_json_text(raw_body@) ==> r is Err,
            body_kind_spec(headers@) == BodyKind::Text && !valid_utf8(raw_body@) ==> r is Err,
            body_kind_spec(headers@) == BodyKind::Json && is_json_text(raw_body@) ==> (r matches Err(e) ==> e is CookieJarPoisoned),
            body_kind_spec(headers@) == BodyKind::Text && valid_utf8(raw_body@) ==> (r matches Err(e) ==> e is CookieJarPoisoned),
            body_kind_spec(headers@) == BodyKind::Opaque ==> (r matches Err(e) ==> e is CookieJarPoisoned),
            r matches Err(e) ==> (e is SerdeJson || e is TextBodyNotUtf8 || e is CookieJarPoisoned),
    {
        let client_cookies = self.client_cookies()?;
        let cookies = response_cookies(&headers);
        Response::capture(request_method, url, status, headers, client_cookies, cookies, raw_body)
    }
}

} // verus!
