use vstd::prelude::*;
use vstd::utf8::{decode_utf8, valid_utf8};

use crate::content::{classify, classify_spec, BodyKind};
use crate::cookies::{
    find_cookie_index, first_named, first_named_value, has_named, lemma_first_named_exists, opt_string_view, Cookie,
};
use crate::error::HttpcError;
use crate::headers::{find_all_headers, find_header, first_header_value, header_values, Header};
use crate::json::{copy_json, is_json_text, lookup_pointer, parse_json, parsed_json, pointer_target, utf8_text};
use crate::method::Method;
use crate::printer::{
    append_cookie_lines, append_header_lines, canonical_reason, cookie_section, decimal, decimal_text,
    header_lines, reason_phrase,
};

verus! {

/// A response body, read once when the response is captured.
#[derive(Debug)]
pub enum Body {
    Json(serde_json::Value),
    Text(String),
    /// A body of another content type: its bytes are not kept.
    Other,
}

/// What a captured response holds.
pub struct ResponseView {
    pub request_method: Method,
    pub request_url: Seq<char>,
    pub status: u16,
    pub headers: Seq<Header>,
    pub client_cookies: Seq<Cookie>,
    pub cookies: Seq<Cookie>,
    pub body: Body,
}

/// A response as it was received, never changed after capture.
#[derive(Debug)]
pub struct Response {
    request_method: Method,
    request_url: String,
    status: u16,
    header_map: Vec<Header>,
    /// The client's cookie jar as it stood when the response arrived.
    client_cookies: Vec<Cookie>,
    /// The cookies that this response set.
    cookies: Vec<Cookie>,
    body: Body,
}

impl View for Response {
    type V = ResponseView;

    closed spec fn view(&self) -> ResponseView {
        ResponseView {
            request_method: self.request_method,
            request_url: self.request_url@,
            status: self.status,
            headers: self.header_map@,
            client_cookies: self.client_cookies@,
            cookies: self.cookies@,
            body: self.body,
        }
    }
}

pub open spec fn content_type_name() -> Seq<char> {
    seq!['c', 'o', 'n', 't', 'e', 'n', 't', '-', 't', 'y', 'p', 'e']
}

/// How the body of a response with these header lines is read.
pub open spec fn body_kind_spec(headers: Seq<Header>) -> BodyKind {
    classify_spec(first_header_value(headers, content_type_name()))
}

/// What `json_body` gives for a body.
pub open spec fn json_body_spec(body: Body) -> Result<serde_json::Value, HttpcError> {
    match body {
        Body::Json(v) => Ok(v),
        _ => Err(HttpcError::NoJsonBody),
    }
}

/// The body section of a transcript: under its heading, JSON as its pretty
/// text and text as it is; a body of another kind has no section at all.
pub open spec fn body_section(body: Body, json_text: Seq<char>) -> Seq<char> {
    match body {
        Body::Json(_) => "=> Response Body  :\n"@ + json_text + "\n"@,
        Body::Text(s) => "=> Response Body  :\n"@ + s@ + "\n"@,
        Body::Other => Seq::empty(),
    }
}

/// The human-readable transcript of a response: request line, status,
/// headers, the cookies that the response set and those of the client (each
/// list left out where empty) and, where asked for, the body. `json_text`
/// is the pretty form of a JSON body.
pub open spec fn transcript(v: ResponseView, include_body: bool, json_text: Seq<char>) -> Seq<char> {
    "\n=== Response for "@ + v.request_method.name_spec() + " "@ + v.request_url + "\n"@
        + "=> Status         : "@ + decimal(v.status as nat) + " "@ + canonical_reason(v.status) + "\n"@
        + "=> Headers        :\n"@ + header_lines(v.headers)
        + cookie_section("=> Response Cookies:\n"@, v.cookies)
        + cookie_section("=> Client Cookies :\n"@, v.client_cookies)
        + (if include_body {
            body_section(v.body, json_text)
        } else {
            Seq::empty()
        })
        + "===\n\n"@
}

/// The pretty-printed text of a JSON value, as serde_json writes it.
pub uninterp spec fn pretty_json_text(v: serde_json::Value) -> Seq<char>;

/// The pretty text that a transcript shows for a body: that of a JSON body,
/// empty for any other.
pub open spec fn shown_json_text(body: Body) -> Seq<char> {
    match body {
        Body::Json(v) => pretty_json_text(v),
        _ => Seq::empty(),
    }
}

/// Relies on serde_json::to_string_pretty on a `Value`: it fails only on a
/// map with keys that are not strings or on a failing `Serialize` impl, and a
/// `Value` has neither; the text depends on the value alone.
#[verifier::external_body]
fn pretty_json(v: &serde_json::Value) -> (r: Result<String, serde_json::Error>)
    ensures
        r is Ok,
        r matches Ok(s) ==> s@ == pretty_json_text(*v),
{
    serde_json::to_string_pretty(v)
}

/// How the body of a response with these header lines is read: by the first
/// `Content-Type` line, where it is text.
pub fn body_kind(headers: &Vec<Header>) -> (r: BodyKind)
    ensures
        r == body_kind_spec(headers@),
{
    let name = "content-type";
    proof {
        reveal_strlit("content-type");
        assert(name@ =~= content_type_name());
    }
    let ct = find_header(headers, name);
    match &ct {
        Some(s) => classify(Some(s.as_str())),
        None => classify(None),
    }
}

impl Body {
    /// Reads raw body bytes as the body kind asks: JSON is parsed, text is
    /// decoded as UTF-8, and any other body is dropped.
    pub fn decode(kind: BodyKind, bytes: Vec<u8>) -> (r: Result<Body, HttpcError>)
        ensures
            kind == BodyKind::Json ==> (r is Ok <==> is_json_text(bytes@)),
            kind == BodyKind::Json ==> (r matches Ok(b) ==> b == Body::Json(parsed_json(bytes@))),
            kind == BodyKind::Json ==> (r matches Err(e) ==> e is SerdeJson),
            kind == BodyKind::Text ==> (r is Ok <==> valid_utf8(bytes@)),
            kind == BodyKind::Text ==> (r matches Ok(b) ==> (b matches Body::Text(s) && s@ == decode_utf8(bytes@))),
            kind == BodyKind::Text ==> (r matches Err(e) ==> e is TextBodyNotUtf8),
            kind == BodyKind::Opaque ==> r matches Ok(Body::Other),
    {
        match kind {
            BodyKind::Json => match parse_json(bytes.as_slice()) {
                Ok(v) => Ok(Body::Json(v)),
                Err(e) => Err(HttpcError::SerdeJson(e)),
            },
            BodyKind::Text => match utf8_text(bytes) {
                Some(s) => Ok(Body::Text(s)),
                None => Err(HttpcError::TextBodyNotUtf8),
            },
            BodyKind::Opaque => Ok(Body::Other),
        }
    }
}

/// The outcome of a JSON pointer lookup: the value found, or the error that
/// names the pointer.
pub fn value_at_pointer(pointer: &str, found: Option<serde_json::Value>) -> (r: Result<serde_json::Value, HttpcError>)
    ensures
        found matches Some(v) ==> r == Ok::<serde_json::Value, HttpcError>(v),
        found is None ==> (r matches Err(HttpcError::NoJsonValueFound { json_pointer }) && json_pointer@ == pointer@),
{
    match found {
        Some(v) => Ok(v),
        None => Err(HttpcError::NoJsonValueFound { json_pointer: pointer.to_string() }),
    }
}

impl Response {
    /// Records a response from its parts, as they were received.
    pub fn from_parts(
        request_method: Method,
        request_url: String,
        status: u16,
        headers: Vec<Header>,
        client_cookies: Vec<Cookie>,
        cookies: Vec<Cookie>,
        body: Body,
    ) -> (r: Response)
        ensures
            r@ == (ResponseView {
                request_method,
                request_url: request_url@,
                status,
                headers: headers@,
                client_cookies: client_cookies@,
                cookies: cookies@,
                body,
            }),
    {
        Response { request_method, request_url, status, header_map: headers, client_cookies, cookies, body }
    }

    /// Captures a response: the body kind comes from the `Content-Type`
    /// header and the raw body bytes are read accordingly; a body that does
    /// not read as its kind fails the capture.
    pub fn capture(
        request_method: Method,
        request_url: String,
        status: u16,
        headers: Vec<Header>,
        client_cookies: Vec<Cookie>,
        cookies: Vec<Cookie>,
        raw_body: Vec<u8>,
    ) -> (r: Result<Response, HttpcError>)
        ensures
            body_kind_spec(headers@) == BodyKind::Json ==> (r is Ok <==> is_json_text(raw_body@)),
            body_kind_spec(headers@) == BodyKind::Text ==> (r is Ok <==> valid_utf8(raw_body@)),
            body_kind_spec(headers@) == BodyKind::Opaque ==> r is Ok,
            r matches Ok(resp) ==> {
                &&& resp@.request_method == request_method
                &&& resp@.request_url == request_url@
                &&& resp@.status == status
                &&& resp@.headers == headers@
                &&& resp@.client_cookies == client_cookies@
                &&& resp@.cookies == cookies@
                &&& (body_kind_spec(headers@) == BodyKind::Json ==> resp@.body == Body::Json(parsed_json(raw_body@)))
                &&& (body_kind_spec(headers@) == BodyKind::Json ==> json_body_spec(resp@.body) == Ok::<serde_json::Value, HttpcError>(parsed_json(raw_body@)))
                &&& (body_kind_spec(headers@) == BodyKind::Text ==> (resp@.body matches Body::Text(s) && s@ == decode_utf8(raw_body@)))
                &&& (body_kind_spec(headers@) == BodyKind::Opaque ==> resp@.body is Other)
            },
            body_kind_spec(headers@) == BodyKind::Json ==> (r matches Err(e) ==> e is SerdeJson),
            body_kind_spec(headers@) == BodyKind::Text ==> (r matches Err(e) ==> e is TextBodyNotUtf8),
    {
        let kind = body_kind(&headers);
        let body = Body::decode(kind, raw_body)?;
        Ok(Response::from_parts(request_method, request_url, status, headers, client_cookies, cookies, body))
    }

    /// The method of the request.
    pub fn request_method(&self) -> (r: Method)
        ensures
            r == self@.request_method,
    {
        self.request_method
    }

    /// The URL that the request was sent to.
    pub fn request_url(&self) -> (r: &str)
        ensures
            r@ == self@.request_url,
    {
        self.request_url.as_str()
    }

    /// All text values of the header lines with this name, in order.
    pub fn header_all(&self, name: &str) -> (r: Vec<String>)
        ensures
            r@.map_values(|s: String| s@) == header_values(self@.headers, name@),
    {
        find_all_headers(&self.header_map, name)
    }

    /// The value of the first header line with this name, where it is text.
    pub fn header(&self, name: &str) -> (r: Option<String>)
        ensures
            opt_string_view(r) == first_header_value(self@.headers, name@),
    {
        find_header(&self.header_map, name)
    }

    /// The status code.
    pub fn status(&self) -> (r: u16)
        ensures
            r == self@.status,
    {
        self.status
    }

    /// The first cookie of this name that the response itself set.
    pub fn res_cookie(&self, name: &str) -> (r: Option<&Cookie>)
        ensures
            first_named(self@.cookies, name@) == match r {
                Some(c) => Some(*c),
                None => None::<Cookie>,
            },
    {
        match find_cookie_index(&self.cookies, name) {
            Some(i) => Some(&self.cookies[i]),
            None => None,
        }
    }

    /// The value of the first cookie of this name that the response set.
    pub fn res_cookie_value(&self, name: &str) -> (r: Option<String>)
        ensures
            opt_string_view(r) == first_named_value(self@.cookies, name@),
    {
        match find_cookie_index(&self.cookies, name) {
            Some(i) => Some(self.cookies[i].value.clone()),
            None => None,
        }
    }

    /// The first cookie of this name in the client's jar as it stood when
    /// the response arrived.
    pub fn client_cookie(&self, name: &str) -> (r: Option<&Cookie>)
        ensures
            first_named(self@.client_cookies, name@) == match r {
                Some(c) => Some(*c),
                None => None::<Cookie>,
            },
    {
        match find_cookie_index(&self.client_cookies, name) {
            Some(i) => Some(&self.client_cookies[i]),
            None => None,
        }
    }

    /// The value of the first cookie of this name in the client's jar as it
    /// stood when the response arrived.
    pub fn client_cookie_value(&self, name: &str) -> (r: Option<String>)
        ensures
            opt_string_view(r) == first_named_value(self@.client_cookies, name@),
    {
        match find_cookie_index(&self.client_cookies, name) {
            Some(i) => Some(self.client_cookies[i].value.clone()),
            None => None,
        }
    }

    /// The JSON body; fails where the body is not JSON.
    pub fn json_body(&self) -> (r: Result<serde_json::Value, HttpcError>)
        ensures
            r == json_body_spec(self@.body),
    {
        match &self.body {
            Body::Json(v) => Ok(copy_json(v)),
            _ => Err(HttpcError::NoJsonBody),
        }
    }

    /// The text body; fails where the body is not text.
    pub fn text_body(&self) -> (r: Result<String, HttpcError>)
        ensures
            self@.body is Text ==> (r matches Ok(s) && s@ == self@.body->Text_0@),
            !(self@.body is Text) ==> r matches Err(HttpcError::NoTextBody),
    {
        match &self.body {
            Body::Text(s) => Ok(s.clone()),
            _ => Err(HttpcError::NoTextBody),
        }
    }

    /// The value at a JSON pointer (`/a/b/0`) in the JSON body. Fails where
    /// the body is not JSON, and names the pointer where nothing stands there.
    pub fn json_value(&self, pointer: &str) -> (r: Result<serde_json::Value, HttpcError>)
        ensures
            !(self@.body is Json) ==> r matches Err(HttpcError::NoJsonBody),
            self@.body is Json && r is Err ==> (r matches Err(HttpcError::NoJsonValueFound { json_pointer })
                && json_pointer@ == pointer@),
            self@.body is Json && pointer@.len() == 0 ==> r == json_body_spec(self@.body),
            self@.body is Json && pointer@.len() > 0 && pointer@[0] != '/' ==> r is Err,
            self@.body matches Body::Json(v) ==> match pointer_target(v, pointer@) {
                Some(found) => r == Ok::<serde_json::Value, HttpcError>(found),
                None => r is Err,
            },
    {
        match &self.body {
            Body::Json(v) => value_at_pointer(pointer, lookup_pointer(v, pointer)),
            _ => Err(HttpcError::NoJsonBody),
        }
    }

    /// The transcript of this response, with `json_text` standing for the
    /// pretty form of a JSON body.
    pub fn render_with_json_text(&self, include_body: bool, json_text: &str) -> (r: String)
        ensures
            r@ == transcript(self@, include_body, json_text@),
    {
        let mut out = String::new();
        out.append("\n=== Response for ");
        out.append(self.request_method.as_str());
        out.append(" ");
        out.append(self.request_url.as_str());
        out.append("\n");
        out.append("=> Status         : ");
        let code = decimal_text(self.status);
        out.append(code.as_str());
        out.append(" ");
        let reason = reason_phrase(self.status);
        out.append(reason.as_str());
        out.append("\n");
        out.append("=> Headers        :\n");
        append_header_lines(&mut out, &self.header_map);
        let ghost before_cookies = out@;
        if self.cookies.len() > 0 {
            out.append("=> Response Cookies:\n");
            append_cookie_lines(&mut out, &self.cookies);
        }
        proof {
            assert(out@ =~= before_cookies + cookie_section("=> Response Cookies:\n"@, self.cookies@));
        }
        let ghost before_client = out@;
        if self.client_cookies.len() > 0 {
            out.append("=> Client Cookies :\n");
            append_cookie_lines(&mut out, &self.client_cookies);
        }
        proof {
            assert(out@ =~= before_client + cookie_section("=> Client Cookies :\n"@, self.client_cookies@));
        }
        let ghost before_body = out@;
        if include_body {
            match &self.body {
                Body::Json(_) => {
                    out.append("=> Response Body  :\n");
                    out.append(json_text);
                    out.append("\n");
                },
                Body::Text(t) => {
                    out.append("=> Response Body  :\n");
                    out.append(t.as_str());
                    out.append("\n");
                },
                Body::Other => {},
            }
        }
        proof {
            let section = if include_body {
                body_section(self.body, json_text@)
            } else {
                Seq::empty()
            };
            assert(out@ =~= before_body + section);
        }
        out.append("===\n\n");
        proof {
            assert(out@ =~= transcript(self@, include_body, json_text@));
        }
        out
    }

    /// The human-readable transcript of this response, with the body where
    /// `include_body` holds. A JSON body is shown in its pretty form.
    pub fn render(&self, include_body: bool) -> (r: String)
        ensures
            r@ == transcript(self@, include_body, shown_json_text(self@.body)),
    {
        match &self.body {
            Body::Json(v) => match pretty_json(v) {
                Ok(t) => self.render_with_json_text(include_body, t.as_str()),
                Err(_) => {
                    proof {
                        assert(false);
                    }
                    String::new()
                },
            },
            _ => {
                let r = self.render_with_json_text(include_body, "");
                proof {
                    assert(transcript(self@, include_body, ""@) == transcript(self@, include_body, shown_json_text(self@.body)));
                }
                r
            },
        }
    }
}

/// Every lookup on a response depends on its record alone: asking twice, or
/// asking two responses that hold the same record, gives the same answer.
pub proof fn lookups_are_stable(a: Response, b: Response, name: Seq<char>)
    requires
        a@ == b@,
    ensures
        first_named(a@.cookies, name) == first_named(b@.cookies, name),
        first_named_value(a@.cookies, name) == first_named_value(b@.cookies, name),
        first_named(a@.client_cookies, name) == first_named(b@.client_cookies, name),
        first_named_value(a@.client_cookies, name) == first_named_value(b@.client_cookies, name),
        first_header_value(a@.headers, name) == first_header_value(b@.headers, name),
        header_values(a@.headers, name) == header_values(b@.headers, name),
        json_body_spec(a@.body) == json_body_spec(b@.body),
{
}

/// Each response keeps the jar as it was copied for it: a cookie that
/// entered the jar after the first copy and before the second is found in
/// the second response only.
pub proof fn client_cookies_are_snapshots(first: Response, second: Response, name: Seq<char>)
    requires
        !has_named(first@.client_cookies, name),
        has_named(second@.client_cookies, name),
    ensures
        first_named(first@.client_cookies, name) is None,
        first_named(second@.client_cookies, name) matches Some(c) && c.name@ == name,
{
    lemma_first_named_exists(second@.client_cookies, name);
}

} // verus!
