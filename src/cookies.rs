use vstd::prelude::*;

use reqwest_cookie_store::RawCookie;

use crate::headers::Header;
use crate::text::{eq_ignore_ascii_case, same_ignoring_ascii_case, same_text};

verus! {

#[verifier::external_type_specification]
#[verifier::external_body]
pub struct ExRawCookie<'c>(RawCookie<'c>);

/// The `SameSite` attribute of a cookie.
#[derive(Clone, Copy, Debug, PartialEq, Eq, Structural)]
pub enum SameSitePolicy {
    Strict,
    Lax,
    Unrestricted,
}

/// One cookie's attributes, as a plain record.
#[derive(Debug)]
pub struct Cookie {
    pub name: String,
    pub value: String,
    pub http_only: bool,
    pub secure: bool,
    pub same_site_lax: bool,
    pub same_site_strict: bool,
    pub path: Option<String>,
    /// The `Max-Age` attribute, in seconds.
    pub max_age: Option<u64>,
    /// The `Expires` attribute, in seconds since the Unix epoch.
    pub expires: Option<i64>,
}

/// A `Max-Age` of a negative number of seconds means that the cookie is
/// already due, as a zero one does.
pub open spec fn max_age_of(secs: Option<i64>) -> Option<u64> {
    match secs {
        Some(s) => Some(if s < 0 { 0 } else { s as u64 }),
        None => None,
    }
}

pub open spec fn opt_string_view(s: Option<String>) -> Option<Seq<char>> {
    match s {
        Some(s) => Some(s@),
        None => None,
    }
}

/// Whether some cookie of the sequence bears this name.
pub open spec fn has_named(cookies: Seq<Cookie>, name: Seq<char>) -> bool {
    exists|i: int| 0 <= i < cookies.len() && (#[trigger] cookies[i]).name@ == name
}

/// `i` is the position of the first cookie that bears this name.
pub open spec fn is_first_named(cookies: Seq<Cookie>, name: Seq<char>, i: int) -> bool {
    &&& 0 <= i < cookies.len()
    &&& cookies[i].name@ == name
    &&& forall|j: int| 0 <= j < i ==> (#[trigger] cookies[j]).name@ != name
}

/// The first cookie of the sequence that bears this name, if any.
pub open spec fn first_named(cookies: Seq<Cookie>, name: Seq<char>) -> Option<Cookie> {
    if has_named(cookies, name) {
        Some(cookies[choose|i: int| is_first_named(cookies, name, i)])
    } else {
        None
    }
}

/// The value of the first cookie that bears this name, if any.
pub open spec fn first_named_value(cookies: Seq<Cookie>, name: Seq<char>) -> Option<Seq<char>> {
    match first_named(cookies, name) {
        Some(c) => Some(c.value@),
        None => None,
    }
}

/// The first position that bears a name is the only one of which
/// `is_first_named` holds, and `first_named` is the cookie found there.
pub proof fn lemma_first_named_at(cookies: Seq<Cookie>, name: Seq<char>, i: int)
    requires
        is_first_named(cookies, name, i),
    ensures
        first_named(cookies, name) == Some(cookies[i]),
{
    assert(has_named(cookies, name));
    let k = choose|k: int| is_first_named(cookies, name, k);
    assert(is_first_named(cookies, name, k));
    if k < i {
        assert(cookies[k].name@ != name);
    } else if k > i {
        assert(cookies[i].name@ != name);
    }
}

/// Where some cookie bears a name, a first one does.
proof fn lemma_least_named(cookies: Seq<Cookie>, name: Seq<char>, w: int)
    requires
        0 <= w < cookies.len(),
        cookies[w].name@ == name,
    ensures
        exists|i: int| is_first_named(cookies, name, i),
    decreases w,
{
    if forall|j: int| 0 <= j < w ==> (#[trigger] cookies[j]).name@ != name {
        assert(is_first_named(cookies, name, w));
    } else {
        let v = choose|j: int| 0 <= j < w && (#[trigger] cookies[j]).name@ == name;
        lemma_least_named(cookies, name, v);
    }
}

/// Where some cookie bears a name, `first_named` finds the first of them.
pub proof fn lemma_first_named_exists(cookies: Seq<Cookie>, name: Seq<char>)
    requires
        has_named(cookies, name),
    ensures
        first_named(cookies, name) matches Some(c) && c.name@ == name,
{
    let w = choose|w: int| 0 <= w < cookies.len() && (#[trigger] cookies[w]).name@ == name;
    lemma_least_named(cookies, name, w);
}

/// The position of the first cookie that bears this name, if any.
pub fn find_cookie_index(cookies: &Vec<Cookie>, name: &str) -> (r: Option<usize>)
    ensures
        r matches Some(i) ==> is_first_named(cookies@, name@, i as int),
        r is None <==> !has_named(cookies@, name@),
        first_named(cookies@, name@) == match r {
            Some(i) => Some(cookies@[i as int]),
            None => None::<Cookie>,
        },
{
    let mut i: usize = 0;
    while i < cookies.len()
        invariant
            i <= cookies@.len(),
            forall|j: int| 0 <= j < i ==> (#[trigger] cookies@[j]).name@ != name@,
        decreases cookies.len() - i,
    {
        if same_text(cookies[i].name.as_str(), name) {
            proof {
                lemma_first_named_at(cookies@, name@, i as int);
            }
            return Some(i);
        }
        i = i + 1;
    }
    None
}

/// The first cookie of this name, taken out of the sequence.
pub fn first_cookie(cookies: Vec<Cookie>, name: &str) -> (r: Option<Cookie>)
    ensures
        r == first_named(cookies@, name@),
        r matches Some(c) ==> c.name@ == name@,
{
    let mut cookies = cookies;
    match find_cookie_index(&cookies, name) {
        Some(i) => Some(cookies.remove(i)),
        None => None,
    }
}

impl Cookie {
    /// Builds a cookie from the attributes that a `Set-Cookie` line gives:
    /// an absent `HttpOnly` or `Secure` counts as false, and the `SameSite`
    /// policy becomes the two flags `same_site_lax` and `same_site_strict`.
    pub fn from_attributes(
        name: String,
        value: String,
        http_only: Option<bool>,
        secure: Option<bool>,
        same_site: Option<SameSitePolicy>,
        path: Option<String>,
        max_age_secs: Option<i64>,
        expires: Option<i64>,
    ) -> (r: Cookie)
        ensures
            r.name@ == name@,
            r.value@ == value@,
            r.http_only == (http_only == Some(true)),
            r.secure == (secure == Some(true)),
            r.same_site_lax == (same_site == Some(SameSitePolicy::Lax)),
            r.same_site_strict == (same_site == Some(SameSitePolicy::Strict)),
            opt_string_view(r.path) == opt_string_view(path),
            r.max_age == max_age_of(max_age_secs),
            r.expires == expires,
    {
        let max_age = match max_age_secs {
            Some(s) => Some(if s < 0 { 0u64 } else { s as u64 }),
            None => None,
        };
        Cookie {
            name,
            value,
            http_only: match http_only {
                Some(b) => b,
                None => false,
            },
            secure: match secure {
                Some(b) => b,
                None => false,
            },
            same_site_lax: match same_site {
                Some(SameSitePolicy::Lax) => true,
                _ => false,
            },
            same_site_strict: match same_site {
                Some(SameSitePolicy::Strict) => true,
                _ => false,
            },
            path,
            max_age,
            expires,
        }
    }
}

/// The name of a cookie of the cookie crate.
pub uninterp spec fn raw_name_of(c: RawCookie<'static>) -> Seq<char>;

/// The value of a cookie of the cookie crate.
pub uninterp spec fn raw_value_of(c: RawCookie<'static>) -> Seq<char>;

/// The `HttpOnly` attribute of a cookie; `None` where it is absent.
pub uninterp spec fn raw_http_only_of(c: RawCookie<'static>) -> Option<bool>;

/// The `Secure` attribute of a cookie; `None` where it is absent.
pub uninterp spec fn raw_secure_of(c: RawCookie<'static>) -> Option<bool>;

/// The `SameSite` attribute of a cookie; `None` where it is absent.
pub uninterp spec fn raw_same_site_of(c: RawCookie<'static>) -> Option<SameSitePolicy>;

/// The `Path` attribute of a cookie; `None` where it is absent.
pub uninterp spec fn raw_path_of(c: RawCookie<'static>) -> Option<Seq<char>>;

/// The `Max-Age` attribute of a cookie, in whole seconds.
pub uninterp spec fn raw_max_age_of(c: RawCookie<'static>) -> Option<i64>;

/// The `Expires` date of a cookie, in seconds since the Unix epoch; `None`
/// for a session cookie or where it is absent.
pub uninterp spec fn raw_expires_of(c: RawCookie<'static>) -> Option<i64>;

/// Relies on cookie::Cookie::name.
#[verifier::external_body]
fn raw_name(c: &RawCookie<'static>) -> (r: String)
    ensures
        r@ == raw_name_of(*c),
{
    c.name().to_string()
}

/// Relies on cookie::Cookie::value.
#[verifier::external_body]
fn raw_value(c: &RawCookie<'static>) -> (r: String)
    ensures
        r@ == raw_value_of(*c),
{
    c.value().to_string()
}

/// Relies on cookie::Cookie::http_only: `None` where the attribute is absent.
#[verifier::external_body]
fn raw_http_only(c: &RawCookie<'static>) -> (r: Option<bool>)
    ensures
        r == raw_http_only_of(*c),
{
    c.http_only()
}

/// Relies on cookie::Cookie::secure: `None` where the attribute is absent.
#[verifier::external_body]
fn raw_secure(c: &RawCookie<'static>) -> (r: Option<bool>)
    ensures
        r == raw_secure_of(*c),
{
    c.secure()
}

/// Relies on cookie::Cookie::same_site, each variant mapped to its own.
#[verifier::external_body]
fn raw_same_site(c: &RawCookie<'static>) -> (r: Option<SameSitePolicy>)
    ensures
        r == raw_same_site_of(*c),
{
    match c.same_site() {
        Some(cookie::SameSite::Strict) => Some(SameSitePolicy::Strict),
        Some(cookie::SameSite::Lax) => Some(SameSitePolicy::Lax),
        Some(cookie::SameSite::None) => Some(SameSitePolicy::Unrestricted),
        None => None,
    }
}

/// Relies on cookie::Cookie::path.
#[verifier::external_body]
fn raw_path(c: &RawCookie<'static>) -> (r: Option<String>)
    ensures
        opt_string_view(r) == raw_path_of(*c),
{
    c.path().map(String::from)
}

/// Relies on cookie::Cookie::max_age, in whole seconds.
#[verifier::external_body]
fn raw_max_age_secs(c: &RawCookie<'static>) -> (r: Option<i64>)
    ensures
        r == raw_max_age_of(*c),
{
    match c.max_age() {
        Some(d) => Some(d.whole_seconds()),
        None => None,
    }
}

/// Relies on cookie::Cookie::expires: a date becomes its Unix time in
/// seconds, a session cookie has none.
#[verifier::external_body]
fn raw_expires(c: &RawCookie<'static>) -> (r: Option<i64>)
    ensures
        r == raw_expires_of(*c),
{
    match c.expires() {
        Some(cookie::Expiration::DateTime(t)) => Some(t.unix_timestamp()),
        Some(cookie::Expiration::Session) => None,
        None => None,
    }
}

/// `c` is the plain record of `raw`: an absent `HttpOnly` or `Secure` counts
/// as false, the `SameSite` policy becomes two flags, and a negative
/// `Max-Age` counts as zero.
pub open spec fn copied_from(c: Cookie, raw: RawCookie<'static>) -> bool {
    &&& c.name@ == raw_name_of(raw)
    &&& c.value@ == raw_value_of(raw)
    &&& c.http_only == (raw_http_only_of(raw) == Some(true))
    &&& c.secure == (raw_secure_of(raw) == Some(true))
    &&& c.same_site_lax == (raw_same_site_of(raw) == Some(SameSitePolicy::Lax))
    &&& c.same_site_strict == (raw_same_site_of(raw) == Some(SameSitePolicy::Strict))
    &&& opt_string_view(c.path) == raw_path_of(raw)
    &&& c.max_age == max_age_of(raw_max_age_of(raw))
    &&& c.expires == raw_expires_of(raw)
}

/// Copies a cookie of the client's jar into a plain record: an absent
/// `HttpOnly` or `Secure` counts as false, the `SameSite` policy becomes two
/// flags, and a negative `Max-Age` counts as zero.
pub fn from_tower_cookie_deref(val: &RawCookie<'static>) -> (r: Cookie)
    ensures
        copied_from(r, *val),
{
    Cookie::from_attributes(
        raw_name(val),
        raw_value(val),
        raw_http_only(val),
        raw_secure(val),
        raw_same_site(val),
        raw_path(val),
        raw_max_age_secs(val),
        raw_expires(val),
    )
}

impl<'a> From<&'a RawCookie<'static>> for Cookie {
    fn from(val: &'a RawCookie<'static>) -> (r: Cookie)
        ensures
            copied_from(r, *val),
    {
        from_tower_cookie_deref(val)
    }
}

impl<'a> vstd::std_specs::convert::FromSpecImpl<&'a RawCookie<'static>> for Cookie {
    open spec fn obeys_from_spec() -> bool {
        false
    }

    open spec fn from_spec(v: &'a RawCookie<'static>) -> Cookie {
        arbitrary()
    }
}

/// The cookie that the cookie crate reads from one `Set-Cookie` line, if
/// the line holds one.
pub uninterp spec fn parsed_set_cookie(line: Seq<char>) -> Option<RawCookie<'static>>;

/// Relies on cookie::Cookie::parse, which reads one `Set-Cookie` line and
/// fails on a line that holds no cookie; the result depends on the line alone.
#[verifier::external_body]
fn parse_set_cookie(line: &str) -> (r: Option<RawCookie<'static>>)
    ensures
        r == parsed_set_cookie(line@),
{
    RawCookie::parse(line.to_string()).ok()
}

pub open spec fn set_cookie_header_name() -> Seq<char> {
    seq!['s', 'e', 't', '-', 'c', 'o', 'o', 'k', 'i', 'e']
}

/// The cookies that the `Set-Cookie` lines among these headers hold, in the
/// order of the lines; a line that holds no cookie is passed over.
pub open spec fn set_cookies_of(headers: Seq<Header>) -> Seq<RawCookie<'static>>
    decreases headers.len(),
{
    if headers.len() == 0 {
        Seq::empty()
    } else {
        let rest = set_cookies_of(headers.drop_last());
        let h = headers.last();
        if same_ignoring_ascii_case(h.name@, set_cookie_header_name()) && h.value is Some
            && parsed_set_cookie(h.value->Some_0@) is Some {
            rest.push(parsed_set_cookie(h.value->Some_0@)->Some_0)
        } else {
            rest
        }
    }
}

/// `cookies` are the plain records of `raws`, one for one and in order.
pub open spec fn copied_all(cookies: Seq<Cookie>, raws: Seq<RawCookie<'static>>) -> bool {
    &&& cookies.len() == raws.len()
    &&& forall|i: int| 0 <= i < cookies.len() ==> copied_from(#[trigger] cookies[i], raws[i])
}

/// The cookies that a response sets: one for each `Set-Cookie` line that
/// holds one, in the order of the lines.
pub fn response_cookies(headers: &Vec<Header>) -> (r: Vec<Cookie>)
    ensures
        copied_all(r@, set_cookies_of(headers@)),
{
    let name = "set-cookie";
    proof {
        reveal_strlit("set-cookie");
        assert(name@ =~= set_cookie_header_name());
    }
    let mut r: Vec<Cookie> = Vec::new();
    let mut i: usize = 0;
    while i < headers.len()
        invariant
            i <= headers@.len(),
            name@ == set_cookie_header_name(),
            copied_all(r@, set_cookies_of(headers@.subrange(0, i as int))),
        decreases headers.len() - i,
    {
        proof {
            assert(headers@.subrange(0, i as int + 1).drop_last() =~= headers@.subrange(0, i as int));
        }
        let ghost before = r@;
        if eq_ignore_ascii_case(headers[i].name.as_str(), name) {
            match &headers[i].value {
                Some(v) => match parse_set_cookie(v.as_str()) {
                    Some(raw) => {
                        let c = from_tower_cookie_deref(&raw);
                        r.push(c);
                        proof {
                            let raws = set_cookies_of(headers@.subrange(0, i as int + 1));
                            assert forall|j: int| 0 <= j < r@.len() implies copied_from(#[trigger] r@[j], raws[j]) by {
                                if j < before.len() {
                                    assert(r@[j] == before[j]);
                                }
                            }
                        }
                    },
                    None => {},
                },
                None => {},
            }
        }
        i = i + 1;
    }
    proof {
        assert(headers@.subrange(0, headers@.len() as int) =~= headers@);
    }
    r
}

} // verus!
