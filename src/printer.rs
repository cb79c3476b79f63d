use vstd::prelude::*;

use crate::cookies::Cookie;
use crate::headers::Header;

verus! {

/// The reason phrase that the HTTP standard gives a status code; empty for a
/// code that has none.
pub uninterp spec fn canonical_reason(code: u16) -> Seq<char>;

/// Relies on http's StatusCode::canonical_reason (through reqwest), with the
/// empty text where there is none or the code is out of range.
#[verifier::external_body]
pub(crate) fn reason_phrase(code: u16) -> (r: String)
    ensures
        r@ == canonical_reason(code),
{
    match reqwest::StatusCode::from_u16(code) {
        Ok(s) => s.canonical_reason().unwrap_or_default().to_string(),
        Err(_) => String::new(),
    }
}

/// The decimal digit `d`.
pub open spec fn digit_char(d: int) -> char {
    "0123456789"@[d]
}

/// The decimal numeral of `n`, without leading zeros.
pub open spec fn decimal(n: nat) -> Seq<char>
    decreases n,
{
    if n < 10 {
        seq![digit_char(n as int)]
    } else {
        decimal(n / 10) + seq![digit_char((n % 10) as int)]
    }
}

/// The decimal numeral of `n`.
pub fn decimal_text(n: u16) -> (r: String)
    ensures
        r@ == decimal(n as nat),
    decreases n,
{
    let digits = "0123456789";
    proof {
        reveal_strlit("0123456789");
    }
    let d = (n % 10) as usize;
    let one = digits.substring_char(d, d + 1);
    proof {
        assert(one@ =~= seq![digit_char(d as int)]);
    }
    let mut s = if n < 10 {
        String::new()
    } else {
        decimal_text(n / 10)
    };
    s.append(one);
    proof {
        if n < 10 {
            assert(s@ =~= seq![digit_char(n as int)]);
        }
    }
    s
}

/// A header value as it is shown: empty where it is not text.
pub open spec fn shown_value(v: Option<String>) -> Seq<char> {
    match v {
        Some(s) => s@,
        None => Seq::empty(),
    }
}

/// One line per header, in order.
pub open spec fn header_lines(headers: Seq<Header>) -> Seq<char>
    decreases headers.len(),
{
    if headers.len() == 0 {
        Seq::empty()
    } else {
        let h = headers.last();
        header_lines(headers.drop_last()) + "   "@ + h.name@ + ": "@ + shown_value(h.value) + "\n"@
    }
}

/// One line per cookie, with its name and value, in order.
pub open spec fn cookie_lines(cookies: Seq<Cookie>) -> Seq<char>
    decreases cookies.len(),
{
    if cookies.len() == 0 {
        Seq::empty()
    } else {
        let c = cookies.last();
        cookie_lines(cookies.drop_last()) + "   "@ + c.name@ + ": "@ + c.value@ + "\n"@
    }
}

/// A titled list of cookies; nothing at all where there are none.
pub open spec fn cookie_section(title: Seq<char>, cookies: Seq<Cookie>) -> Seq<char> {
    if cookies.len() == 0 {
        Seq::empty()
    } else {
        title + cookie_lines(cookies)
    }
}

/// Appends one line per header.
pub fn append_header_lines(out: &mut String, headers: &Vec<Header>)
    ensures
        final(out)@ == old(out)@ + header_lines(headers@),
{
    let ghost start = out@;
    let mut i: usize = 0;
    while i < headers.len()
        invariant
            i <= headers@.len(),
            out@ == start + header_lines(headers@.subrange(0, i as int)),
        decreases headers.len() - i,
    {
        let ghost prev = out@;
        let h = &headers[i];
        out.append("   ");
        out.append(h.name.as_str());
        out.append(": ");
        match &h.value {
            Some(v) => out.append(v.as_str()),
            None => {},
        }
        out.append("\n");
        proof {
            let sub = headers@.subrange(0, i as int + 1);
            assert(sub.drop_last() =~= headers@.subrange(0, i as int));
            assert(sub.last() == headers@[i as int]);
            if h.value is None {
                assert(shown_value(h.value) =~= Seq::<char>::empty());
            }
            assert(out@ =~= start + header_lines(sub));
        }
        i = i + 1;
    }
    proof {
        assert(headers@.subrange(0, headers@.len() as int) =~= headers@);
    }
}

/// Appends one line per cookie.
pub fn append_cookie_lines(out: &mut String, cookies: &Vec<Cookie>)
    ensures
        final(out)@ == old(out)@ + cookie_lines(cookies@),
{
    let ghost start = out@;
    let mut i: usize = 0;
    while i < cookies.len()
        invariant
            i <= cookies@.len(),
            out@ == start + cookie_lines(cookies@.subrange(0, i as int)),
        decreases cookies.len() - i,
    {
        let c = &cookies[i];
        out.append("   ");
        out.append(c.name.as_str());
        out.append(": ");
        out.append(c.value.as_str());
        out.append("\n");
        proof {
            let sub = cookies@.subrange(0, i as int + 1);
            assert(sub.drop_last() =~= cookies@.subrange(0, i as int));
            assert(sub.last() == cookies@[i as int]);
            assert(out@ =~= start + cookie_lines(sub));
        }
        i = i + 1;
    }
    proof {
        assert(cookies@.subrange(0, cookies@.len() as int) =~= cookies@);
    }
}

} // verus!
