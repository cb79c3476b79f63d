use vstd::prelude::*;

verus! {

/// The HTTP method of a request.
#[derive(Clone, Copy, Debug, PartialEq, Eq, Structural)]
pub enum Method {
    Get,
    Head,
    Post,
    Put,
    Patch,
    Delete,
    Options,
    Connect,
    Trace,
}

impl Method {
    /// The methods that carry a request body meant to create or update a
    /// resource.
    pub open spec fn is_push_spec(self) -> bool {
        self == Method::Post || self == Method::Put || self == Method::Patch
    }

    /// Whether this is POST, PUT or PATCH.
    pub fn is_push(&self) -> (r: bool)
        ensures
            r == self.is_push_spec(),
    {
        match self {
            Method::Post | Method::Put | Method::Patch => true,
            _ => false,
        }
    }

    /// The method's name as it stands in a request line.
    pub open spec fn name_spec(self) -> Seq<char> {
        match self {
            Method::Get => "GET"@,
            Method::Head => "HEAD"@,
            Method::Post => "POST"@,
            Method::Put => "PUT"@,
            Method::Patch => "PATCH"@,
            Method::Delete => "DELETE"@,
            Method::Options => "OPTIONS"@,
            Method::Connect => "CONNECT"@,
            Method::Trace => "TRACE"@,
        }
    }

    /// The method's name as it stands in a request line.
    pub fn as_str(&self) -> (r: &'static str)
        ensures
            r@ == self.name_spec(),
            r@.len() > 0,
    {
        let r = match self {
            Method::Get => "GET",
            Method::Head => "HEAD",
            Method::Post => "POST",
            Method::Put => "PUT",
            Method::Patch => "PATCH",
            Method::Delete => "DELETE",
            Method::Options => "OPTIONS",
            Method::Connect => "CONNECT",
            Method::Trace => "TRACE",
        };
        proof {
            reveal_strlit("GET");
            reveal_strlit("HEAD");
            reveal_strlit("POST");
            reveal_strlit("PUT");
            reveal_strlit("PATCH");
            reveal_strlit("DELETE");
            reveal_strlit("OPTIONS");
            reveal_strlit("CONNECT");
            reveal_strlit("TRACE");
        }
        r
    }
}

} // verus!
