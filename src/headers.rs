use vstd::prelude::*;

use crate::cookies::opt_string_view;
use crate::text::{eq_ignore_ascii_case, same_ignoring_ascii_case};

verus! {

/// One header line of a response. The value is `None` where it is not
/// visible ASCII text.
#[derive(Debug)]
pub struct Header {
    pub name: String,
    pub value: Option<String>,
}

impl Header {
    /// A header line from its name and value.
    pub fn new(name: String, value: Option<String>) -> (r: Header)
        ensures
            r.name@ == name@,
            opt_string_view(r.value) == opt_string_view(value),
    {
        Header { name, value }
    }
}

/// Whether some header line bears this name, ignoring ASCII case.
pub open spec fn has_header(headers: Seq<Header>, name: Seq<char>) -> bool {
    exists|i: int| 0 <= i < headers.len() && same_ignoring_ascii_case((#[trigger] headers[i]).name@, name)
}

/// `i` is the position of the first header line that bears this name.
pub open spec fn is_first_header(headers: Seq<Header>, name: Seq<char>, i: int) -> bool {
    &&& 0 <= i < headers.len()
    &&& same_ignoring_ascii_case(headers[i].name@, name)
    &&& forall|j: int| 0 <= j < i ==> !same_ignoring_ascii_case((#[trigger] headers[j]).name@, name)
}

/// The value of the first header line that bears this name: `None` where
/// there is no such line or where its value is not text.
pub open spec fn first_header_value(headers: Seq<Header>, name: Seq<char>) -> Option<Seq<char>> {
    if has_header(headers, name) {
        opt_string_view(headers[choose|i: int| is_first_header(headers, name, i)].value)
    } else {
        None
    }
}

/// The text values of all header lines that bear this name, in order.
pub open spec fn header_values(headers: Seq<Header>, name: Seq<char>) -> Seq<Seq<char>>
    decreases headers.len(),
{
    if headers.len() == 0 {
        Seq::empty()
    } else {
        let rest = header_values(headers.drop_last(), name);
        let h = headers.last();
        if same_ignoring_ascii_case(h.name@, name) && h.value is Some {
            rest.push(h.value->Some_0@)
        } else {
            rest
        }
    }
}

/// The first position that bears a name is the only one of which
/// `is_first_header` holds.
pub proof fn lemma_first_header_at(headers: Seq<Header>, name: Seq<char>, i: int)
    requires
        is_first_header(headers, name, i),
    ensures
        first_header_value(headers, name) == opt_string_view(headers[i].value),
{
    assert(has_header(headers, name));
    let k = choose|k: int| is_first_header(headers, name, k);
    assert(is_first_header(headers, name, k));
    if k < i {
        assert(!same_ignoring_ascii_case(headers[k].name@, name));
    } else if k > i {
        assert(!same_ignoring_ascii_case(headers[i].name@, name));
    }
}

/// The value of the first header line with this name (compared without
/// ASCII case), where it is text.
pub fn find_header(headers: &Vec<Header>, name: &str) -> (r: Option<String>)
    ensures
        opt_string_view(r) == first_header_value(headers@, name@),
{
    let mut i: usize = 0;
    while i < headers.len()
        invariant
            i <= headers@.len(),
            forall|j: int| 0 <= j < i ==> !same_ignoring_ascii_case((#[trigger] headers@[j]).name@, name@),
        decreases headers.len() - i,
    {
        if eq_ignore_ascii_case(headers[i].name.as_str(), name) {
            proof {
                lemma_first_header_at(headers@, name@, i as int);
            }
            return match &headers[i].value {
                Some(v) => Some(v.clone()),
                None => None,
            };
        }
        i = i + 1;
    }
    None
}

/// The text values of all header lines with this name, in order.
pub fn find_all_headers(headers: &Vec<Header>, name: &str) -> (r: Vec<String>)
    ensures
        r@.map_values(|s: String| s@) == header_values(headers@, name@),
{
    let mut r: Vec<String> = Vec::new();
    let mut i: usize = 0;
    while i < headers.len()
        invariant
            i <= headers@.len(),
            r@.map_values(|s: String| s@) == header_values(headers@.subrange(0, i as int), name@),
        decreases headers.len() - i,
    {
        proof {
            assert(headers@.subrange(0, i as int + 1).drop_last() =~= headers@.subrange(0, i as int));
        }
        if eq_ignore_ascii_case(headers[i].name.as_str(), name) {
            match &headers[i].value {
                Some(v) => {
                    let ghost before = r@;
                    r.push(v.clone());
                    proof {
                        assert(r@.map_values(|s: String| s@) =~= before.map_values(|s: String| s@).push(v@));
                    }
                },
                None => {},
            }
        }
        i = i + 1;
    }
    proof {
        assert(headers@.subrange(0, headers@.len() as int) =~= headers@);
    }
    r
}

} // verus!
