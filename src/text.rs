use vstd::prelude::*;

verus! {

/// The code of a character once an ASCII letter is folded to lower case.
pub open spec fn ascii_lower(c: char) -> int {
    if 'A' <= c && c <= 'Z' {
        (c as int) + 32
    } else {
        c as int
    }
}

/// Equality of two texts when ASCII letters are compared without case.
pub open spec fn same_ignoring_ascii_case(a: Seq<char>, b: Seq<char>) -> bool {
    &&& a.len() == b.len()
    &&& forall|i: int| 0 <= i < a.len() ==> ascii_lower(#[trigger] a[i]) == ascii_lower(b[i])
}

fn lower_code(c: char) -> (r: u32)
    ensures
        r as int == ascii_lower(c),
{
    if 'A' <= c && c <= 'Z' {
        (c as u32) + 32
    } else {
        c as u32
    }
}

/// Whether `prefix` is a prefix of `s`.
pub fn has_prefix(s: &str, prefix: &str) -> (r: bool)
    ensures
        r == prefix@.is_prefix_of(s@),
{
    let n = s.unicode_len();
    let m = prefix.unicode_len();
    if m > n {
        return false;
    }
    let mut i: usize = 0;
    while i < m
        invariant
            m == prefix@.len(),
            n == s@.len(),
            m <= n,
            i <= m,
            forall|j: int| 0 <= j < i ==> s@[j] == prefix@[j],
        decreases m - i,
    {
        if s.get_char(i) != prefix.get_char(i) {
            return false;
        }
        i = i + 1;
    }
    proof {
        assert(prefix@ =~= s@.subrange(0, m as int));
    }
    true
}

/// Whether two texts are equal.
pub fn same_text(a: &str, b: &str) -> (r: bool)
    ensures
        r == (a@ == b@),
{
    if a.unicode_len() != b.unicode_len() {
        return false;
    }
    let r = has_prefix(a, b);
    proof {
        if r {
            assert(a@ =~= b@);
        }
    }
    r
}

/// Whether two texts are equal when ASCII letters are compared without case,
/// as header names are.
pub fn eq_ignore_ascii_case(a: &str, b: &str) -> (r: bool)
    ensures
        r == same_ignoring_ascii_case(a@, b@),
{
    let n = a.unicode_len();
    if n != b.unicode_len() {
        return false;
    }
    let mut i: usize = 0;
    while i < n
        invariant
            n == a@.len(),
            n == b@.len(),
            i <= n,
            forall|j: int| 0 <= j < i ==> ascii_lower(#[trigger] a@[j]) == ascii_lower(b@[j]),
        decreases n - i,
    {
        if lower_code(a.get_char(i)) != lower_code(b.get_char(i)) {
            return false;
        }
        i = i + 1;
    }
    true
}

} // verus!
