use vstd::prelude::*;

use crate::text::has_prefix;

verus! {

/// How a response body is interpreted, as decided by its content type.
#[derive(Clone, Copy, Debug, PartialEq, Eq, Structural)]
pub enum BodyKind {
    Json,
    Text,
    Opaque,
}

pub open spec fn json_media_prefix() -> Seq<char> {
    seq!['a', 'p', 'p', 'l', 'i', 'c', 'a', 't', 'i', 'o', 'n', '/', 'j', 's', 'o', 'n']
}

pub open spec fn text_media_prefix() -> Seq<char> {
    seq!['t', 'e', 'x', 't', '/']
}

/// The body kind for a `Content-Type` header value, or for its absence.
pub open spec fn classify_spec(content_type: Option<Seq<char>>) -> BodyKind {
    match content_type {
        None => BodyKind::Opaque,
        Some(ct) => if json_media_prefix().is_prefix_of(ct) {
            BodyKind::Json
        } else if text_media_prefix().is_prefix_of(ct) {
            BodyKind::Text
        } else {
            BodyKind::Opaque
        },
    }
}

pub open spec fn opt_str_view(s: Option<&str>) -> Option<Seq<char>> {
    match s {
        Some(s) => Some(s@),
        None => None,
    }
}

/// Decides how a body is read from its `Content-Type` header: a value that
/// starts with `application/json` is JSON (parameters such as `; charset=`
/// do not matter), one that starts with `text/` is text, anything else, and
/// a missing header, is opaque.
pub fn classify(content_type: Option<&str>) -> (r: BodyKind)
    ensures
        r == classify_spec(opt_str_view(content_type)),
{
    match content_type {
        None => BodyKind::Opaque,
        Some(ct) => {
            let json = "application/json";
            let text = "text/";
            proof {
                reveal_strlit("application/json");
                reveal_strlit("text/");
                assert(json@ =~= json_media_prefix());
                assert(text@ =~= text_media_prefix());
            }
            if has_prefix(ct, json) {
                BodyKind::Json
            } else if has_prefix(ct, text) {
                BodyKind::Text
            } else {
                BodyKind::Opaque
            }
        },
    }
}

/// Classification is a function of the header value alone: equal inputs
/// are classified alike, whatever was classified before.
pub proof fn classify_is_pure(a: Option<Seq<char>>, b: Option<Seq<char>>)
    requires
        a == b,
    ensures
        classify_spec(a) == classify_spec(b),
{
}

/// Parameters after the media type (`; charset=utf-8`) do not change how a
/// body is classified.
pub proof fn classify_ignores_parameters(media_type: Seq<char>, parameters: Seq<char>)
    requires
        json_media_prefix().is_prefix_of(media_type) || text_media_prefix().is_prefix_of(media_type),
    ensures
        classify_spec(Some(media_type + parameters)) == classify_spec(Some(media_type)),
{
    let full = media_type + parameters;
    assert(json_media_prefix().is_prefix_of(media_type) ==> json_media_prefix().is_prefix_of(full)) by {
        if json_media_prefix().is_prefix_of(media_type) {
            assert(full.subrange(0, json_media_prefix().len() as int) =~= media_type.subrange(0, json_media_prefix().len() as int));
        }
    }
    assert(text_media_prefix().is_prefix_of(media_type) ==> text_media_prefix().is_prefix_of(full)) by {
        if text_media_prefix().is_prefix_of(media_type) {
            assert(full.subrange(0, text_media_prefix().len() as int) =~= media_type.subrange(0, text_media_prefix().len() as int));
        }
    }
    if !json_media_prefix().is_prefix_of(media_type) && json_media_prefix().is_prefix_of(full) {
        // media_type starts with text/, so full does too, and no text can start with both.
        assert(full[0] == 't');
        assert(json_media_prefix()[0] == 'a');
    }
}

} // verus!
