//! A small HTTP client helper for tests: it composes request URLs, captures
//! each response (status, headers, cookies, body) as an immutable record, and
//! offers read-only queries over that record.

mod client;
mod content;
mod cookies;
mod error;
mod headers;
mod json;
mod method;
mod printer;
mod response;
mod text;

pub use crate::client::{new_client, new_client_with_reqwest, BaseUrl, Client, PostContent, PushRequest};
pub use crate::content::{classify, BodyKind};
pub use crate::cookies::{find_cookie_index, first_cookie, from_tower_cookie_deref, response_cookies, Cookie, SameSitePolicy};
pub use crate::error::HttpcError;
pub use crate::headers::{find_all_headers, find_header, Header};
pub use crate::method::Method;
pub use crate::printer::decimal_text;
pub use crate::response::{body_kind, value_at_pointer, Body, Response, ResponseView};
pub use crate::text::{eq_ignore_ascii_case, has_prefix, same_text};
