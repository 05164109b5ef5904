//! The API: one route with one constant reply.

use crate::json::{json_string, json_text, quoted};
use vstd::prelude::*;

verus! {

/// Path of the greeting route.
pub const HELLO_PATH: &'static str = "/api/v1/hello";

/// The greeting, before it is written as JSON.
pub const GREETING: &'static str = "hello!";

/// Media type of every API reply.
pub const JSON_MEDIA_TYPE: &'static str = "application/json";

/// A reply of the API, as plain values.
#[derive(Debug, Clone, PartialEq, Eq)]
pub struct Reply {
    /// HTTP status code.
    pub status: u16,
    /// Value of the `Content-Type` header.
    pub content_type: String,
    /// The body, as text.
    pub body: String,
}

/// The reply of the greeting route. It takes nothing from the request, so
/// neither query string nor request headers can change it: status 200, JSON
/// media type, and as body the greeting as a JSON string, quotes included.
pub fn hello() -> (reply: Reply)
    ensures
        reply.status == 200,
        reply.content_type@ == JSON_MEDIA_TYPE@,
        reply.body@ == json_text(GREETING@),
        reply.body@ == "\"hello!\""@,
{
    proof {
        reveal_strlit("hello!");
        reveal_strlit("\"hello!\"");
        assert(quoted(GREETING@) =~= "\"hello!\""@);
    }
    Reply { status: 200, content_type: JSON_MEDIA_TYPE.to_owned(), body: json_string(GREETING) }
}

} // verus!
