//! The response type every handler produces: a status code, a content type,
//! and a body.

use vstd::prelude::*;

verus! {

/// The two content types the service ever emits: fixed strings are plain
/// text, everything else is JSON.
#[derive(Clone, Copy, Debug, PartialEq, Eq, Structural)]
pub enum ContentType {
    TextPlain,
    ApplicationJson,
}

/// One HTTP response, constructed and returned within a single
/// request-handling turn.
pub struct Response {
    pub status: u16,
    pub content_type: ContentType,
    pub body: String,
}

/// The mathematical value of a `Response`: its body as a sequence of
/// characters, the other fields as themselves.
pub struct ResponseView {
    pub status: int,
    pub content_type: ContentType,
    pub body: Seq<char>,
}

impl View for Response {
    type V = ResponseView;

    open spec fn view(&self) -> ResponseView {
        ResponseView {
            status: self.status as int,
            content_type: self.content_type,
            body: self.body@,
        }
    }
}

} // verus!
