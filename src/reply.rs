//! What the service sends back: a status, a content type and a body.
use vstd::prelude::*;

verus! {

/// The status of a successful reply.
pub const STATUS_OK: u16 = 200;

/// The status of a reply to a request that could not be decoded.
pub const STATUS_BAD_REQUEST: u16 = 400;

/// The status of a reply to a request whose compilation failed.
pub const STATUS_INTERNAL_ERROR: u16 = 500;

/// The media type of a reply body.
#[derive(Clone, Copy, Debug, PartialEq, Eq, Structural)]
pub enum ContentType {
    /// `text/plain; charset=utf-8`
    PlainText,
    /// `application/wasm`
    Wasm,
}

impl ContentType {
    /// The value of the `Content-Type` header for this media type.
    pub fn header_value(&self) -> (r: &'static str)
        ensures
            r@ == self.header_spec(),
    {
        match self {
            ContentType::PlainText => "text/plain; charset=utf-8",
            ContentType::Wasm => "application/wasm",
        }
    }

    pub open spec fn header_spec(&self) -> Seq<char> {
        match self {
            ContentType::PlainText => "text/plain; charset=utf-8"@,
            ContentType::Wasm => "application/wasm"@,
        }
    }
}

/// The body of a reply.
#[derive(Debug)]
pub enum ReplyBody {
    /// A text held in memory.
    Text(String),
    /// The contents of the file at this path, streamed as they are read.
    Artifact(String),
}

/// A complete reply: status, content type and body.
#[derive(Debug)]
pub struct Reply {
    pub status: u16,
    pub content_type: ContentType,
    pub body: ReplyBody,
}

impl Reply {
    /// A reply whose body is the given text.
    pub fn text(status: u16, body: String) -> (r: Reply)
        ensures
            r.status == status,
            r.content_type == ContentType::PlainText,
            r.body == ReplyBody::Text(body),
    {
        Reply { status, content_type: ContentType::PlainText, body: ReplyBody::Text(body) }
    }

    /// A successful reply that streams the WebAssembly module at `path`.
    pub fn artifact(path: String) -> (r: Reply)
        ensures
            r.status == STATUS_OK,
            r.content_type == ContentType::Wasm,
            r.body == ReplyBody::Artifact(path),
    {
        Reply { status: STATUS_OK, content_type: ContentType::Wasm, body: ReplyBody::Artifact(path) }
    }

    /// Whether the status is that of a success.
    pub open spec fn is_success(&self) -> bool {
        200 <= self.status < 300
    }

    /// The text of the body, when the body is held in memory.
    pub open spec fn text_body(&self) -> Option<Seq<char>> {
        match self.body {
            ReplyBody::Text(t) => Some(t@),
            ReplyBody::Artifact(_) => None,
        }
    }
}

/// The text that the liveness probe answers with.
pub fn hello_world() -> (r: String)
    ensures
        r@ == "Hello, World!"@,
{
    String::from_str("Hello, World!")
}

/// The reply to the liveness probe. It takes nothing from the request:
/// whatever headers or body were sent, the reply is the same.
pub fn liveness_reply() -> (r: Reply)
    ensures
        r.status == STATUS_OK,
        r.content_type == ContentType::PlainText,
        r.text_body() == Some("Hello, World!"@),
{
    Reply::text(STATUS_OK, hello_world())
}

} // verus!
