//! The failures of a compile request and how each becomes a reply.
use vstd::prelude::*;
use crate::reply::{ContentType, Reply, ReplyBody, STATUS_BAD_REQUEST, STATUS_INTERNAL_ERROR};

verus! {

/// Why a compile request failed. Each variant carries the message of the
/// failure that caused it.
#[derive(Debug)]
pub enum ServiceError {
    /// The request body is not a well-formed compile request.
    InvalidRequest(String),
    /// The compiler rejected the model or produced no output.
    CompilationFailed(String),
    /// The compiled module could not be opened or read.
    ArtifactIo(String),
}

/// The description used for a failure whose own message is empty.
pub open spec fn fallback_message(e: ServiceError) -> Seq<char> {
    match e {
        ServiceError::InvalidRequest(_) => "invalid compile request"@,
        ServiceError::CompilationFailed(_) => "compilation failed"@,
        ServiceError::ArtifactIo(_) => "the compiled module could not be read"@,
    }
}

impl ServiceError {
    /// The message that the failure carries.
    pub open spec fn cause(&self) -> Seq<char> {
        match self {
            ServiceError::InvalidRequest(m) => m@,
            ServiceError::CompilationFailed(m) => m@,
            ServiceError::ArtifactIo(m) => m@,
        }
    }

    /// The text sent to the client: the failure's own message, or a
    /// description of its kind when that message is empty.
    pub open spec fn description(&self) -> Seq<char> {
        if self.cause().len() > 0 {
            self.cause()
        } else {
            fallback_message(*self)
        }
    }

    /// The status of the reply: a client error for a request that could not
    /// be decoded, a server error otherwise.
    pub open spec fn status_spec(&self) -> u16 {
        match self {
            ServiceError::InvalidRequest(_) => STATUS_BAD_REQUEST,
            _ => STATUS_INTERNAL_ERROR,
        }
    }

    pub fn status(&self) -> (r: u16)
        ensures
            r == self.status_spec(),
    {
        match self {
            ServiceError::InvalidRequest(_) => STATUS_BAD_REQUEST,
            _ => STATUS_INTERNAL_ERROR,
        }
    }

    pub fn message(&self) -> (r: String)
        ensures
            r@ == self.description(),
            r@.len() > 0,
    {
        let (m, fallback) = match self {
            ServiceError::InvalidRequest(m) => (m, "invalid compile request"),
            ServiceError::CompilationFailed(m) => (m, "compilation failed"),
            ServiceError::ArtifactIo(m) => (m, "the compiled module could not be read"),
        };
        proof {
            reveal_strlit("invalid compile request");
            reveal_strlit("compilation failed");
            reveal_strlit("the compiled module could not be read");
        }
        if m.as_str().is_empty() {
            String::from_str(fallback)
        } else {
            m.clone()
        }
    }

    /// The reply for this failure: its status, and its description as a
    /// plain-text body.
    pub fn into_response(self) -> (r: Reply)
        ensures
            r.status == self.status_spec(),
            !r.is_success(),
            r.content_type == ContentType::PlainText,
            r.text_body() == Some(self.description()),
            self.description().len() > 0,
    {
        let status = self.status();
        let body = self.message();
        Reply::text(status, body)
    }
}

} // verus!
