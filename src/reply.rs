//! HTTP responses as plain values, with their mathematical model.
use vstd::prelude::*;

verus! {

pub const STATUS_OK: u16 = 200;

pub const STATUS_FOUND: u16 = 302;

pub const STATUS_BAD_REQUEST: u16 = 400;

pub const STATUS_NOT_FOUND: u16 = 404;

pub const STATUS_INTERNAL_ERROR: u16 = 500;

pub const STATUS_BAD_GATEWAY: u16 = 502;

pub const STATUS_GATEWAY_TIMEOUT: u16 = 504;

/// A response: a status code, with a body or a redirect target.
#[derive(Clone, Debug, PartialEq, Eq)]
pub enum Reply {
    /// `200`, with a body of the given media type.
    Content { content_type: String, body: Vec<u8> },
    /// A status with a plain-text explanation.
    Text { status: u16, text: String },
    /// A status with an empty body.
    Empty { status: u16 },
    /// `302`, pointing at `location`.
    Redirect { location: String },
}

/// What a response is: `Reply` with its strings and bytes as sequences.
pub enum ReplyModel {
    Content { content_type: Seq<char>, body: Seq<u8> },
    Text { status: u16, text: Seq<char> },
    Empty { status: u16 },
    Redirect { location: Seq<char> },
}

impl ReplyModel {
    /// The status code that the response carries.
    pub open spec fn status(self) -> u16 {
        match self {
            ReplyModel::Content { .. } => STATUS_OK,
            ReplyModel::Text { status, .. } => status,
            ReplyModel::Empty { status } => status,
            ReplyModel::Redirect { .. } => STATUS_FOUND,
        }
    }

    /// The bytes of the body, for a response whose body is given as bytes.
    pub open spec fn body(self) -> Seq<u8> {
        match self {
            ReplyModel::Content { body, .. } => body,
            _ => Seq::empty(),
        }
    }
}

impl View for Reply {
    type V = ReplyModel;

    open spec fn view(&self) -> ReplyModel {
        match self {
            Reply::Content { content_type, body } => ReplyModel::Content {
                content_type: content_type@,
                body: body@,
            },
            Reply::Text { status, text } => ReplyModel::Text { status: *status, text: text@ },
            Reply::Empty { status } => ReplyModel::Empty { status: *status },
            Reply::Redirect { location } => ReplyModel::Redirect { location: location@ },
        }
    }
}

impl Reply {
    /// The status code of the response.
    pub fn status_code(&self) -> (r: u16)
        ensures
            r == self@.status(),
    {
        match self {
            Reply::Content { .. } => STATUS_OK,
            Reply::Text { status, .. } => *status,
            Reply::Empty { status } => *status,
            Reply::Redirect { .. } => STATUS_FOUND,
        }
    }
}

} // verus!
