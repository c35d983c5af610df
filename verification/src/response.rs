//! What an exchange answers with: a status and a body.

use vstd::prelude::*;
use vstd::string::*;

verus! {

/// The text that identifies the service on its index page.
pub const INDEX: &'static str = "Images Microservice";

/// The status of a response.
#[derive(Clone, Copy, Debug, PartialEq, Eq, Structural)]
pub enum StatusCode {
    /// 200.
    Success,
    /// 404.
    NotFound,
}

impl StatusCode {
    /// The number on the wire.
    pub open spec fn code(self) -> int {
        match self {
            StatusCode::Success => 200,
            StatusCode::NotFound => 404,
        }
    }

    /// The number on the wire.
    pub fn as_u16(self) -> (n: u16)
        ensures
            n == self.code(),
    {
        match self {
            StatusCode::Success => 200,
            StatusCode::NotFound => 404,
        }
    }
}

/// The body of a response.
#[derive(Clone, Debug, PartialEq, Eq)]
pub enum Body {
    /// No bytes at all.
    Empty,
    /// A short text held in memory.
    Text(String),
    /// The bytes of the stored file of this name, to be read from disk and
    /// sent chunk by chunk, in the order in which they are read.
    File(String),
}

/// What a [`Body`] is in contracts.
pub enum BodyView {
    Empty,
    Text(Seq<char>),
    File(Seq<char>),
}

impl View for Body {
    type V = BodyView;

    open spec fn view(&self) -> BodyView {
        match self {
            Body::Empty => BodyView::Empty,
            Body::Text(text) => BodyView::Text(text@),
            Body::File(name) => BodyView::File(name@),
        }
    }
}

/// A complete answer to one request.
#[derive(Clone, Debug, PartialEq, Eq)]
pub struct Response {
    pub status: StatusCode,
    pub body: Body,
}

/// What a [`Response`] is in contracts.
pub struct ResponseView {
    pub status: StatusCode,
    pub body: BodyView,
}

impl View for Response {
    type V = ResponseView;

    open spec fn view(&self) -> ResponseView {
        ResponseView { status: self.status, body: self.body@ }
    }
}

/// The response that carries a status and nothing else.
pub fn response_with_code(status_code: StatusCode) -> (resp: Response)
    ensures
        resp@ == (ResponseView { status: status_code, body: BodyView::Empty }),
{
    Response { status: status_code, body: Body::Empty }
}

/// The index page: the fixed text [`INDEX`], with status 200.
pub fn index_response() -> (resp: Response)
    ensures
        resp@ == (ResponseView { status: StatusCode::Success, body: BodyView::Text(INDEX@) }),
{
    Response { status: StatusCode::Success, body: Body::Text(String::from_str(INDEX)) }
}

} // verus!
