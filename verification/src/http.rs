//! The plain values that cross the boundary between the network and the
//! service: what a request brings and what a response carries.

use vstd::prelude::*;

verus! {

/// The request method. The service routes on `Get` and `Post`; the other
/// methods are told apart so that a trace can name them.
#[derive(Clone, Debug, PartialEq, Eq)]
pub enum Method {
    Get,
    Head,
    Post,
    Put,
    Delete,
    Connect,
    Options,
    Trace,
    Patch,
    /// A method outside the nine above, with its token. `Other` of one of
    /// the nine tokens is not that method: it is a method of its own.
    Other(String),
}

/// What a `Method` holds, as mathematical values.
pub enum MethodView {
    Get,
    Head,
    Post,
    Put,
    Delete,
    Connect,
    Options,
    Trace,
    Patch,
    Other(Seq<char>),
}

impl View for Method {
    type V = MethodView;

    open spec fn view(&self) -> MethodView {
        match self {
            Method::Get => MethodView::Get,
            Method::Head => MethodView::Head,
            Method::Post => MethodView::Post,
            Method::Put => MethodView::Put,
            Method::Delete => MethodView::Delete,
            Method::Connect => MethodView::Connect,
            Method::Options => MethodView::Options,
            Method::Trace => MethodView::Trace,
            Method::Patch => MethodView::Patch,
            Method::Other(token) => MethodView::Other(token@),
        }
    }
}

impl MethodView {
    /// The method's token, as it is written in a trace.
    pub open spec fn name(self) -> Seq<char> {
        match self {
            MethodView::Get => "GET"@,
            MethodView::Head => "HEAD"@,
            MethodView::Post => "POST"@,
            MethodView::Put => "PUT"@,
            MethodView::Delete => "DELETE"@,
            MethodView::Connect => "CONNECT"@,
            MethodView::Options => "OPTIONS"@,
            MethodView::Trace => "TRACE"@,
            MethodView::Patch => "PATCH"@,
            MethodView::Other(token) => token,
        }
    }
}

impl Method {
    /// The method's token.
    pub fn as_str(&self) -> (token: &str)
        ensures
            token@ == self@.name(),
    {
        match self {
            Method::Get => "GET",
            Method::Head => "HEAD",
            Method::Post => "POST",
            Method::Put => "PUT",
            Method::Delete => "DELETE",
            Method::Connect => "CONNECT",
            Method::Options => "OPTIONS",
            Method::Trace => "TRACE",
            Method::Patch => "PATCH",
            Method::Other(token) => token.as_str(),
        }
    }

    /// Whether two methods are the same one: the same of the nine, or
    /// `Other` with the same token.
    pub fn same_as(&self, other: &Method) -> (same: bool)
        ensures
            same == (self@ == other@),
    {
        match self {
            Method::Get => match other {
                Method::Get => true,
                _ => false,
            },
            Method::Head => match other {
                Method::Head => true,
                _ => false,
            },
            Method::Post => match other {
                Method::Post => true,
                _ => false,
            },
            Method::Put => match other {
                Method::Put => true,
                _ => false,
            },
            Method::Delete => match other {
                Method::Delete => true,
                _ => false,
            },
            Method::Connect => match other {
                Method::Connect => true,
                _ => false,
            },
            Method::Options => match other {
                Method::Options => true,
                _ => false,
            },
            Method::Trace => match other {
                Method::Trace => true,
                _ => false,
            },
            Method::Patch => match other {
                Method::Patch => true,
                _ => false,
            },
            Method::Other(token) => match other {
                Method::Other(other_token) => *token == *other_token,
                _ => false,
            },
        }
    }
}

/// The status line of a response, reduced to the codes this service sends.
#[derive(Clone, Copy, Debug, PartialEq, Eq, Structural)]
pub enum StatusCode {
    /// 200 OK
    Success,
    /// 400 Bad Request
    BadRequest,
    /// 404 Not Found
    NotFound,
    /// 500 Internal Server Error
    InternalServerError,
}

impl StatusCode {
    /// The numeric code that goes on the wire.
    pub open spec fn code(self) -> u16 {
        match self {
            StatusCode::Success => 200,
            StatusCode::BadRequest => 400,
            StatusCode::NotFound => 404,
            StatusCode::InternalServerError => 500,
        }
    }

    pub fn as_u16(&self) -> (n: u16)
        ensures
            n == self.code(),
    {
        match self {
            StatusCode::Success => 200,
            StatusCode::BadRequest => 400,
            StatusCode::NotFound => 404,
            StatusCode::InternalServerError => 500,
        }
    }
}

/// The name of the header that carries the correlation identifier.
pub const REQUEST_ID_HEADER: &'static str = "x-request-id";

/// One inbound request, as far as the service reads it.
#[derive(Clone, Debug, PartialEq, Eq)]
pub struct Request {
    pub method: Method,
    /// The request target as it was received; it is only written to the trace.
    pub uri: String,
    /// The path component of the target, without a query.
    pub path: String,
    /// The value of the `content-type` header, where the request has one that
    /// is text.
    pub content_type: Option<String>,
    pub body: Vec<u8>,
}

/// What a `Request` holds, as mathematical values.
pub struct RequestView {
    pub method: MethodView,
    pub uri: Seq<char>,
    pub path: Seq<char>,
    pub content_type: Option<Seq<char>>,
    pub body: Seq<u8>,
}

impl View for Request {
    type V = RequestView;

    open spec fn view(&self) -> RequestView {
        RequestView {
            method: self.method@,
            uri: self.uri@,
            path: self.path@,
            content_type: match self.content_type {
                Some(text) => Some(text@),
                None => None,
            },
            body: self.body@,
        }
    }
}

/// One outbound response.
#[derive(Clone, Debug, PartialEq, Eq)]
pub struct Response {
    pub status: StatusCode,
    /// Header names and values, in the order in which they are sent.
    pub headers: Vec<(String, String)>,
    pub body: Vec<u8>,
}

/// What a `Response` holds, as mathematical values.
pub struct ResponseView {
    pub status: StatusCode,
    pub headers: Seq<(Seq<char>, Seq<char>)>,
    pub body: Seq<u8>,
}

impl View for Response {
    type V = ResponseView;

    open spec fn view(&self) -> ResponseView {
        ResponseView {
            status: self.status,
            headers: self.headers.deep_view(),
            body: self.body@,
        }
    }
}

} // verus!
