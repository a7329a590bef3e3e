//! Plain descriptions of the HTTP exchanges that the pipeline asks for.
//!
//! The library never talks to the network. It hands out a `Request` for the
//! caller to perform and takes back a `Reply` that says how the exchange went.

use vstd::prelude::*;

verus! {

/// The two request methods in use.
#[derive(Clone, Copy, Debug, PartialEq, Eq, Structural)]
pub enum Method {
    Get,
    Post,
}

/// What a request carries.
#[derive(Clone, Debug, PartialEq, Eq)]
pub enum Body {
    /// Nothing.
    Empty,
    /// A multipart form with one part, `field`, read from the file at `path`.
    FormFile { field: String, path: String },
    /// A JSON object whose members are strings, given as names and values.
    Json { members: Vec<(String, String)> },
}

/// The mathematical value of a `Body`.
pub enum BodyView {
    Empty,
    FormFile { field: Seq<char>, path: Seq<char> },
    Json { members: Seq<(Seq<char>, Seq<char>)> },
}

impl View for Body {
    type V = BodyView;

    open spec fn view(&self) -> BodyView {
        match *self {
            Body::Empty => BodyView::Empty,
            Body::FormFile { field, path } => BodyView::FormFile { field: field@, path: path@ },
            Body::Json { members } => BodyView::Json { members: members.deep_view() },
        }
    }
}

/// One HTTP request, to be performed by the caller.
#[derive(Clone, Debug, PartialEq, Eq)]
pub struct Request {
    pub method: Method,
    pub url: String,
    /// The token of an `Authorization: Bearer` header, if one is to be sent.
    pub bearer: Option<String>,
    pub body: Body,
}

/// The mathematical value of a `Request`.
pub struct RequestView {
    pub method: Method,
    pub url: Seq<char>,
    pub bearer: Option<Seq<char>>,
    pub body: BodyView,
}

impl View for Request {
    type V = RequestView;

    open spec fn view(&self) -> RequestView {
        RequestView {
            method: self.method,
            url: self.url@,
            bearer: self.bearer.deep_view(),
            body: self.body@,
        }
    }
}

/// How an exchange went.
#[derive(Clone, Debug, PartialEq, Eq)]
pub enum Reply {
    /// The request could not be put together: the file to upload could not
    /// be read. `cause` says why.
    Unprepared { cause: String },
    /// No answer: the request could not be sent, or the connection failed.
    Unsent { cause: String },
    /// An answer with this status arrived, but its body could not be read.
    Unread { status: u16, cause: String },
    /// An answer arrived. `status_line` is the status as the transport
    /// prints it, the code followed by its reason phrase.
    Received { status: u16, status_line: String, body: String },
}

/// An owned copy of an optional token.
pub fn owned_token(token: Option<&str>) -> (r: Option<String>)
    ensures
        r.deep_view() == token.deep_view(),
{
    match token {
        Some(t) => Some(t.to_owned()),
        None => None,
    }
}

/// An optional token, borrowed.
pub fn borrowed_token(token: &Option<String>) -> (r: Option<&str>)
    ensures
        r.deep_view() == token.deep_view(),
{
    match token {
        Some(t) => Some(t.as_str()),
        None => None,
    }
}

/// Whether a status code reports success: the codes from 200 to 299.
pub open spec fn is_success(status: u16) -> bool {
    200 <= status <= 299
}

/// Whether a status code reports success.
pub fn status_is_success(status: u16) -> (r: bool)
    ensures
        r == is_success(status),
{
    200 <= status && status <= 299
}

} // verus!
