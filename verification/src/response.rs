//! The responses that the handlers produce, as plain values.

use vstd::prelude::*;
use vstd::string::StringExecFns;

verus! {

/// One header line of a response.
#[derive(Clone, Debug, PartialEq, Eq)]
pub struct Header {
    pub name: String,
    pub value: String,
}

/// The mathematical value of a [`Header`].
pub struct HeaderView {
    pub name: Seq<char>,
    pub value: Seq<char>,
}

impl View for Header {
    type V = HeaderView;

    open spec fn view(&self) -> HeaderView {
        HeaderView { name: self.name@, value: self.value@ }
    }
}

/// The header line with the given name and value.
pub open spec fn header_line(name: Seq<char>, value: Seq<char>) -> HeaderView {
    HeaderView { name, value }
}

/// The mathematical values of a list of headers, in order.
pub open spec fn header_views(headers: Seq<Header>) -> Seq<HeaderView> {
    headers.map_values(|h: Header| h@)
}

impl Header {
    /// The header line `name: value`.
    pub fn new(name: &str, value: &str) -> (header: Header)
        ensures
            header@ == header_line(name@, value@),
    {
        Header { name: String::from_str(name), value: String::from_str(value) }
    }
}

/// The body of a response.
#[derive(Clone, Debug, PartialEq, Eq)]
pub enum Body {
    /// No body at all.
    Empty,
    /// A plain-text message.
    Text(String),
    /// A binary payload.
    Bytes(Vec<u8>),
}

/// The mathematical value of a [`Body`].
pub enum BodyView {
    Empty,
    Text(Seq<char>),
    Bytes(Seq<u8>),
}

impl View for Body {
    type V = BodyView;

    open spec fn view(&self) -> BodyView {
        match self {
            Body::Empty => BodyView::Empty,
            Body::Text(text) => BodyView::Text(text@),
            Body::Bytes(bytes) => BodyView::Bytes(bytes@),
        }
    }
}

/// A complete response: status code, the headers that the handler sets, and body.
#[derive(Clone, Debug, PartialEq, Eq)]
pub struct Response {
    pub status: u16,
    pub headers: Vec<Header>,
    pub body: Body,
}

/// The mathematical value of a [`Response`].
pub struct ResponseView {
    pub status: u16,
    pub headers: Seq<HeaderView>,
    pub body: BodyView,
}

impl View for Response {
    type V = ResponseView;

    open spec fn view(&self) -> ResponseView {
        ResponseView {
            status: self.status,
            headers: header_views(self.headers@),
            body: self.body@,
        }
    }
}

/// The status of a successful response.
pub const STATUS_OK: u16 = 200;

/// The response that carries an optimised image: status 200, the header
/// `content-type: image/png`, and the image as a binary body.
pub open spec fn image_response(image: Seq<u8>) -> ResponseView {
    ResponseView {
        status: 200,
        headers: seq![header_line("content-type"@, "image/png"@)],
        body: BodyView::Bytes(image),
    }
}

/// The response that reports a failure: the given status and the message as
/// a plain-text body.
pub open spec fn error_response(status: u16, message: Seq<char>) -> ResponseView {
    ResponseView { status, headers: Seq::empty(), body: BodyView::Text(message) }
}

/// The response with status 200 and a plain-text body.
pub open spec fn text_response(text: Seq<char>) -> ResponseView {
    ResponseView { status: 200, headers: Seq::empty(), body: BodyView::Text(text) }
}

/// The response with status 200, no headers and no body.
pub open spec fn empty_response() -> ResponseView {
    ResponseView { status: 200, headers: Seq::empty(), body: BodyView::Empty }
}

impl Response {
    /// Builds the response that carries an optimised image.
    pub fn image(image: Vec<u8>) -> (response: Response)
        ensures
            response@ == image_response(image@),
    {
        let mut headers: Vec<Header> = Vec::new();
        headers.push(Header::new("content-type", "image/png"));
        let response = Response { status: STATUS_OK, headers, body: Body::Bytes(image) };
        assert(response@.headers =~= seq![header_line("content-type"@, "image/png"@)]);
        response
    }

    /// Builds the response that reports a failure.
    pub fn error(status: u16, message: String) -> (response: Response)
        ensures
            response@ == error_response(status, message@),
    {
        let response = Response { status, headers: Vec::new(), body: Body::Text(message) };
        assert(response@.headers =~= Seq::empty());
        response
    }

    /// Builds a successful plain-text response.
    pub fn text(text: String) -> (response: Response)
        ensures
            response@ == text_response(text@),
    {
        let response = Response { status: STATUS_OK, headers: Vec::new(), body: Body::Text(text) };
        assert(response@.headers =~= Seq::empty());
        response
    }

    /// Builds the successful response without headers or body.
    pub fn empty() -> (response: Response)
        ensures
            response@ == empty_response(),
    {
        let response = Response { status: STATUS_OK, headers: Vec::new(), body: Body::Empty };
        assert(response@.headers =~= Seq::empty());
        response
    }

    /// Adds header lines after those the response already has.
    pub fn with_headers(self, extra: Vec<Header>) -> (response: Response)
        ensures
            response@ == (ResponseView {
                headers: self@.headers + header_views(extra@),
                ..self@
            }),
    {
        let Response { status, mut headers, body } = self;
        let ghost before = headers@;
        let ghost added = extra@;
        let mut extra = extra;
        headers.append(&mut extra);
        let response = Response { status, headers, body };
        assert(response@.headers =~= header_views(before) + header_views(added));
        response
    }
}

} // verus!
