use vstd::prelude::*;

verus! {

pub const STATUS_OK: u16 = 200;

pub const STATUS_BAD_REQUEST: u16 = 400;

pub const STATUS_NOT_FOUND: u16 = 404;

pub const STATUS_METHOD_NOT_ALLOWED: u16 = 405;

/// Content type of the page and of the echoed fragment.
pub const HTML_CONTENT_TYPE: &'static str = "text/html; charset=utf-8";

/// An HTTP response as the handlers produce it. An empty `content_type`
/// means that the response carries no content type header.
pub struct Response {
    pub status: u16,
    pub content_type: String,
    pub body: String,
}

/// The mathematical value of a response.
pub struct ResponseModel {
    pub status: u16,
    pub content_type: Seq<char>,
    pub body: Seq<char>,
}

impl View for Response {
    type V = ResponseModel;

    open spec fn view(&self) -> ResponseModel {
        ResponseModel {
            status: self.status,
            content_type: self.content_type@,
            body: self.body@,
        }
    }
}

/// A successful HTML response carrying `body`.
pub open spec fn html_ok(body: Seq<char>) -> ResponseModel {
    ResponseModel { status: STATUS_OK, content_type: HTML_CONTENT_TYPE@, body }
}

/// A response with `status`, no content type and an empty body.
pub open spec fn bare(status: u16) -> ResponseModel {
    ResponseModel { status, content_type: Seq::empty(), body: Seq::empty() }
}

impl Response {
    pub fn html_ok(body: String) -> (r: Response)
        ensures
            r@ == html_ok(body@),
    {
        Response { status: STATUS_OK, content_type: String::from_str(HTML_CONTENT_TYPE), body }
    }

    pub fn bare(status: u16) -> (r: Response)
        ensures
            r@ == bare(status),
    {
        Response { status, content_type: String::new(), body: String::new() }
    }
}

} // verus!
