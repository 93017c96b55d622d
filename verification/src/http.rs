//! The HTTP exchanges that the adapters plan: the request to send, and
//! the outcome of an operation that needs no request.

use vstd::prelude::*;
use crate::error::{PmError, PmErrorView, PmResult};
use crate::json::{Json, JsonView};
use crate::text::owned;

verus! {

/// The HTTP method of a request.
#[derive(Debug, Clone, Copy, PartialEq, Eq, Structural)]
pub enum HttpMethod {
    Get,
    Post,
    Put,
    Delete,
}

/// A request to send: method, absolute URL, headers in order, and an
/// optional JSON body.
#[derive(Debug)]
pub struct HttpRequest {
    pub method: HttpMethod,
    pub url: String,
    pub headers: Vec<(String, String)>,
    pub body: Option<Json>,
}

/// The mathematical form of an [`HttpRequest`].
pub struct HttpRequestModel {
    pub method: HttpMethod,
    pub url: Seq<char>,
    pub headers: Seq<(Seq<char>, Seq<char>)>,
    pub body: Option<JsonView>,
}

/// The views of a list of headers.
pub open spec fn header_views(h: Seq<(String, String)>) -> Seq<(Seq<char>, Seq<char>)> {
    Seq::new(h.len(), |i: int| (h[i].0@, h[i].1@))
}

impl View for HttpRequest {
    type V = HttpRequestModel;

    open spec fn view(&self) -> HttpRequestModel {
        HttpRequestModel {
            method: self.method,
            url: self.url@,
            headers: header_views(self.headers@),
            body: match self.body {
                Some(b) => Some(b@),
                None => None,
            },
        }
    }
}

/// The next step of an operation: send a request, or finish at once with
/// an answer.
pub enum Plan<T> {
    Send(HttpRequest),
    Finish(PmResult<T>),
}

/// The view of a body as it was read: the document, or the reason it could
/// not be read.
pub open spec fn body_view(b: Result<Json, String>) -> Result<JsonView, Seq<char>> {
    match b {
        Ok(j) => Ok(j@),
        Err(m) => Err(m@),
    }
}

/// The view of the outcome of an exchange.
pub open spec fn outcome_view(r: PmResult<Json>) -> Result<JsonView, PmErrorView> {
    match r {
        Ok(j) => Ok(j@),
        Err(e) => Err(e@),
    }
}

/// Builds a list of headers entry by entry.
pub fn push_header(headers: &mut Vec<(String, String)>, name: &str, value: &str)
    ensures
        header_views(final(headers)@) == header_views(old(headers)@).push((name@, value@)),
{
    let ghost before = header_views(headers@);
    headers.push((owned(name), owned(value)));
    assert(header_views(headers@) =~= before.push((name@, value@)));
}

/// A request with no headers yet.
pub fn new_request(method: HttpMethod, url: String, body: Option<Json>) -> (r: HttpRequest)
    ensures
        r@ == (HttpRequestModel {
            method: method,
            url: url@,
            headers: Seq::empty(),
            body: match body {
                Some(b) => Some(b@),
                None => None,
            },
        }),
{
    let r = HttpRequest { method, url, headers: Vec::new(), body };
    assert(header_views(r.headers@) =~= Seq::<(Seq<char>, Seq<char>)>::empty());
    r
}

/// An error of the given kind with the given text.
pub fn parse_error(message: &str) -> (e: PmError)
    ensures
        e@ == PmErrorView::Parse(message@),
{
    PmError::Parse(owned(message))
}

} // verus!
