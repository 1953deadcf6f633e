//! The HTTP exchange data the run record is built from.
//!
//! The engine receives already-completed request, response, timing,
//! certificate and cookie data from the transport collaborator; these types
//! hold that data as plain values.

use vstd::prelude::*;

use crate::datetime::Timestamp;

verus! {

/// One HTTP header, by name and value.
#[derive(Debug)]
pub struct Header {
    pub name: String,
    pub value: String,
}

/// The protocol version of a response.
#[derive(Clone, Copy, PartialEq, Eq, Structural, Debug)]
pub enum HttpVersion {
    Http10,
    Http11,
    Http2,
    Http3,
}

/// One query-string parameter of a request.
#[derive(Debug)]
pub struct Param {
    pub name: String,
    pub value: String,
}

/// One cookie sent with a request.
#[derive(Debug)]
pub struct RequestCookie {
    pub name: String,
    pub value: String,
}

/// One cookie set by a response, with its optional attributes.
#[derive(Debug)]
pub struct ResponseCookie {
    pub name: String,
    pub value: String,
    pub expires: Option<String>,
    pub max_age: Option<i64>,
    pub domain: Option<String>,
    pub path: Option<String>,
    pub secure: bool,
    pub httponly: bool,
    pub samesite: Option<String>,
}

/// The peer certificate of a TLS exchange.
#[derive(Debug)]
pub struct Certificate {
    pub subject: String,
    pub issuer: String,
    pub start_date: Timestamp,
    pub expire_date: Timestamp,
    pub serial_number: String,
}

impl Certificate {
    pub open spec fn wf(&self) -> bool {
        self.start_date.wf() && self.expire_date.wf()
    }
}

/// The timings of one exchange: two points in time and six durations in
/// microseconds.
#[derive(Debug)]
pub struct Timings {
    pub begin_call: Timestamp,
    pub end_call: Timestamp,
    pub name_lookup: u64,
    pub connect: u64,
    pub app_connect: u64,
    pub pre_transfer: u64,
    pub start_transfer: u64,
    pub total: u64,
}

impl Timings {
    pub open spec fn wf(&self) -> bool {
        self.begin_call.wf() && self.end_call.wf()
    }
}

/// One request as sent.
#[derive(Debug)]
pub struct Request {
    pub method: String,
    pub url: String,
    pub headers: Vec<Header>,
    pub cookies: Vec<RequestCookie>,
    pub query_string: Vec<Param>,
}

/// One response as received.
#[derive(Debug)]
pub struct Response {
    pub version: HttpVersion,
    pub status: u64,
    pub headers: Vec<Header>,
    pub cookies: Vec<ResponseCookie>,
    pub certificate: Option<Certificate>,
}

impl Response {
    pub open spec fn wf(&self) -> bool {
        match self.certificate {
            Some(c) => c.wf(),
            None => true,
        }
    }
}

/// One physical HTTP exchange: a request, its response, and the timings.
#[derive(Debug)]
pub struct Call {
    pub request: Request,
    pub response: Response,
    pub timings: Timings,
}

impl Call {
    pub open spec fn wf(&self) -> bool {
        self.response.wf() && self.timings.wf()
    }
}

/// One cookie of the jar at the end of the run.
#[derive(Debug)]
pub struct Cookie {
    pub domain: String,
    pub include_subdomain: String,
    pub path: String,
    pub https: String,
    pub expires: String,
    pub name: String,
    pub value: String,
}

} // verus!
