//! A toy request dispatcher: plain data types for requests and responses,
//! and a hard-coded two-route handler in `naive`.

pub mod into_response;
pub mod naive;

use vstd::prelude::*;
use vstd::string::StringExecFns;

verus! {

/// An incoming request: a method, a path, and uninterpreted headers and body.
#[derive(Debug, Clone)]
pub struct Request {
    pub method: Method,
    pub path: String,
    pub headers: Vec<(String, String)>,
    pub body: Vec<u8>,
}

/// An outgoing response: a status, response headers, and a body.
#[derive(Debug, Clone)]
pub struct Response {
    pub status: Status,
    pub headers: Vec<(String, String)>,
    pub body: Vec<u8>,
}

/// The request methods the dispatcher distinguishes.
#[non_exhaustive]
#[derive(Debug, Clone, Copy, PartialEq, Eq, Structural)]
pub enum Method {
    Get,
    Post,
    Put,
    Delete,
    Patch,
    Options,
}

/// The response statuses the dispatcher can produce.
#[non_exhaustive]
#[derive(Debug, Clone, Copy, PartialEq, Eq, Structural)]
pub enum Status {
    Okay,
    Created,
    NoContent,
    MovedPermanently,
    BadRequest,
    NotFound,
    InternalServerError,
}

/// The mathematical value of a `Response`: its status, its headers as
/// character sequences, and its body as a byte sequence.
#[verifier::ext_equal]
pub struct ResponseModel {
    pub status: Status,
    pub headers: Seq<(Seq<char>, Seq<char>)>,
    pub body: Seq<u8>,
}

impl View for Response {
    type V = ResponseModel;

    open spec fn view(&self) -> ResponseModel {
        ResponseModel {
            status: self.status,
            headers: self.headers.deep_view(),
            body: self.body@,
        }
    }
}

impl Method {
    /// The method's name, as the dispatcher spells it in messages.
    pub open spec fn name_spec(&self) -> Seq<char> {
        match self {
            Method::Get => "Get"@,
            Method::Post => "Post"@,
            Method::Put => "Put"@,
            Method::Delete => "Delete"@,
            Method::Patch => "Patch"@,
            Method::Options => "Options"@,
        }
    }

    /// The method's name as a string slice.
    pub fn name(&self) -> (r: &'static str)
        ensures
            r@ == self.name_spec(),
    {
        match self {
            Method::Get => "Get",
            Method::Post => "Post",
            Method::Put => "Put",
            Method::Delete => "Delete",
            Method::Patch => "Patch",
            Method::Options => "Options",
        }
    }
}

impl Status {
    /// The numeric status code this status stands for.
    pub open spec fn code_spec(&self) -> u16 {
        match self {
            Status::Okay => 200,
            Status::Created => 201,
            Status::NoContent => 204,
            Status::MovedPermanently => 301,
            Status::BadRequest => 400,
            Status::NotFound => 404,
            Status::InternalServerError => 500,
        }
    }

    /// The numeric status code, e.g. `200` for `Ok`.
    pub fn code(&self) -> (r: u16)
        ensures
            r == self.code_spec(),
    {
        match self {
            Status::Okay => 200,
            Status::Created => 201,
            Status::NoContent => 204,
            Status::MovedPermanently => 301,
            Status::BadRequest => 400,
            Status::NotFound => 404,
            Status::InternalServerError => 500,
        }
    }

    /// The status line text: the code followed by the reason phrase.
    pub open spec fn describe_spec(&self) -> Seq<char> {
        match self {
            Status::Okay => "200 OK"@,
            Status::Created => "201 Created"@,
            Status::NoContent => "204 No Content"@,
            Status::MovedPermanently => "301 Moved Permanently"@,
            Status::BadRequest => "400 Bad Request"@,
            Status::NotFound => "404 Not Found"@,
            Status::InternalServerError => "500 Internal Server Error"@,
        }
    }

    /// The status line text as a string slice, e.g. `"200 OK"`.
    pub fn describe(&self) -> (r: &'static str)
        ensures
            r@ == self.describe_spec(),
    {
        match self {
            Status::Okay => "200 OK",
            Status::Created => "201 Created",
            Status::NoContent => "204 No Content",
            Status::MovedPermanently => "301 Moved Permanently",
            Status::BadRequest => "400 Bad Request",
            Status::NotFound => "404 Not Found",
            Status::InternalServerError => "500 Internal Server Error",
        }
    }
}

/// One response header, as owned strings.
pub(crate) fn header_pair(key: &str, value: &str) -> (r: Vec<(String, String)>)
    ensures
        r@.len() == 1,
        r@[0].0@ == key@,
        r@[0].1@ == value@,
        r.deep_view() =~= seq![(key@, value@)],
{
    let mut r: Vec<(String, String)> = Vec::new();
    r.push((String::from_str(key), String::from_str(value)));
    proof {
        assert(r.deep_view() =~= seq![(key@, value@)]);
    }
    r
}

} // verus!
