//! A hard-coded two-route dispatcher: GET and OPTIONS on `/hello` are
//! answered, any other GET or OPTIONS path is not found, and any other
//! method is a bad request.

use crate::router::header_pair;
use crate::router::Method;
use crate::router::Request;
use crate::router::Response;
use crate::router::ResponseModel;
use crate::router::Status;
use vstd::prelude::*;
use vstd::string::StrSliceExecFns;
use vstd::string::StringExecFns;
use vstd::utf8::encode_utf8;

verus! {

/// The response `handle_request` owes for a request with the given method
/// and path, headers and body playing no part.
pub open spec fn handle_request_spec(method: Method, path: Seq<char>) -> ResponseModel {
    match method {
        Method::Get => {
            if path == "/hello"@ {
                ResponseModel {
                    status: Status::Okay,
                    headers: seq![("Content-Type"@, "text/plain"@)],
                    body: encode_utf8("Hello, world!"@),
                }
            } else {
                not_found_spec(path)
            }
        },
        Method::Options => {
            if path == "/hello"@ {
                ResponseModel {
                    status: Status::Okay,
                    headers: seq![
                        ("Content-Type"@, "text/plain"@),
                        ("Allow"@, "GET, OPTIONS"@),
                    ],
                    body: encode_utf8("GET, OPTIONS"@),
                }
            } else {
                not_found_spec(path)
            }
        },
        _ => ResponseModel {
            status: Status::BadRequest,
            headers: seq![("Content-Type"@, "text/plain"@)],
            body: encode_utf8("Unsupported method "@ + method.name_spec()),
        },
    }
}

/// The not-found response: a plain-text message naming the path.
pub open spec fn not_found_spec(path: Seq<char>) -> ResponseModel {
    ResponseModel {
        status: Status::NotFound,
        headers: seq![("Content-Type"@, "text/plain"@)],
        body: encode_utf8("Path "@ + path + " not found"@),
    }
}

/// Dispatches `req` over its method and path alone.
pub fn handle_request(req: Request) -> (r: Response)
    ensures
        r@ == handle_request_spec(req.method, req.path@),
{
    let hello = String::from_str("/hello");
    let r = match req.method {
        Method::Get => {
            if req.path == hello {
                Response {
                    status: Status::Okay,
                    headers: header_pair("Content-Type", "text/plain"),
                    body: "Hello, world!".as_bytes_vec(),
                }
            } else {
                not_found(req.path)
            }
        },
        Method::Options => {
            if req.path == hello {
                let mut headers = header_pair("Content-Type", "text/plain");
                headers.push((String::from_str("Allow"), String::from_str("GET, OPTIONS")));
                proof {
                    assert(headers.deep_view() =~= seq![
                        ("Content-Type"@, "text/plain"@),
                        ("Allow"@, "GET, OPTIONS"@),
                    ]);
                }
                Response {
                    status: Status::Okay,
                    headers,
                    body: "GET, OPTIONS".as_bytes_vec(),
                }
            } else {
                not_found(req.path)
            }
        },
        _ => {
            let message = String::from_str("Unsupported method ").concat(req.method.name());
            Response {
                status: Status::BadRequest,
                headers: header_pair("Content-Type", "text/plain"),
                body: message.as_str().as_bytes_vec(),
            }
        },
    };
    proof {
        assert(r@ =~~= handle_request_spec(req.method, req.path@));
    }
    r
}

/// The not-found response for `path`.
fn not_found(path: String) -> (r: Response)
    ensures
        r@ == not_found_spec(path@),
{
    let mut message = String::from_str("Path ");
    message.append(path.as_str());
    message.append(" not found");
    let r = Response {
        status: Status::NotFound,
        headers: header_pair("Content-Type", "text/plain"),
        body: message.as_str().as_bytes_vec(),
    };
    proof {
        assert(r@ =~~= not_found_spec(path@));
    }
    r
}

} // verus!
