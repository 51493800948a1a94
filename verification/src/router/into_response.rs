//! Conversions into `Response`, and the `Handler` capability that lets any
//! suitable closure serve as a request handler.

use crate::router::header_pair;
use crate::router::Request;
use crate::router::Response;
use crate::router::ResponseModel;
use crate::router::Status;
use std::borrow::Cow;
use vstd::prelude::*;
use vstd::slice::slice_to_vec;
use vstd::string::StrSliceExecFns;
use vstd::utf8::encode_utf8;

verus! {

/// A value that converts into a complete `Response`.
pub trait IntoResponse: Sized {
    /// The response this value converts into.
    spec fn response_spec(self) -> ResponseModel;

    fn into_response(self) -> (r: Response)
        ensures
            r@ == self.response_spec(),
    ;
}

/// Something that answers requests with a convertible response. Implemented
/// for every closure from `Request` to a convertible response; the closure's
/// own contract decides when it may be called and what it may return.
pub trait Handler<Res> where Res: IntoResponse {
    /// When the handler may be asked to handle `request`.
    spec fn handle_pre(&self, request: Request) -> bool;

    /// What the handler may answer for `request`.
    spec fn handle_post(&self, request: Request, response: Res) -> bool;

    fn handle_request(&self, request: Request) -> (r: Res)
        requires
            self.handle_pre(request),
        ensures
            self.handle_post(request, r),
    ;
}

impl<F, Res> Handler<Res> for F where F: Fn(Request) -> Res, Res: IntoResponse {
    open spec fn handle_pre(&self, request: Request) -> bool {
        call_requires(*self, (request,))
    }

    open spec fn handle_post(&self, request: Request, response: Res) -> bool {
        call_ensures(*self, (request,), response)
    }

    fn handle_request(&self, request: Request) -> (r: Res) {
        (*self)(request)
    }
}

impl IntoResponse for Response {
    open spec fn response_spec(self) -> ResponseModel {
        self@
    }

    fn into_response(self) -> (r: Response) {
        self
    }
}

impl IntoResponse for Cow<'static, str> {
    open spec fn response_spec(self) -> ResponseModel {
        ResponseModel {
            status: Status::Okay,
            headers: seq![("Content-Type"@, "text/plain; charset=utf-8"@)],
            body: encode_utf8(self@),
        }
    }

    fn into_response(self) -> (r: Response) {
        let ghost model = self.response_spec();
        let body = match self {
            Cow::Borrowed(b) => b.as_bytes_vec(),
            Cow::Owned(o) => o.as_str().as_bytes_vec(),
        };
        let r = Response {
            status: Status::Okay,
            headers: header_pair("Content-Type", "text/plain; charset=utf-8"),
            body,
        };
        proof {
            assert(r@ =~~= model);
        }
        r
    }
}

impl IntoResponse for Cow<'static, [u8]> {
    open spec fn response_spec(self) -> ResponseModel {
        ResponseModel {
            status: Status::Okay,
            headers: seq![("Content-Type"@, "application/octet-stream"@)],
            body: self@,
        }
    }

    fn into_response(self) -> (r: Response) {
        let ghost model = self.response_spec();
        let body = match self {
            Cow::Borrowed(b) => slice_to_vec(b),
            Cow::Owned(o) => o,
        };
        let r = Response {
            status: Status::Okay,
            headers: header_pair("Content-Type", "application/octet-stream"),
            body,
        };
        proof {
            assert(r@ =~~= model);
        }
        r
    }
}

impl IntoResponse for &'static [u8] {
    open spec fn response_spec(self) -> ResponseModel {
        Cow::<'static, [u8]>::Borrowed(self).response_spec()
    }

    fn into_response(self) -> (r: Response) {
        Cow::<'static, [u8]>::Borrowed(self).into_response()
    }
}

impl<const N: usize> IntoResponse for &'static [u8; N] {
    open spec fn response_spec(self) -> ResponseModel {
        ResponseModel {
            status: Status::Okay,
            headers: seq![("Content-Type"@, "application/octet-stream"@)],
            body: self@,
        }
    }

    fn into_response(self) -> (r: Response) {
        self.as_slice().into_response()
    }
}

impl<const N: usize> IntoResponse for [u8; N] {
    open spec fn response_spec(self) -> ResponseModel {
        ResponseModel {
            status: Status::Okay,
            headers: seq![("Content-Type"@, "application/octet-stream"@)],
            body: self@,
        }
    }

    fn into_response(self) -> (r: Response) {
        slice_to_vec(self.as_slice()).into_response()
    }
}

impl IntoResponse for Vec<u8> {
    open spec fn response_spec(self) -> ResponseModel {
        Cow::<'static, [u8]>::Owned(self).response_spec()
    }

    fn into_response(self) -> (r: Response) {
        Cow::<'static, [u8]>::Owned(self).into_response()
    }
}

impl IntoResponse for &'static str {
    open spec fn response_spec(self) -> ResponseModel {
        Cow::<'static, str>::Borrowed(self).response_spec()
    }

    fn into_response(self) -> (r: Response) {
        Cow::<'static, str>::Borrowed(self).into_response()
    }
}

impl IntoResponse for String {
    open spec fn response_spec(self) -> ResponseModel {
        Cow::<'static, str>::Owned(self).response_spec()
    }

    fn into_response(self) -> (r: Response) {
        Cow::<'static, str>::Owned(self).into_response()
    }
}

} // verus!
