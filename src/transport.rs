//! Requests to the hypervisor and the classification of its replies.
//!
//! A request is a method, an endpoint and a JSON body; the bytes travel over
//! HTTP outside the library. A reply comes back as its status and its body
//! read as JSON, and is turned here into a typed result or an error.
use vstd::prelude::*;
use crate::error::{ErrorView, VelocityAPIError, VelocityError};
use crate::json::{
    field, list_decodes, list_describes, text_field, u32_field, FromJson, Json,
    JsonValue,
};

verus! {

/// The HTTP status of a successful call.
pub const STATUS_OK: u16 = 200;

/// The HTTP status of a request that the hypervisor rejected as malformed.
pub const STATUS_BAD_REQUEST: u16 = 400;

/// The HTTP methods that the hypervisor's endpoints use.
#[derive(Debug, Clone, Copy, PartialEq, Eq, Structural)]
pub enum Method {
    Get,
    Post,
    Put,
    Patch,
    Delete,
}

/// A request to an endpoint, with its JSON body.
#[derive(Debug)]
pub struct Request {
    /// The method to use for the request
    pub method: Method,
    /// The endpoint to route the request to: e.g. `/u/auth`
    pub endpoint: String,
    /// The request structure to provide to the API
    pub body: JsonValue,
}

/// What came back for a request: its status, and its body read as JSON, or
/// why the body could not be read.
#[derive(Debug)]
pub struct HttpReply {
    pub status: u16,
    pub body: Result<JsonValue, String>,
}

/// A JSON response, containing a status code and a response structure
#[derive(Debug)]
pub struct JSONResponse<T> {
    /// The status the method exited with
    pub status: u16,
    /// The response structure provided by the API
    pub response: T,
}

/// The message of a reply whose body does not have the expected form.
pub open spec fn malformed_reply() -> Seq<char> {
    "the reply body does not have the expected form"@
}

/// The content of a reply's body.
pub open spec fn body_view(b: Result<JsonValue, String>) -> Result<Json, Seq<char>> {
    match b {
        Ok(j) => Ok(j@),
        Err(m) => Err(m@),
    }
}

/// Whether `q` is the request `method endpoint` with the body `body`.
pub open spec fn request_is(q: Request, method: Method, endpoint: Seq<char>, body: Json) -> bool {
    &&& q.method == method
    &&& q.endpoint@ == endpoint
    &&& q.body@ == body
}

/// The error that a reply with a status other than 200 stands for.
///
/// A 400 carries `{reason}`, which becomes an API error with code 400; any
/// other status carries `{code, message}`. A body that cannot be read, or that
/// has neither form, is a transport error.
pub open spec fn failure_of(status: u16, body: Result<Json, Seq<char>>) -> ErrorView {
    match body {
        Err(m) => ErrorView::Transport(m),
        Ok(j) => if status == STATUS_BAD_REQUEST {
            match text_field(j, "reason"@) {
                Some(reason) => ErrorView::Api { code: 400, message: reason },
                None => ErrorView::Transport(malformed_reply()),
            }
        } else {
            match (u32_field(j, "code"@), text_field(j, "message"@)) {
                (Some(code), Some(message)) => ErrorView::Api { code, message },
                _ => ErrorView::Transport(malformed_reply()),
            }
        },
    }
}

/// The outcome of a reply that should carry a value read by `decodes` and
/// `describes`: the error of a failed status, of an unreadable body or of a
/// body of another form, or else the value that the body describes.
pub open spec fn reply_spec<X>(
    status: u16,
    body: Result<Json, Seq<char>>,
    r: Result<X, VelocityError>,
    decodes: spec_fn(Json) -> bool,
    describes: spec_fn(Json, X) -> bool,
) -> bool {
    if status != STATUS_OK {
        r matches Err(e) && e@ == failure_of(status, body)
    } else {
        match body {
            Err(m) => r matches Err(e) && e@ == ErrorView::Transport(m),
            Ok(j) => if decodes(j) {
                r matches Ok(x) && describes(j, x)
            } else {
                r matches Err(e) && e@ == ErrorView::Transport(malformed_reply())
            },
        }
    }
}

/// The outcome of a reply whose body should describe a `T`.
pub open spec fn decoded_reply<T: FromJson>(
    status: u16,
    body: Result<Json, Seq<char>>,
    r: Result<T, VelocityError>,
) -> bool {
    reply_spec(status, body, r, |j: Json| T::json_decodes(j), |j: Json, x: T| T::json_describes(j, x))
}

/// The outcome of a reply whose body should hold a list of `T` under `key`.
pub open spec fn list_reply<T: FromJson>(
    status: u16,
    body: Result<Json, Seq<char>>,
    key: Seq<char>,
    r: Result<Vec<T>, VelocityError>,
) -> bool {
    reply_spec(
        status,
        body,
        r,
        |j: Json| field(j, key) matches Some(l) && list_decodes::<T>(l),
        |j: Json, v: Vec<T>| list_describes::<T>(field(j, key)->0, v@),
    )
}

/// The error of a reply whose body does not have the expected form.
pub fn malformed() -> (e: VelocityError)
    ensures
        e@ == ErrorView::Transport(malformed_reply()),
{
    VelocityError::Transport("the reply body does not have the expected form".to_owned())
}

/// The error that a reply with a status other than 200 stands for.
fn failure(reply: HttpReply) -> (e: VelocityError)
    requires
        reply.status != STATUS_OK,
    ensures
        e@ == failure_of(reply.status, body_view(reply.body)),
{
    match reply.body {
        Err(m) => VelocityError::Transport(m),
        Ok(j) => if reply.status == STATUS_BAD_REQUEST {
            match j.text_member("reason") {
                Some(reason) => VelocityError::APIError(VelocityAPIError { code: 400, message: reason }),
                None => malformed(),
            }
        } else {
            match (j.u32_member("code"), j.text_member("message")) {
                (Some(code), Some(message)) => VelocityError::APIError(
                    VelocityAPIError { code, message },
                ),
                _ => malformed(),
            }
        },
    }
}

/// Classifies a reply that carries no payload of interest: a 200 gives its
/// status, any other status its error.
pub fn reply_status(reply: HttpReply) -> (r: Result<u16, VelocityError>)
    ensures
        reply.status == STATUS_OK ==> r == Ok::<u16, VelocityError>(STATUS_OK),
        reply.status != STATUS_OK ==> (r matches Err(e) && e@ == failure_of(
            reply.status,
            body_view(reply.body),
        )),
{
    if reply.status == STATUS_OK {
        Ok(STATUS_OK)
    } else {
        Err(failure(reply))
    }
}

/// Classifies the reply to an operation that returns nothing: a 200 is
/// success, any other status its error.
pub fn reply_done(reply: HttpReply) -> (r: Result<(), VelocityError>)
    ensures
        reply.status == STATUS_OK ==> r is Ok,
        reply.status != STATUS_OK ==> (r matches Err(e) && e@ == failure_of(
            reply.status,
            body_view(reply.body),
        )),
{
    match reply_status(reply) {
        Ok(_) => Ok(()),
        Err(e) => Err(e),
    }
}

/// The JSON body of a successful reply, or the error that the reply stands for.
pub fn reply_body(reply: HttpReply) -> (r: Result<JsonValue, VelocityError>)
    ensures
        reply_spec(
            reply.status,
            body_view(reply.body),
            r,
            |j: Json| true,
            |j: Json, v: JsonValue| v@ == j,
        ),
{
    if reply.status == STATUS_OK {
        match reply.body {
            Ok(j) => Ok(j),
            Err(m) => Err(VelocityError::Transport(m)),
        }
    } else {
        Err(failure(reply))
    }
}

/// Classifies a reply whose body should describe a `T`.
pub fn reply_json<T: FromJson>(reply: HttpReply) -> (r: Result<JSONResponse<T>, VelocityError>)
    ensures
        decoded_reply::<T>(
            reply.status,
            body_view(reply.body),
            match r {
                Ok(x) => Ok(x.response),
                Err(e) => Err(e),
            },
        ),
        r matches Ok(x) ==> x.status == STATUS_OK,
{
    match reply_body(reply) {
        Ok(j) => match T::from_json(&j) {
            Some(response) => Ok(JSONResponse { status: STATUS_OK, response }),
            None => Err(malformed()),
        },
        Err(e) => Err(e),
    }
}

/// Classifies a reply whose body should describe a `T`, and gives the `T`.
pub fn reply_value<T: FromJson>(reply: HttpReply) -> (r: Result<T, VelocityError>)
    ensures
        decoded_reply::<T>(reply.status, body_view(reply.body), r),
{
    match reply_json::<T>(reply) {
        Ok(x) => Ok(x.response),
        Err(e) => Err(e),
    }
}

/// Classifies a reply whose body should hold a list of `T` under `key`.
pub fn reply_list<T: FromJson>(reply: HttpReply, key: &str) -> (r: Result<Vec<T>, VelocityError>)
    ensures
        list_reply::<T>(reply.status, body_view(reply.body), key@, r),
{
    match reply_body(reply) {
        Ok(j) => match j.list_member::<T>(key) {
            Some(v) => Ok(v),
            None => Err(malformed()),
        },
        Err(e) => Err(e),
    }
}

} // verus!
