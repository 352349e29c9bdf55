//! The shape of what the service answers: a status, a cache directive, and
//! the body.

use crate::error::{BridgeError, ErrorKind};
use vstd::prelude::*;

verus! {

/// The name with which the service answers at its root.
pub const SERVICE_NAME: &'static str = "Avail Bridge API";

/// The `Cache-Control` value of an answer that will never change.
pub const CACHE_IMMUTABLE: &'static str = "public, max-age=31536000";

/// The `Cache-Control` value of an answer that may change soon.
pub const CACHE_REVALIDATE: &'static str = "max-age=300, must-revalidate";

/// The status of a successful answer.
pub const STATUS_OK: u16 = 200;

/// How long an answer may be kept.
#[derive(Clone, Copy, Debug, PartialEq, Eq, Structural)]
pub enum CacheDirective {
    /// For good: the answer is final.
    Immutable,
    /// For a short time, and not without asking again after it.
    Revalidate,
}

/// The body of an answer.
#[derive(Clone, Debug, PartialEq, Eq)]
pub enum ResponseBody<T> {
    /// The result itself.
    Data(T),
    /// An object with the one field `error`, which holds this text.
    Error(String),
}

/// An answer of the service.
#[derive(Clone, Debug, PartialEq, Eq)]
pub struct Response<T> {
    pub status: u16,
    pub cache: CacheDirective,
    pub body: ResponseBody<T>,
}

/// The status under which a failure is answered: 400 for a bad request, 404
/// for what was not found, 500 for all else.
pub open spec fn error_status(kind: ErrorKind) -> u16 {
    match kind {
        ErrorKind::BadRequest => 400,
        ErrorKind::NotFound => 404,
        _ => 500,
    }
}

/// The `Cache-Control` value of a directive.
pub open spec fn cache_control_text(cache: CacheDirective) -> Seq<char> {
    match cache {
        CacheDirective::Immutable => CACHE_IMMUTABLE@,
        CacheDirective::Revalidate => CACHE_REVALIDATE@,
    }
}

/// Whether `response` is the answer for `result`: a result is answered with
/// status 200, for good, and itself as the body; a failure with the status
/// of its kind, for a short time, and its text as the body.
pub open spec fn answers<T>(response: Response<T>, result: Result<T, BridgeError>) -> bool {
    match result {
        Ok(data) => {
            &&& response.status == STATUS_OK
            &&& response.cache == CacheDirective::Immutable
            &&& response.body == ResponseBody::Data(data)
        },
        Err(error) => {
            &&& response.status == error_status(error.kind)
            &&& response.cache == CacheDirective::Revalidate
            &&& response.body matches ResponseBody::Error(text) && text@ == error.message@
        },
    }
}

/// The status under which a failure of the given kind is answered.
pub fn status_code(kind: ErrorKind) -> (status: u16)
    ensures
        status == error_status(kind),
{
    match kind {
        ErrorKind::BadRequest => 400,
        ErrorKind::NotFound => 404,
        _ => 500,
    }
}

/// The `Cache-Control` value of a directive.
pub fn cache_control(cache: CacheDirective) -> (value: &'static str)
    ensures
        value@ == cache_control_text(cache),
{
    match cache {
        CacheDirective::Immutable => CACHE_IMMUTABLE,
        CacheDirective::Revalidate => CACHE_REVALIDATE,
    }
}

/// Shapes a result, or the failure to produce it, into the service's answer.
pub fn shape_response<T>(result: Result<T, BridgeError>) -> (response: Response<T>)
    ensures
        answers(response, result),
{
    match result {
        Ok(data) => Response {
            status: STATUS_OK,
            cache: CacheDirective::Immutable,
            body: ResponseBody::Data(data),
        },
        Err(error) => Response {
            status: status_code(error.kind),
            cache: CacheDirective::Revalidate,
            body: ResponseBody::Error(error.message),
        },
    }
}

/// Only a result is answered for good, and only with status 200: every
/// failure is answered with a status of 400 or above, for a short time.
pub proof fn lemma_failures_are_short_lived<T>(
    response: Response<T>,
    result: Result<T, BridgeError>,
)
    requires
        answers(response, result),
    ensures
        result is Ok <==> response.status == STATUS_OK,
        result is Ok <==> response.cache == CacheDirective::Immutable,
        result is Ok <==> response.body is Data,
        result is Err ==> response.status >= 400,
{
}

} // verus!
