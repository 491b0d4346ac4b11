//! The errors of the client.
use vstd::prelude::*;
use crate::frame::FrameError;
use crate::meta::TypeMetaError;

verus! {

/// A failure of the transport below the client: connecting, sending,
/// or reading a response.
#[derive(Debug, Clone, PartialEq, Eq)]
pub struct ClientError {
    pub message: String,
}

/// A response whose status is not a success and whose body is not a
/// structured status.
#[derive(Debug, Clone, PartialEq, Eq)]
pub struct HttpStatusError {
    pub status: u16,
}

/// A request that needs an attribute that the submitted object lacks.
#[derive(Debug, Clone, PartialEq, Eq)]
pub struct RequiredAttributeError {
    pub attr: &'static str,
}

/// The error for a missing attribute `attr`.
pub fn required_attr(attr: &'static str) -> (r: RequiredAttributeError)
    ensures
        r.attr == attr,
{
    RequiredAttributeError { attr: attr }
}

/// The structured error that the server sends with a failed request.
#[derive(Debug, Clone, PartialEq, Eq)]
pub struct Status {
    pub code: i32,
    pub message: String,
    pub reason: String,
}

/// Why a request URL could not be built.
#[derive(Debug, Clone, Copy, PartialEq, Eq)]
pub enum UrlError {
    /// The server address is not a URL.
    InvalidBase,
    /// The server address has a scheme without path segments.
    NoPathSegments,
    /// The options could not be encoded as a query string.
    Query,
}

/// Where a body that could not be decoded came from.
#[derive(Debug, Clone, Copy, PartialEq, Eq)]
pub enum DecodeStage {
    ResponseBody,
    WatchLine,
}

/// A body, or a line of a watch, that could not be decoded.
#[derive(Debug, Clone, PartialEq, Eq)]
pub struct DecodeError {
    pub stage: DecodeStage,
    pub message: String,
}

/// Every failure of a call.
#[derive(Debug, Clone, PartialEq, Eq)]
pub enum CallError {
    Url(UrlError),
    MissingAttribute(RequiredAttributeError),
    Transport(ClientError),
    HttpStatus(HttpStatusError),
    ApiStatus(Status),
    Decode(DecodeError),
    TypeMismatch(TypeMetaError),
    Frame(FrameError),
}

} // verus!
