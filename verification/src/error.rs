//! The gateway's error type and the HTTP reply that each error becomes.

use vstd::prelude::*;
use crate::text::{decimal_int, decimal_text, json_quote, json_string};

verus! {

/// The status codes of gRPC, in the order of their numbers (0 to 16).
#[derive(Clone, Copy, Debug, PartialEq, Eq)]
pub enum GrpcCode {
    Okay,
    Cancelled,
    Unknown,
    InvalidArgument,
    DeadlineExceeded,
    NotFound,
    AlreadyExists,
    PermissionDenied,
    ResourceExhausted,
    FailedPrecondition,
    Aborted,
    OutOfRange,
    Unimplemented,
    Internal,
    Unavailable,
    DataLoss,
    Unauthenticated,
}

/// The number that the gRPC protocol gives to a status code.
pub open spec fn spec_code_number(c: GrpcCode) -> int {
    match c {
        GrpcCode::Okay => 0,
        GrpcCode::Cancelled => 1,
        GrpcCode::Unknown => 2,
        GrpcCode::InvalidArgument => 3,
        GrpcCode::DeadlineExceeded => 4,
        GrpcCode::NotFound => 5,
        GrpcCode::AlreadyExists => 6,
        GrpcCode::PermissionDenied => 7,
        GrpcCode::ResourceExhausted => 8,
        GrpcCode::FailedPrecondition => 9,
        GrpcCode::Aborted => 10,
        GrpcCode::OutOfRange => 11,
        GrpcCode::Unimplemented => 12,
        GrpcCode::Internal => 13,
        GrpcCode::Unavailable => 14,
        GrpcCode::DataLoss => 15,
        GrpcCode::Unauthenticated => 16,
    }
}

/// The status code that a wire number stands for: the code of that number
/// where it is one of the 17 known ones, `Unknown` otherwise.
pub open spec fn spec_code_from_number(v: int) -> GrpcCode {
    if v == 0 { GrpcCode::Okay }
    else if v == 1 { GrpcCode::Cancelled }
    else if v == 3 { GrpcCode::InvalidArgument }
    else if v == 4 { GrpcCode::DeadlineExceeded }
    else if v == 5 { GrpcCode::NotFound }
    else if v == 6 { GrpcCode::AlreadyExists }
    else if v == 7 { GrpcCode::PermissionDenied }
    else if v == 8 { GrpcCode::ResourceExhausted }
    else if v == 9 { GrpcCode::FailedPrecondition }
    else if v == 10 { GrpcCode::Aborted }
    else if v == 11 { GrpcCode::OutOfRange }
    else if v == 12 { GrpcCode::Unimplemented }
    else if v == 13 { GrpcCode::Internal }
    else if v == 14 { GrpcCode::Unavailable }
    else if v == 15 { GrpcCode::DataLoss }
    else if v == 16 { GrpcCode::Unauthenticated }
    else { GrpcCode::Unknown }
}

impl GrpcCode {
    /// The code that a number received on the wire stands for, as tonic's
    /// `Code::from_i32` reads it: unknown numbers become `Unknown`.
    pub fn from_i32(v: i32) -> (c: GrpcCode)
        ensures
            c == spec_code_from_number(v as int),
    {
        match v {
            0 => GrpcCode::Okay,
            1 => GrpcCode::Cancelled,
            3 => GrpcCode::InvalidArgument,
            4 => GrpcCode::DeadlineExceeded,
            5 => GrpcCode::NotFound,
            6 => GrpcCode::AlreadyExists,
            7 => GrpcCode::PermissionDenied,
            8 => GrpcCode::ResourceExhausted,
            9 => GrpcCode::FailedPrecondition,
            10 => GrpcCode::Aborted,
            11 => GrpcCode::OutOfRange,
            12 => GrpcCode::Unimplemented,
            13 => GrpcCode::Internal,
            14 => GrpcCode::Unavailable,
            15 => GrpcCode::DataLoss,
            16 => GrpcCode::Unauthenticated,
            _ => GrpcCode::Unknown,
        }
    }

    /// The number of this code on the wire.
    pub fn number(&self) -> (n: i32)
        ensures
            n == spec_code_number(*self),
    {
        match self {
            GrpcCode::Okay => 0,
            GrpcCode::Cancelled => 1,
            GrpcCode::Unknown => 2,
            GrpcCode::InvalidArgument => 3,
            GrpcCode::DeadlineExceeded => 4,
            GrpcCode::NotFound => 5,
            GrpcCode::AlreadyExists => 6,
            GrpcCode::PermissionDenied => 7,
            GrpcCode::ResourceExhausted => 8,
            GrpcCode::FailedPrecondition => 9,
            GrpcCode::Aborted => 10,
            GrpcCode::OutOfRange => 11,
            GrpcCode::Unimplemented => 12,
            GrpcCode::Internal => 13,
            GrpcCode::Unavailable => 14,
            GrpcCode::DataLoss => 15,
            GrpcCode::Unauthenticated => 16,
        }
    }
}

/// Every status code survives a trip through its number: reading back the
/// number of a code gives the code.
pub proof fn lemma_code_number_round_trip(c: GrpcCode)
    ensures
        spec_code_from_number(spec_code_number(c)) == c,
        0 <= spec_code_number(c) <= 16,
{
}

/// The numbers that the gRPC protocol assigns to its status codes, read in
/// both directions: each code has its protocol number, each number from 0
/// to 16 reads as the code of that number, and every other number reads as
/// `Unknown`.
pub proof fn lemma_code_wire_numbers(v: int)
    ensures
        spec_code_number(GrpcCode::Okay) == 0,
        spec_code_number(GrpcCode::Cancelled) == 1,
        spec_code_number(GrpcCode::Unknown) == 2,
        spec_code_number(GrpcCode::InvalidArgument) == 3,
        spec_code_number(GrpcCode::DeadlineExceeded) == 4,
        spec_code_number(GrpcCode::NotFound) == 5,
        spec_code_number(GrpcCode::AlreadyExists) == 6,
        spec_code_number(GrpcCode::PermissionDenied) == 7,
        spec_code_number(GrpcCode::ResourceExhausted) == 8,
        spec_code_number(GrpcCode::FailedPrecondition) == 9,
        spec_code_number(GrpcCode::Aborted) == 10,
        spec_code_number(GrpcCode::OutOfRange) == 11,
        spec_code_number(GrpcCode::Unimplemented) == 12,
        spec_code_number(GrpcCode::Internal) == 13,
        spec_code_number(GrpcCode::Unavailable) == 14,
        spec_code_number(GrpcCode::DataLoss) == 15,
        spec_code_number(GrpcCode::Unauthenticated) == 16,
        spec_code_from_number(0) == GrpcCode::Okay,
        spec_code_from_number(1) == GrpcCode::Cancelled,
        spec_code_from_number(2) == GrpcCode::Unknown,
        spec_code_from_number(3) == GrpcCode::InvalidArgument,
        spec_code_from_number(4) == GrpcCode::DeadlineExceeded,
        spec_code_from_number(5) == GrpcCode::NotFound,
        spec_code_from_number(6) == GrpcCode::AlreadyExists,
        spec_code_from_number(7) == GrpcCode::PermissionDenied,
        spec_code_from_number(8) == GrpcCode::ResourceExhausted,
        spec_code_from_number(9) == GrpcCode::FailedPrecondition,
        spec_code_from_number(10) == GrpcCode::Aborted,
        spec_code_from_number(11) == GrpcCode::OutOfRange,
        spec_code_from_number(12) == GrpcCode::Unimplemented,
        spec_code_from_number(13) == GrpcCode::Internal,
        spec_code_from_number(14) == GrpcCode::Unavailable,
        spec_code_from_number(15) == GrpcCode::DataLoss,
        spec_code_from_number(16) == GrpcCode::Unauthenticated,
        (v < 0 || v > 16) ==> spec_code_from_number(v) == GrpcCode::Unknown,
{
}

/// What the gateway keeps of a failed gRPC call: its code and its message.
#[derive(Clone, Debug, PartialEq, Eq)]
pub struct GrpcStatus {
    pub code: GrpcCode,
    pub message: String,
}

/// The errors of the gateway.
#[derive(Clone, Debug, PartialEq, Eq)]
pub enum AppError {
    /// A gRPC call answered with a non-OK status.
    Grpc(GrpcStatus),
    /// The connection to an upstream service failed; the text of the
    /// transport error.
    GrpcTransport(String),
    /// A body could not be (de)serialised; the text of the error.
    Serialization(String),
    /// Any other failure, with its message.
    Internal(String),
}

/// What an HTTP reply's body is.
#[derive(Clone, Copy, Debug, PartialEq, Eq)]
pub enum BodyKind {
    /// Plain UTF-8 text.
    Text,
    /// A JSON document.
    Json,
}

/// An HTTP reply: a status code, the kind of its body, and the body.
#[derive(Clone, Debug, PartialEq, Eq)]
pub struct HttpReply {
    pub status: u16,
    pub kind: BodyKind,
    pub body: String,
}

pub const STATUS_OK: u16 = 200;
pub const STATUS_BAD_REQUEST: u16 = 400;
pub const STATUS_UNAUTHORIZED: u16 = 401;
pub const STATUS_FORBIDDEN: u16 = 403;
pub const STATUS_NOT_FOUND: u16 = 404;
pub const STATUS_CONFLICT: u16 = 409;
pub const STATUS_INTERNAL_SERVER_ERROR: u16 = 500;
pub const STATUS_BAD_GATEWAY: u16 = 502;
pub const STATUS_SERVICE_UNAVAILABLE: u16 = 503;
pub const STATUS_GATEWAY_TIMEOUT: u16 = 504;

/// The HTTP status that answers a gRPC status code.
pub open spec fn spec_http_status_of_code(c: GrpcCode) -> u16 {
    match c {
        GrpcCode::NotFound => STATUS_NOT_FOUND,
        GrpcCode::InvalidArgument => STATUS_BAD_REQUEST,
        GrpcCode::Unauthenticated => STATUS_UNAUTHORIZED,
        GrpcCode::PermissionDenied => STATUS_FORBIDDEN,
        GrpcCode::AlreadyExists => STATUS_CONFLICT,
        GrpcCode::Unavailable => STATUS_SERVICE_UNAVAILABLE,
        GrpcCode::DeadlineExceeded => STATUS_GATEWAY_TIMEOUT,
        _ => STATUS_INTERNAL_SERVER_ERROR,
    }
}

/// The HTTP status that answers a gRPC status code.
pub fn http_status_of_code(c: GrpcCode) -> (s: u16)
    ensures
        s == spec_http_status_of_code(c),
{
    match c {
        GrpcCode::NotFound => STATUS_NOT_FOUND,
        GrpcCode::InvalidArgument => STATUS_BAD_REQUEST,
        GrpcCode::Unauthenticated => STATUS_UNAUTHORIZED,
        GrpcCode::PermissionDenied => STATUS_FORBIDDEN,
        GrpcCode::AlreadyExists => STATUS_CONFLICT,
        GrpcCode::Unavailable => STATUS_SERVICE_UNAVAILABLE,
        GrpcCode::DeadlineExceeded => STATUS_GATEWAY_TIMEOUT,
        _ => STATUS_INTERNAL_SERVER_ERROR,
    }
}

/// The JSON body of an error reply: an object whose `code` is the HTTP
/// status and whose `error` is the message, keys in sorted order.
pub open spec fn spec_error_body(status: u16, message: Seq<char>) -> Seq<char> {
    "{\"code\":"@ + decimal_int(status as int) + ",\"error\":"@ + json_quote(message) + "}"@
}

impl AppError {
    /// The HTTP status that answers this error.
    pub open spec fn spec_status(&self) -> u16 {
        match self {
            AppError::Grpc(s) => spec_http_status_of_code(s.code),
            AppError::GrpcTransport(_) => STATUS_BAD_GATEWAY,
            AppError::Serialization(_) => STATUS_BAD_REQUEST,
            AppError::Internal(_) => STATUS_INTERNAL_SERVER_ERROR,
        }
    }

    /// The message that the reply to this error carries.
    pub open spec fn spec_message(&self) -> Seq<char> {
        match self {
            AppError::Grpc(s) => s.message@,
            AppError::GrpcTransport(_) => "upstream service unavailable"@,
            AppError::Serialization(_) => "request body serialization failed"@,
            AppError::Internal(m) => m@,
        }
    }

    /// The HTTP status that answers this error.
    pub fn status(&self) -> (s: u16)
        ensures
            s == self.spec_status(),
    {
        match self {
            AppError::Grpc(st) => http_status_of_code(st.code),
            AppError::GrpcTransport(_) => STATUS_BAD_GATEWAY,
            AppError::Serialization(_) => STATUS_BAD_REQUEST,
            AppError::Internal(_) => STATUS_INTERNAL_SERVER_ERROR,
        }
    }

    /// The message that the reply to this error carries: the gRPC message
    /// or the internal message as they are, a fixed text for the others.
    pub fn message(&self) -> (m: String)
        ensures
            m@ == self.spec_message(),
    {
        match self {
            AppError::Grpc(st) => st.message.clone(),
            AppError::GrpcTransport(_) => String::from_str("upstream service unavailable"),
            AppError::Serialization(_) => String::from_str("request body serialization failed"),
            AppError::Internal(m) => m.clone(),
        }
    }

    /// The reply that this error becomes: its status, and a JSON object
    /// holding that same status as `code` and the message as `error`.
    pub fn into_response(self) -> (r: HttpReply)
        ensures
            r.status == self.spec_status(),
            r.kind == BodyKind::Json,
            r.body@ == spec_error_body(self.spec_status(), self.spec_message()),
    {
        let status = self.status();
        let message = self.message();
        HttpReply { status, kind: BodyKind::Json, body: error_body(status, message.as_str()) }
    }
}

/// Every error is answered with an error status: a client error (4xx) or a
/// server error (5xx), never a success.
pub proof fn lemma_error_status_is_error(e: AppError)
    ensures
        400 <= e.spec_status() <= 599,
        e.spec_status() != STATUS_OK,
{
}

/// A failed gRPC call is answered with the HTTP status that the gateway's
/// table gives its code: NotFound 404, InvalidArgument 400, Unauthenticated
/// 401, PermissionDenied 403, AlreadyExists 409, Unavailable 503,
/// DeadlineExceeded 504, and 500 for every other code; the same status that
/// `http_status_of_code` gives. Its reply carries the call's own message.
pub proof fn lemma_grpc_error_status(s: GrpcStatus)
    ensures
        AppError::Grpc(s).spec_status() == spec_http_status_of_code(s.code),
        AppError::Grpc(s).spec_message() == s.message@,
        s.code == GrpcCode::NotFound ==> AppError::Grpc(s).spec_status() == 404,
        s.code == GrpcCode::InvalidArgument ==> AppError::Grpc(s).spec_status() == 400,
        s.code == GrpcCode::Unauthenticated ==> AppError::Grpc(s).spec_status() == 401,
        s.code == GrpcCode::PermissionDenied ==> AppError::Grpc(s).spec_status() == 403,
        s.code == GrpcCode::AlreadyExists ==> AppError::Grpc(s).spec_status() == 409,
        s.code == GrpcCode::Unavailable ==> AppError::Grpc(s).spec_status() == 503,
        s.code == GrpcCode::DeadlineExceeded ==> AppError::Grpc(s).spec_status() == 504,
        (s.code != GrpcCode::NotFound && s.code != GrpcCode::InvalidArgument
            && s.code != GrpcCode::Unauthenticated && s.code != GrpcCode::PermissionDenied
            && s.code != GrpcCode::AlreadyExists && s.code != GrpcCode::Unavailable
            && s.code != GrpcCode::DeadlineExceeded) ==> AppError::Grpc(s).spec_status() == 500,
{
}

/// The other errors are answered with fixed statuses: a failed connection
/// with 502, a body that could not be read with 400, anything else with 500
/// and its own message.
pub proof fn lemma_other_error_status(text: String)
    ensures
        AppError::GrpcTransport(text).spec_status() == 502,
        AppError::Serialization(text).spec_status() == 400,
        AppError::Internal(text).spec_status() == 500,
        AppError::Internal(text).spec_message() == text@,
{
}

/// The JSON body of an error reply with the given status and message.
pub fn error_body(status: u16, message: &str) -> (b: String)
    ensures
        b@ == spec_error_body(status, message@),
{
    let mut body = String::from_str("{\"code\":");
    let code = decimal_text(status as i64);
    body.append(code.as_str());
    body.append(",\"error\":");
    let quoted = json_string(message);
    body.append(quoted.as_str());
    body.append("}");
    body
}

} // verus!
