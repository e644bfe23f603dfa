//! The decision core of the REST gateway: which HTTP status and which
//! error payload each kind of failed request gets. The HTTP plumbing that
//! classifies a rejection and writes the reply lives outside the library;
//! it hands the classification in as plain data.

use vstd::prelude::*;
use crate::status::{Code, Status};

verus! {

/// JSON body of a create request.
#[derive(Debug, Clone)]
pub struct CreateTodo {
    pub title: String,
    pub body: String,
}

/// JSON body of an update request.
#[derive(Debug, Clone)]
pub struct UpdateTodo {
    pub title: String,
    pub body: String,
    pub is_completed: bool,
}

/// JSON payload of an error reply.
#[derive(Debug)]
pub struct ErrorResponse {
    pub status: String,
    pub message: String,
}

/// The mathematical shape of an [`ErrorResponse`].
pub struct ErrorResponseView {
    pub status: Seq<char>,
    pub message: Seq<char>,
}

impl View for ErrorResponse {
    type V = ErrorResponseView;

    open spec fn view(&self) -> ErrorResponseView {
        ErrorResponseView { status: self.status@, message: self.message@ }
    }
}

/// What a failed request classified as, before a reply is chosen.
#[derive(Debug)]
pub enum RejectionKind {
    /// No route matched the request path.
    RouteNotFound,
    /// The request body did not deserialize.
    InvalidBody,
    /// The backend call failed with this status.
    Rpc(Status),
    /// The route exists but not for this method.
    MethodNotAllowed,
    /// Anything else.
    Unhandled,
}

/// The HTTP status code each outward status code maps to.
pub open spec fn http_of_code(c: Code) -> u16 {
    match c {
        Code::Okay => 200,
        Code::InvalidArgument => 422,
        Code::NotFound => 404,
        Code::AlreadyExists => 409,
        Code::PermissionDenied => 403,
        Code::Unauthenticated => 401,
        _ => 500,
    }
}

/// Maps an outward status code to its HTTP status code; everything the
/// gateway does not single out is an internal server error.
pub fn map_status_code(c: Code) -> (r: u16)
    ensures
        r == http_of_code(c),
{
    match c {
        Code::Okay => 200,
        Code::InvalidArgument => 422,
        Code::NotFound => 404,
        Code::AlreadyExists => 409,
        Code::PermissionDenied => 403,
        Code::Unauthenticated => 401,
        _ => 500,
    }
}

/// The HTTP status code of a rejection's reply.
pub open spec fn rejection_code(k: RejectionKind) -> u16 {
    match k {
        RejectionKind::RouteNotFound => 404,
        RejectionKind::InvalidBody => 400,
        RejectionKind::Rpc(st) => http_of_code(st.code),
        RejectionKind::MethodNotAllowed => 405,
        RejectionKind::Unhandled => 500,
    }
}

/// The short status text of a rejection's reply.
pub open spec fn rejection_status_text(k: RejectionKind) -> Seq<char> {
    match k {
        RejectionKind::RouteNotFound => "not found"@,
        RejectionKind::InvalidBody => "invalid body"@,
        RejectionKind::Rpc(st) => "rpc error"@,
        RejectionKind::MethodNotAllowed => "method not allowed"@,
        RejectionKind::Unhandled => "internal server error"@,
    }
}

/// The message of a rejection's reply: for a backend failure the
/// status's own message, otherwise the status text again.
pub open spec fn rejection_message(k: RejectionKind) -> Seq<char> {
    match k {
        RejectionKind::Rpc(st) => st.message@,
        _ => rejection_status_text(k),
    }
}

/// Chooses the reply for a failed request: the HTTP status code and the
/// error payload.
pub fn handle_rejection(k: RejectionKind) -> (r: (u16, ErrorResponse))
    ensures
        r.0 == rejection_code(k),
        r.1@.status == rejection_status_text(k),
        r.1@.message == rejection_message(k),
{
    match k {
        RejectionKind::RouteNotFound => (
            404,
            ErrorResponse { status: "not found".to_owned(), message: "not found".to_owned() },
        ),
        RejectionKind::InvalidBody => (
            400,
            ErrorResponse { status: "invalid body".to_owned(), message: "invalid body".to_owned() },
        ),
        RejectionKind::Rpc(st) => (
            map_status_code(st.code),
            ErrorResponse { status: "rpc error".to_owned(), message: st.message },
        ),
        RejectionKind::MethodNotAllowed => (
            405,
            ErrorResponse {
                status: "method not allowed".to_owned(),
                message: "method not allowed".to_owned(),
            },
        ),
        RejectionKind::Unhandled => (
            500,
            ErrorResponse {
                status: "internal server error".to_owned(),
                message: "internal server error".to_owned(),
            },
        ),
    }
}

} // verus!
