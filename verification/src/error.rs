//! The error taxonomy of the backend, shared between the REST layer and the
//! websocket protocol, together with its mappings to HTTP status codes.

use vstd::prelude::*;

verus! {

/// Raised where the password-hashing primitive fails.
#[derive(Clone, Copy, Debug, PartialEq, Eq, Structural)]
pub struct Argon2idError;

/// The error kinds used internally and in communication with clients.
#[derive(Clone, Copy, Debug, PartialEq, Eq, Structural)]
pub enum AzumaError {
    AlreadyExists,
    BadRequest,
    Forbidden,
    InternalServerError,
    NotFound,
    Unauthorized,
}

impl AzumaError {
    /// The HTTP status code each error kind maps to.
    pub open spec fn status_code_spec(self) -> u16 {
        match self {
            AzumaError::AlreadyExists => 409,
            AzumaError::BadRequest => 400,
            AzumaError::Forbidden => 403,
            AzumaError::InternalServerError => 500,
            AzumaError::NotFound => 404,
            AzumaError::Unauthorized => 401,
        }
    }

    /// Map this error to the status code of the REST response carrying it.
    pub fn status_code(&self) -> (c: u16)
        ensures
            c == self.status_code_spec(),
    {
        match self {
            AzumaError::AlreadyExists => 409,
            AzumaError::BadRequest => 400,
            AzumaError::Forbidden => 403,
            AzumaError::InternalServerError => 500,
            AzumaError::NotFound => 404,
            AzumaError::Unauthorized => 401,
        }
    }

    /// The upper-case name of the error kind, as carried in response bodies.
    pub open spec fn message_spec(self) -> Seq<char> {
        match self {
            AzumaError::AlreadyExists => "ALREADY_EXISTS"@,
            AzumaError::BadRequest => "BAD_REQUEST"@,
            AzumaError::Forbidden => "FORBIDDEN"@,
            AzumaError::InternalServerError => "INTERNAL_SERVER_ERROR"@,
            AzumaError::NotFound => "NOT_FOUND"@,
            AzumaError::Unauthorized => "UNAUTHORIZED"@,
        }
    }

    /// Render the error kind for a response body.
    pub fn message(&self) -> (m: String)
        ensures
            m@ == self.message_spec(),
    {
        match self {
            AzumaError::AlreadyExists => String::from_str("ALREADY_EXISTS"),
            AzumaError::BadRequest => String::from_str("BAD_REQUEST"),
            AzumaError::Forbidden => String::from_str("FORBIDDEN"),
            AzumaError::InternalServerError => String::from_str("INTERNAL_SERVER_ERROR"),
            AzumaError::NotFound => String::from_str("NOT_FOUND"),
            AzumaError::Unauthorized => String::from_str("UNAUTHORIZED"),
        }
    }
}

impl From<Argon2idError> for AzumaError {
    fn from(err: Argon2idError) -> (r: AzumaError) {
        AzumaError::InternalServerError
    }
}

impl vstd::std_specs::convert::FromSpecImpl<Argon2idError> for AzumaError {
    open spec fn obeys_from_spec() -> bool {
        true
    }

    open spec fn from_spec(err: Argon2idError) -> AzumaError {
        AzumaError::InternalServerError
    }
}

/// Map a failure reported by the relational store to an error kind: a unique
/// constraint violation is a duplicate resource, a missing row is a missing
/// resource, anything else is internal.
pub fn from_db_error(unique_violation: bool, row_not_found: bool) -> (e: AzumaError)
    ensures
        unique_violation ==> e == AzumaError::AlreadyExists,
        !unique_violation && row_not_found ==> e == AzumaError::NotFound,
        !unique_violation && !row_not_found ==> e == AzumaError::InternalServerError,
{
    if unique_violation {
        AzumaError::AlreadyExists
    } else if row_not_found {
        AzumaError::NotFound
    } else {
        AzumaError::InternalServerError
    }
}

/// Rejection kinds of the REST layer.
#[derive(Clone, Copy, Debug, PartialEq, Eq, Structural)]
pub enum AzumaRejection {
    AlreadyExists,
    InternalServerError,
    NotFound,
    Unauthorized,
    BadRequest,
}

/// Body of a REST rejection response.
pub struct RejectionMessage {
    pub code: i32,
    pub message: String,
}

/// Turn a rejection into the status code and body of the response that
/// reports it. A duplicate resource is a conflict (409), the same mapping
/// [`AzumaError::status_code`] uses.
pub fn handle_rejection(cause: AzumaRejection) -> (r: RejectionMessage)
    ensures
        cause == AzumaRejection::NotFound ==> r.code == 404 && r.message@ == "NOT_FOUND"@,
        cause == AzumaRejection::AlreadyExists ==> r.code == 409 && r.message@
            == "ALREADY_EXISTS"@,
        cause == AzumaRejection::InternalServerError ==> r.code == 500 && r.message@
            == "INTERNAL_SERVER_ERROR"@,
        cause == AzumaRejection::Unauthorized ==> r.code == 401 && r.message@ == "UNAUTHORIZED"@,
        cause == AzumaRejection::BadRequest ==> r.code == 400 && r.message@ == "BAD_REQUEST"@,
{
    match cause {
        AzumaRejection::NotFound => RejectionMessage {
            code: 404,
            message: String::from_str("NOT_FOUND"),
        },
        AzumaRejection::AlreadyExists => RejectionMessage {
            code: 409,
            message: String::from_str("ALREADY_EXISTS"),
        },
        AzumaRejection::InternalServerError => RejectionMessage {
            code: 500,
            message: String::from_str("INTERNAL_SERVER_ERROR"),
        },
        AzumaRejection::Unauthorized => RejectionMessage {
            code: 401,
            message: String::from_str("UNAUTHORIZED"),
        },
        AzumaRejection::BadRequest => RejectionMessage {
            code: 400,
            message: String::from_str("BAD_REQUEST"),
        },
    }
}

} // verus!
