//! The failures an operation can report, and the HTTP status of each.

use vstd::prelude::*;
use vstd::std_specs::convert::FromSpecImpl;
use vstd::string::StringExecFns;
use crate::utils::json::{json_object_text, write_json_object};

verus! {

/// A failure of an operation, with the message shown to the caller.
#[derive(Debug)]
pub enum CustomError {
    SerializeError(String),
    ValidationError(String),
    InternalError(String),
    UnauthorizedError(String),
    ForbiddenError(String),
    NotFoundError(String),
    ConflictError(String),
}

/// A [`CustomError`] with its message as a sequence of characters.
pub ghost enum CustomErrorView {
    SerializeError(Seq<char>),
    ValidationError(Seq<char>),
    InternalError(Seq<char>),
    UnauthorizedError(Seq<char>),
    ForbiddenError(Seq<char>),
    NotFoundError(Seq<char>),
    ConflictError(Seq<char>),
}

impl View for CustomError {
    type V = CustomErrorView;

    open spec fn view(&self) -> CustomErrorView {
        match self {
            CustomError::SerializeError(m) => CustomErrorView::SerializeError(m@),
            CustomError::ValidationError(m) => CustomErrorView::ValidationError(m@),
            CustomError::InternalError(m) => CustomErrorView::InternalError(m@),
            CustomError::UnauthorizedError(m) => CustomErrorView::UnauthorizedError(m@),
            CustomError::ForbiddenError(m) => CustomErrorView::ForbiddenError(m@),
            CustomError::NotFoundError(m) => CustomErrorView::NotFoundError(m@),
            CustomError::ConflictError(m) => CustomErrorView::ConflictError(m@),
        }
    }
}

impl CustomErrorView {
    /// The message carried by the failure.
    pub open spec fn message(self) -> Seq<char> {
        match self {
            CustomErrorView::SerializeError(m) => m,
            CustomErrorView::ValidationError(m) => m,
            CustomErrorView::InternalError(m) => m,
            CustomErrorView::UnauthorizedError(m) => m,
            CustomErrorView::ForbiddenError(m) => m,
            CustomErrorView::NotFoundError(m) => m,
            CustomErrorView::ConflictError(m) => m,
        }
    }

    /// The HTTP status that reports the failure.
    pub open spec fn status_code(self) -> u16 {
        match self {
            CustomErrorView::SerializeError(_) => 400,
            CustomErrorView::ValidationError(_) => 422,
            CustomErrorView::InternalError(_) => 500,
            CustomErrorView::UnauthorizedError(_) => 401,
            CustomErrorView::ForbiddenError(_) => 403,
            CustomErrorView::NotFoundError(_) => 404,
            CustomErrorView::ConflictError(_) => 409,
        }
    }
}

/// The failure reported for any fault of the storage engine or of a stored
/// payload. Its message tells the caller nothing of the cause.
pub open spec fn internal_error() -> CustomErrorView {
    CustomErrorView::InternalError("Internal Server Error"@)
}

impl CustomError {
    /// The HTTP status that reports the failure.
    pub fn status_code(&self) -> (status: u16)
        ensures
            status == self@.status_code(),
    {
        match self {
            CustomError::SerializeError(_) => 400,
            CustomError::ValidationError(_) => 422,
            CustomError::InternalError(_) => 500,
            CustomError::UnauthorizedError(_) => 401,
            CustomError::ForbiddenError(_) => 403,
            CustomError::NotFoundError(_) => 404,
            CustomError::ConflictError(_) => 409,
        }
    }

    /// The message carried by the failure.
    pub fn message(&self) -> (message: &str)
        ensures
            message@ == self@.message(),
    {
        match self {
            CustomError::SerializeError(m) => m.as_str(),
            CustomError::ValidationError(m) => m.as_str(),
            CustomError::InternalError(m) => m.as_str(),
            CustomError::UnauthorizedError(m) => m.as_str(),
            CustomError::ForbiddenError(m) => m.as_str(),
            CustomError::NotFoundError(m) => m.as_str(),
            CustomError::ConflictError(m) => m.as_str(),
        }
    }

    /// The failure reported for any fault of the storage engine or of a
    /// stored payload.
    pub fn internal() -> (error: CustomError)
        ensures
            error@ == internal_error(),
    {
        CustomError::InternalError(String::from_str("Internal Server Error"))
    }
}

/// The body of an answer that reports a failure.
pub struct ErrorResponse<'a> {
    pub message: &'a str,
}

impl ErrorResponse<'_> {
    /// The body, in JSON, of the answer that reports a failure with the
    /// message `message`: an object whose one member, "message", holds it.
    pub fn to_json(message: &str) -> (json: String)
        ensures
            json@ == json_object_text("message"@, message@),
    {
        write_json_object("message", message)
    }
}

/// The error of the storage engine, `fjall::Error`. Nothing is known of
/// what it holds.
#[verifier::external_type_specification]
#[verifier::external_body]
pub struct ExStorageError(fjall::Error);

impl From<fjall::Error> for CustomError {
    /// Any error of the storage engine is an internal failure; its cause is
    /// not told to the caller.
    fn from(error: fjall::Error) -> (failure: CustomError)
        ensures
            failure@ == internal_error(),
    {
        CustomError::internal()
    }
}

impl FromSpecImpl<fjall::Error> for CustomError {
    open spec fn obeys_from_spec() -> bool {
        false
    }

    open spec fn from_spec(error: fjall::Error) -> CustomError {
        arbitrary()
    }
}

} // verus!
