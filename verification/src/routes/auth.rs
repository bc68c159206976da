//! The route that tells whether a token is the API key.

use vstd::prelude::*;
use vstd::string::StringExecFns;
use crate::errors::{CustomError, CustomErrorView};
use crate::models::response::MessageResponse;
use crate::utils::text::same_text;

verus! {

/// The failure that rejects a token that is not the API key.
pub open spec fn invalid_token_error() -> CustomErrorView {
    CustomErrorView::ForbiddenError("Invalid token"@)
}

/// Answers whether `token` is the API key: the message that it is valid
/// where the two are the same text, and the failure that forbids it where
/// they are not.
pub fn validate_token(api_key: &str, token: &str) -> (answer: Result<MessageResponse, CustomError>)
    ensures
        answer is Ok <==> token@ == api_key@,
        answer matches Ok(response) ==> response@ == "Token is valid"@,
        answer matches Err(e) ==> e@ == invalid_token_error(),
{
    if same_text(token, api_key) {
        Ok(MessageResponse { message: String::from_str("Token is valid") })
    } else {
        Err(CustomError::ForbiddenError(String::from_str("Invalid token")))
    }
}

} // verus!
