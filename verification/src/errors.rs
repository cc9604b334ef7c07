use crate::encoding::{contains_bytes, has_infix};
use vstd::prelude::*;
use vstd::utf8::encode_utf8;

verus! {

/// Why a request was rejected before any route answered it.
pub enum RejectionKind {
    /// No route matched.
    NotFound,
    /// The request could not be made in the API.
    BadRequestApi,
    /// The JSON body did not deserialize; the text of the cause, when there is one.
    BodyDeserialize(Option<String>),
    /// The route does not take this method.
    MethodNotAllowed,
    /// Anything else.
    Unhandled,
}

/// The JSON body of an error answer.
pub struct ErrorMessage {
    pub code: u16,
    pub code_error: String,
    pub message: String,
    pub error: bool,
}

/// What `error_api` answers to each rejection: a status code, a code word and a
/// message. A body that did not deserialize because of a `denom` field is
/// reported as a wrong field.
pub open spec fn error_answer(kind: RejectionKind) -> (u16, Seq<char>, Seq<char>) {
    match kind {
        RejectionKind::NotFound => (404, "NOT_FOUND"@, "Could not find route"@),
        RejectionKind::BadRequestApi => (
            400,
            "BAD_REQUEST_API"@,
            "It was not possible to make your request in the API."@,
        ),
        RejectionKind::BodyDeserialize(cause) => match cause {
            Some(text) => if has_infix(encode_utf8(text@), encode_utf8("denom"@)) {
                (400, "FIELD_WRONG"@, "There are errors in the metadata, please check it."@)
            } else {
                (400, "BAD_REQUEST"@, "Invalid metadata."@)
            },
            None => (400, "BAD_REQUEST"@, "Unknown error."@),
        },
        RejectionKind::MethodNotAllowed => (
            405,
            "METHOD_NOT_ALLOWED"@,
            "Method for this endpoint is invalid for this action."@,
        ),
        RejectionKind::Unhandled => (
            500,
            "UNHANDLED_REJECTION"@,
            "Your request was rejected and therefore the API was unable to process your request."@,
        ),
    }
}

fn error_message(code: u16, code_error: &str, message: &str) -> (r: ErrorMessage)
    ensures
        r.code == code,
        r.code_error@ == code_error@,
        r.message@ == message@,
        r.error,
{
    ErrorMessage { code, code_error: String::from_str(code_error), message: String::from_str(message), error: true }
}

/// The error answer to a rejected request; its status code is `code`.
pub fn error_api(err: &RejectionKind) -> (r: ErrorMessage)
    ensures
        (r.code, r.code_error@, r.message@) == error_answer(*err),
        r.error,
{
    match err {
        RejectionKind::NotFound => error_message(404, "NOT_FOUND", "Could not find route"),
        RejectionKind::BadRequestApi => error_message(
            400,
            "BAD_REQUEST_API",
            "It was not possible to make your request in the API.",
        ),
        RejectionKind::BodyDeserialize(cause) => match cause {
            Some(text) => {
                if contains_bytes(text.as_str().as_bytes(), "denom".as_bytes()) {
                    error_message(400, "FIELD_WRONG", "There are errors in the metadata, please check it.")
                } else {
                    error_message(400, "BAD_REQUEST", "Invalid metadata.")
                }
            },
            None => error_message(400, "BAD_REQUEST", "Unknown error."),
        },
        RejectionKind::MethodNotAllowed => error_message(
            405,
            "METHOD_NOT_ALLOWED",
            "Method for this endpoint is invalid for this action.",
        ),
        RejectionKind::Unhandled => error_message(
            500,
            "UNHANDLED_REJECTION",
            "Your request was rejected and therefore the API was unable to process your request.",
        ),
    }
}

} // verus!
