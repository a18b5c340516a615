//! Error toasts shown when a service fails while handling a form.

use vstd::prelude::*;
use vstd::string::*;
use crate::responders::{is_error_toast_render, ApiResponse};
use crate::responses::{error_toast, TemplateView, INTERNAL_SERVER_ERROR};

verus! {

/// The message shown when no other is given.
pub open spec fn default_failure_message() -> Seq<char> {
    "Something went wrong. Please try again later."@
}

/// The given message, else the default one.
pub open spec fn message_or_default(message: Option<&'static str>) -> Seq<char> {
    match message {
        Some(m) => m@,
        None => default_failure_message(),
    }
}

fn toast_in(template: &'static str, status: u16, message: &str) -> (r: ApiResponse)
    ensures
        is_error_toast_render(r, status, template@, message@),
{
    ApiResponse::Render {
        status,
        template: Some(TemplateView::Toast { name: template, toast: error_toast(String::from_str(message)) }),
        headers: None,
    }
}

/// The answer to a failed database operation: status 500 with an error
/// toast in `partials/toast` of `message`, or of the default message.
pub fn sqlx_error_to_api_response(message: Option<&'static str>) -> (r: ApiResponse)
    ensures
        is_error_toast_render(r, INTERNAL_SERVER_ERROR, "partials/toast"@, message_or_default(message)),
{
    match message {
        Some(m) => toast_in("partials/toast", INTERNAL_SERVER_ERROR, m),
        None => toast_in(
            "partials/toast",
            INTERNAL_SERVER_ERROR,
            "Something went wrong. Please try again later.",
        ),
    }
}

/// The answer to a failed password hash or check: status 500 with an error
/// toast in `partials/toast` of `message`, or of the default message.
pub fn bcrypt_error_to_api_response(message: Option<&'static str>) -> (r: ApiResponse)
    ensures
        is_error_toast_render(r, INTERNAL_SERVER_ERROR, "partials/toast"@, message_or_default(message)),
{
    match message {
        Some(m) => toast_in("partials/toast", INTERNAL_SERVER_ERROR, m),
        None => toast_in(
            "partials/toast",
            INTERNAL_SERVER_ERROR,
            "Something went wrong. Please try again later.",
        ),
    }
}

/// The answer to a failed JSON (de)serialization: `status` with an error
/// toast in `partials/components/toast` of `message`.
pub fn serde_json_error_to_api_response(status: u16, message: &'static str) -> (r: ApiResponse)
    ensures
        is_error_toast_render(r, status, "partials/components/toast"@, message@),
{
    toast_in("partials/components/toast", status, message)
}

} // verus!
