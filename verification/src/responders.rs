//! Responses that render a template (or carry only a status), as the
//! throttling and form-validation paths return them.

use vstd::prelude::*;
use crate::responses::{
    is_error_toast_view, TemplateView, INTERNAL_SERVER_ERROR, UNPROCESSABLE_ENTITY,
    UNSUPPORTED_MEDIA_TYPE,
};

verus! {

/// A response that renders an optional template with a status and optional
/// extra headers, or that carries only a status.
#[derive(Clone, Debug, PartialEq, Eq)]
pub enum ApiResponse {
    Render { status: u16, template: Option<TemplateView>, headers: Option<Vec<(String, String)>> },
    Status(u16),
}

/// Whether `r` renders `template_name` with an error toast of `message`,
/// with status `status` and no extra headers.
pub open spec fn is_error_toast_render(
    r: ApiResponse,
    status: u16,
    template_name: Seq<char>,
    message: Seq<char>,
) -> bool {
    &&& r matches ApiResponse::Render { status: s, template: Some(view), headers: None }
    &&& s == status
    &&& is_error_toast_view(view, template_name, message)
}

/// The kinds of failure that are answered with a bare status.
#[derive(Clone, Copy, Debug, PartialEq, Eq, Structural)]
pub enum FailureSource {
    /// Any boxed error.
    Boxed,
    /// A database error.
    Sqlx,
    /// A JSON (de)serialization error.
    SerdeJson,
    /// A password-hashing error.
    Bcrypt,
    /// An integer that failed to parse.
    ParseInt,
}

/// The status with which a failure of `source` is answered.
pub open spec fn failure_status(source: FailureSource) -> u16 {
    match source {
        FailureSource::Boxed => INTERNAL_SERVER_ERROR,
        FailureSource::Sqlx => INTERNAL_SERVER_ERROR,
        FailureSource::SerdeJson => UNPROCESSABLE_ENTITY,
        FailureSource::Bcrypt => INTERNAL_SERVER_ERROR,
        FailureSource::ParseInt => UNSUPPORTED_MEDIA_TYPE,
    }
}

impl From<FailureSource> for ApiResponse {
    fn from(source: FailureSource) -> (r: ApiResponse) {
        match source {
            FailureSource::Boxed => ApiResponse::Status(INTERNAL_SERVER_ERROR),
            FailureSource::Sqlx => ApiResponse::Status(INTERNAL_SERVER_ERROR),
            FailureSource::SerdeJson => ApiResponse::Status(UNPROCESSABLE_ENTITY),
            FailureSource::Bcrypt => ApiResponse::Status(INTERNAL_SERVER_ERROR),
            FailureSource::ParseInt => ApiResponse::Status(UNSUPPORTED_MEDIA_TYPE),
        }
    }
}

impl vstd::std_specs::convert::FromSpecImpl<FailureSource> for ApiResponse {
    open spec fn obeys_from_spec() -> bool {
        true
    }

    open spec fn from_spec(source: FailureSource) -> ApiResponse {
        ApiResponse::Status(failure_status(source))
    }
}

} // verus!
