//! Building blocks shared by the response types: HTTP status codes, toasts
//! and the templates that responses ask to be rendered.

use vstd::prelude::*;

verus! {

pub const OK: u16 = 200;
pub const CREATED: u16 = 201;
pub const NO_CONTENT: u16 = 204;
pub const RESET_CONTENT: u16 = 205;
pub const MOVED_PERMANENTLY: u16 = 301;
pub const BAD_REQUEST: u16 = 400;
pub const UNAUTHORIZED: u16 = 401;
pub const FORBIDDEN: u16 = 403;
pub const NOT_FOUND: u16 = 404;
pub const METHOD_NOT_ALLOWED: u16 = 405;
pub const REQUEST_TIMEOUT: u16 = 408;
pub const CONFLICT: u16 = 409;
pub const PRECONDITION_FAILED: u16 = 412;
pub const PAYLOAD_TOO_LARGE: u16 = 413;
pub const URI_TOO_LONG: u16 = 414;
pub const UNSUPPORTED_MEDIA_TYPE: u16 = 415;
pub const EXPECTATION_FAILED: u16 = 417;
pub const IM_A_TEAPOT: u16 = 418;
pub const UNPROCESSABLE_ENTITY: u16 = 422;
pub const UPGRADE_REQUIRED: u16 = 426;
pub const TOO_MANY_REQUESTS: u16 = 429;
pub const INTERNAL_SERVER_ERROR: u16 = 500;
pub const NOT_IMPLEMENTED: u16 = 501;
pub const BAD_GATEWAY: u16 = 502;
pub const SERVICE_UNAVAILABLE: u16 = 503;
pub const GATEWAY_TIMEOUT: u16 = 504;
pub const HTTP_VERSION_NOT_SUPPORTED: u16 = 505;
pub const INSUFFICIENT_STORAGE: u16 = 507;
pub const LOOP_DETECTED: u16 = 508;

/// The look of a toast notification.
#[derive(Clone, Copy, Debug, PartialEq, Eq, Structural)]
pub enum ToastTypes {
    Success,
    Error,
    Warning,
    Info,
}

/// A short notification shown to the user.
#[derive(Clone, Debug, PartialEq, Eq)]
pub struct Toast {
    pub message: String,
    pub toast_type: Option<ToastTypes>,
}

/// The signed-in user that a session cookie carries.
#[derive(Clone, Debug, PartialEq, Eq)]
pub struct UserJWT {
    /// The user's row id.
    pub id: i64,
    /// The user's public id.
    pub uid: String,
    pub display_name: String,
    pub display_image: Option<String>,
}

/// A form error in the shape the error templates list them.
#[derive(Clone, Debug, PartialEq, Eq)]
pub struct ValidationError {
    pub field: Option<String>,
    pub message: String,
}

/// A template to render, with its context.
#[derive(Clone, Debug, PartialEq, Eq)]
pub enum TemplateView {
    /// A template whose context holds one `toast`.
    Toast { name: &'static str, toast: Toast },
    /// A template whose context holds the list `errors`.
    ValidationErrors { name: &'static str, errors: Vec<ValidationError> },
    /// The errors of the login form.
    LoginErrors {
        name: &'static str,
        name_error: Option<String>,
        password_error: Option<String>,
        toast: Option<Toast>,
    },
    /// The errors of the registration form.
    RegisterErrors {
        name: &'static str,
        name_error: Option<String>,
        password_error: Option<String>,
        gender_error: Option<String>,
        toast: Option<Toast>,
    },
    /// A full page with an optional title and message.
    Page { name: &'static str, title: Option<&'static str>, message: Option<String> },
    /// A user's name and picture.
    UserCard { name: &'static str, display_name: String, display_image: Option<String> },
    /// The page shown after a successful sign-up.
    RegisterSuccess { name: &'static str, username: String },
    /// The confirmation shown once a community is created, with its name,
    /// its id and the signed-in user.
    CommunityCreated { name: &'static str, community_name: String, community_uid: String, user: UserJWT },
    /// The errors of the community-creation form.
    CreateCommunityErrors {
        name: &'static str,
        community_name_error: Option<String>,
        description_error: Option<String>,
        toast: Option<Toast>,
    },
}

/// Whether `view` is the template `name` showing an error toast with `message`.
pub open spec fn is_error_toast_view(view: TemplateView, name: Seq<char>, message: Seq<char>) -> bool {
    &&& view matches TemplateView::Toast { name: n, toast }
    &&& n@ == name
    &&& toast.message@ == message
    &&& toast.toast_type == Some(ToastTypes::Error)
}

/// An error toast carrying `message`.
pub fn error_toast(message: String) -> (t: Toast)
    ensures
        t.message == message,
        t.toast_type == Some(ToastTypes::Error),
{
    Toast { message, toast_type: Some(ToastTypes::Error) }
}

} // verus!
