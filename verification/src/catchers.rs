//! What is shown when a request ends in an error status.

use vstd::prelude::*;
use vstd::string::*;
use crate::htmx::header_is_true;
use crate::responses::{error_toast, TemplateView};
use crate::text::str_eq;

verus! {

/// The text answered to a request with unprocessable content (422).
pub fn unprocessable_entity() -> (r: &'static str)
    ensures
        r@ == "Please check the information you've entered and try again."@,
{
    "Please check the information you've entered and try again."
}

/// The page of an unknown URL (404).
pub fn not_found() -> (r: TemplateView)
    ensures
        r matches TemplateView::Page { name, title: Some(t), message: None } && name@
            == "catchers/404"@ && t@ == "404 Not Found"@,
{
    TemplateView::Page { name: "catchers/404", title: Some("404 Not Found"), message: None }
}

/// What a request that failed on the server (500) is shown, given the value
/// of its `Hx-Toast` header: a toast when the client asked for one, else the
/// error page.
pub fn internal_server_error(hx_toast: Option<&str>) -> (r: TemplateView)
    ensures
        header_is_true(hx_toast) ==> (r matches TemplateView::Toast { name, toast } && name@
            == "partials/toast"@ && toast.message@ == "An error occured while processing your request."@
            && toast.toast_type == Some(crate::responses::ToastTypes::Error)),
        !header_is_true(hx_toast) ==> (r matches TemplateView::Page {
            name,
            title: Some(t),
            message: Some(m),
        } && name@ == "catchers/500"@ && t@ == "500 Internal Server Error"@ && m@
            == "An error occured while processing your request."@),
{
    let toast_wanted = match hx_toast {
        Some(v) => str_eq(v, "true"),
        None => false,
    };
    if toast_wanted {
        TemplateView::Toast {
            name: "partials/toast",
            toast: error_toast(String::from_str("An error occured while processing your request.")),
        }
    } else {
        TemplateView::Page {
            name: "catchers/500",
            title: Some("500 Internal Server Error"),
            message: Some(String::from_str("An error occured while processing your request.")),
        }
    }
}

/// What a failed request (500) is shown when errors are reported through a
/// `Toaster` header: a toast of `message` when the header is `true`, else
/// the error page with `message`.
pub fn toaster_internal_server_error(toaster: Option<&str>, message: &str) -> (r: TemplateView)
    ensures
        header_is_true(toaster) ==> (r matches TemplateView::Toast { name, toast } && name@
            == "partials/toast"@ && toast.message@ == message@ && toast.toast_type == Some(
            crate::responses::ToastTypes::Error,
        )),
        !header_is_true(toaster) ==> (r matches TemplateView::Page { name, title: None, message: Some(m) }
            && name@ == "pages/error"@ && m@ == message@),
{
    let toast_wanted = match toaster {
        Some(v) => str_eq(v, "true"),
        None => false,
    };
    if toast_wanted {
        TemplateView::Toast { name: "partials/toast", toast: error_toast(String::from_str(message)) }
    } else {
        TemplateView::Page { name: "pages/error", title: None, message: Some(String::from_str(message)) }
    }
}

/// The message of a failed request when none was set for it.
pub const DEFAULT_ERROR_MESSAGE: &'static str = "Something went wrong. Please try again later.";

} // verus!
