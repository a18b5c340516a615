//! The errors of the login form.

use vstd::prelude::*;
use vstd::string::*;
use crate::form_errors::{field_message, last_error_for, message_for, opt_text, toast_for, toast_for_field, FormFieldError};
use crate::responders::ApiResponse;
use crate::responses::{TemplateView, Toast, BAD_REQUEST};

verus! {

/// The template of the login form's errors.
pub const LOGIN_ERROR_TEMPLATE: &'static str = "partials/auth/login_error";

/// The login form's errors shown with `status`.
pub fn render_error(
    status: u16,
    name_error: Option<String>,
    password_error: Option<String>,
    honeypot_error: Option<Toast>,
) -> (r: ApiResponse)
    ensures
        r == (ApiResponse::Render {
            status,
            template: Some(
                TemplateView::LoginErrors {
                    name: LOGIN_ERROR_TEMPLATE,
                    name_error,
                    password_error,
                    toast: honeypot_error,
                },
            ),
            headers: None,
        }),
{
    ApiResponse::Render {
        status,
        template: Some(
            TemplateView::LoginErrors {
                name: LOGIN_ERROR_TEMPLATE,
                name_error,
                password_error,
                toast: honeypot_error,
            },
        ),
        headers: None,
    }
}

/// The answer to a rejected login form: status 400 with the last error of
/// the display name and of the password, and for the honeypot a toast with
/// its last error.
pub fn get_login_data_or_return_validation_error(errors: &Vec<FormFieldError>) -> (r: ApiResponse)
    ensures
        r matches ApiResponse::Render {
            status,
            template: Some(TemplateView::LoginErrors { name, name_error, password_error, toast }),
            headers: None,
        } && status == BAD_REQUEST && name == LOGIN_ERROR_TEMPLATE && opt_text(name_error)
            == field_message(last_error_for(errors@, "display_name"@), None) && opt_text(
            password_error,
        ) == field_message(last_error_for(errors@, "password"@), None) && toast_for(
            toast,
            last_error_for(errors@, "honeypot"@),
        ),
{
    render_error(
        BAD_REQUEST,
        message_for(errors, "display_name", None),
        message_for(errors, "password", None),
        toast_for_field(errors, "honeypot"),
    )
}

} // verus!
