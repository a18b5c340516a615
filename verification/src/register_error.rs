//! The errors of the registration form.

use vstd::prelude::*;
use vstd::string::*;
use crate::form_errors::{field_message, last_error_for, message_for, opt_text, toast_for, toast_for_field, FormFieldError};
use crate::responders::ApiResponse;
use crate::responses::{TemplateView, Toast, UNPROCESSABLE_ENTITY};

verus! {

/// The template of the registration form's errors.
pub const REGISTER_ERROR_TEMPLATE: &'static str = "partials/auth/register_error";

/// The registration form's errors shown with `status`.
pub fn render_error(
    status: u16,
    name_error: Option<String>,
    password_error: Option<String>,
    gender_error: Option<String>,
    honeypot_error: Option<Toast>,
) -> (r: ApiResponse)
    ensures
        r == (ApiResponse::Render {
            status,
            template: Some(
                TemplateView::RegisterErrors {
                    name: REGISTER_ERROR_TEMPLATE,
                    name_error,
                    password_error,
                    gender_error,
                    toast: honeypot_error,
                },
            ),
            headers: None,
        }),
{
    ApiResponse::Render {
        status,
        template: Some(
            TemplateView::RegisterErrors {
                name: REGISTER_ERROR_TEMPLATE,
                name_error,
                password_error,
                gender_error,
                toast: honeypot_error,
            },
        ),
        headers: None,
    }
}

/// The answer to a rejected registration form: status 422 with, for the
/// username, password and gender, the last error of each ("... is required"
/// when the field is missing), and for the honeypot a toast with its last
/// error.
pub fn get_register_data_or_return_validation_errors(errors: &Vec<FormFieldError>) -> (r: ApiResponse)
    ensures
        r matches ApiResponse::Render {
            status,
            template: Some(
                TemplateView::RegisterErrors { name, name_error, password_error, gender_error, toast },
            ),
            headers: None,
        } && status == UNPROCESSABLE_ENTITY && name == REGISTER_ERROR_TEMPLATE
            && opt_text(name_error) == field_message(
            last_error_for(errors@, "username"@),
            Some("Username is required"@),
        ) && opt_text(password_error) == field_message(
            last_error_for(errors@, "password"@),
            Some("Password is required"@),
        ) && opt_text(gender_error) == field_message(
            last_error_for(errors@, "gender"@),
            Some("Gender is required"@),
        ) && toast_for(toast, last_error_for(errors@, "honeypot"@)),
{
    render_error(
        UNPROCESSABLE_ENTITY,
        message_for(errors, "username", Some("Username is required")),
        message_for(errors, "password", Some("Password is required")),
        message_for(errors, "gender", Some("Gender is required")),
        toast_for_field(errors, "honeypot"),
    )
}

} // verus!
