//! The errors of the community-creation form.

use vstd::prelude::*;
use vstd::string::*;
use crate::form_errors::{field_message, last_error_for, message_for, opt_text, toast_for, toast_for_field, FormFieldError};
use crate::responders::ApiResponse;
use crate::responses::{TemplateView, Toast, UNPROCESSABLE_ENTITY};

verus! {

/// The template of the community-creation form's errors.
pub const CREATE_COMMUNITY_ERROR_TEMPLATE: &'static str =
    "partials/components/community/create-community-errors";

/// The community-creation form's errors shown with `status`.
pub fn render_error(
    status: u16,
    community_name_error: Option<String>,
    description_error: Option<String>,
    honeypot_error: Option<Toast>,
) -> (r: ApiResponse)
    ensures
        r == (ApiResponse::Render {
            status,
            template: Some(
                TemplateView::CreateCommunityErrors {
                    name: CREATE_COMMUNITY_ERROR_TEMPLATE,
                    community_name_error,
                    description_error,
                    toast: honeypot_error,
                },
            ),
            headers: None,
        }),
{
    ApiResponse::Render {
        status,
        template: Some(
            TemplateView::CreateCommunityErrors {
                name: CREATE_COMMUNITY_ERROR_TEMPLATE,
                community_name_error,
                description_error,
                toast: honeypot_error,
            },
        ),
        headers: None,
    }
}

/// The answer to a rejected community-creation form: status 422 with the
/// last error of the community name and of the description, and for the
/// honeypot a toast with its last error.
pub fn get_community_info_or_return_validation_error(errors: &Vec<FormFieldError>) -> (r: ApiResponse)
    ensures
        r matches ApiResponse::Render {
            status,
            template: Some(
                TemplateView::CreateCommunityErrors {
                    name,
                    community_name_error,
                    description_error,
                    toast,
                },
            ),
            headers: None,
        } && status == UNPROCESSABLE_ENTITY && name == CREATE_COMMUNITY_ERROR_TEMPLATE
            && opt_text(community_name_error) == field_message(
            last_error_for(errors@, "community_name"@),
            None,
        ) && opt_text(description_error) == field_message(
            last_error_for(errors@, "description"@),
            None,
        ) && toast_for(toast, last_error_for(errors@, "honeypot"@)),
{
    render_error(
        UNPROCESSABLE_ENTITY,
        message_for(errors, "community_name", None),
        message_for(errors, "description", None),
        toast_for_field(errors, "honeypot"),
    )
}

} // verus!
