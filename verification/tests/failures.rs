use community_hub::catchers::{internal_server_error, not_found, toaster_internal_server_error, unprocessable_entity};
use community_hub::community::{check_community_name_available, community_creation_failure};
use community_hub::error_toasts::{bcrypt_error_to_api_response, serde_json_error_to_api_response, sqlx_error_to_api_response};
use community_hub::responders::ApiResponse;
use community_hub::responses::{TemplateView, Toast, ToastTypes};

fn toast(status: u16, template: &'static str, message: &str) -> ApiResponse {
    ApiResponse::Render {
        status,
        template: Some(TemplateView::Toast {
            name: template,
            toast: Toast { message: message.to_string(), toast_type: Some(ToastTypes::Error) },
        }),
        headers: None,
    }
}

#[test]
fn service_failures_become_toasts() {
    assert_eq!(sqlx_error_to_api_response(None), toast(500, "partials/toast", "Something went wrong. Please try again later."));
    assert_eq!(sqlx_error_to_api_response(Some("Nope")), toast(500, "partials/toast", "Nope"));
    assert_eq!(bcrypt_error_to_api_response(None), toast(500, "partials/toast", "Something went wrong. Please try again later."));
    assert_eq!(bcrypt_error_to_api_response(Some("Hash failed")), toast(500, "partials/toast", "Hash failed"));
    assert_eq!(serde_json_error_to_api_response(422, "Bad data"), toast(422, "partials/components/toast", "Bad data"));
    assert_eq!(community_creation_failure(), toast(500, "partials/toast", "Failed to create community. Please try again later"));
}

#[test]
fn community_names_must_be_free() {
    assert_eq!(check_community_name_available(false), Ok(()));
    assert!(matches!(check_community_name_available(true), Err(ApiResponse::Render { status: 409, .. })));
}

#[test]
fn catchers_show_pages_or_toasts() {
    assert_eq!(unprocessable_entity(), "Please check the information you've entered and try again.");
    assert_eq!(not_found(), TemplateView::Page { name: "catchers/404", title: Some("404 Not Found"), message: None });
    assert_eq!(
        internal_server_error(Some("true")),
        TemplateView::Toast {
            name: "partials/toast",
            toast: Toast { message: "An error occured while processing your request.".to_string(), toast_type: Some(ToastTypes::Error) },
        }
    );
    for header in [None, Some("false"), Some("TRUE")] {
        assert_eq!(
            internal_server_error(header),
            TemplateView::Page {
                name: "catchers/500",
                title: Some("500 Internal Server Error"),
                message: Some("An error occured while processing your request.".to_string()),
            }
        );
    }
    assert_eq!(
        toaster_internal_server_error(Some("true"), "Boom"),
        TemplateView::Toast { name: "partials/toast", toast: Toast { message: "Boom".to_string(), toast_type: Some(ToastTypes::Error) } }
    );
    assert_eq!(
        toaster_internal_server_error(None, "Boom"),
        TemplateView::Page { name: "pages/error", title: None, message: Some("Boom".to_string()) }
    );
}
