use community_hub::community;
use community_hub::create_community_error::get_community_info_or_return_validation_error;
use community_hub::form_errors::{extract_data_or_return_response, FieldName, FormFieldError};
use community_hub::login_error::get_login_data_or_return_validation_error;
use community_hub::register_error::get_register_data_or_return_validation_errors;
use community_hub::forms::{check_name, check_password};
use community_hub::responders::ApiResponse;
use community_hub::responses::{TemplateView, Toast, ToastTypes, ValidationError};

fn err(field: Option<&str>, missing: bool, message: &str) -> FormFieldError {
    FormFieldError {
        name: field.map(|f| FieldName {
            raw: f.to_string(),
            keys: f.split('.').map(|k| k.to_string()).collect(),
        }),
        missing,
        message: message.to_string(),
    }
}

#[test]
fn password_checks_count_bytes() {
    assert_eq!(check_password("short", "short"), Err("Password must contain at least 8 characters."));
    assert_eq!(check_password("longenough", "other"), Err("Passwords do not match"));
    assert_eq!(check_password("longenough", "samelength"), Ok(()));
    assert_eq!(check_password("éééé", "éééé"), Ok(()));
}

#[test]
fn user_names_are_at_most_sixty_bytes() {
    assert_eq!(check_name(&"a".repeat(60)), Ok(()));
    assert_eq!(check_name(&"a".repeat(61)), Err("Name can only contain up to 60 characters."));
}

#[test]
fn community_names_are_words() {
    assert_eq!(community::check_name("Rust Lovers 2024"), Ok(()));
    assert_eq!(community::check_name("Café Ñandú"), Ok(()));
    assert_eq!(community::check_name("Rust-Lovers"), Err("Name can only contain alphanumeric characters."));
    assert_eq!(community::check_name(&"b".repeat(61)), Err("Name can only contain up to 60 characters."));
    assert_eq!(community::check_name(""), Ok(()));
    assert_eq!(community::check_name("Rust\u{3000}Club\t"), Ok(()));
    assert_eq!(community::check_name("Rust\u{200B}Club"), Err("Name can only contain alphanumeric characters."));
}

#[test]
fn register_errors_keep_the_last_per_field() {
    let errors = vec![
        err(Some("username"), false, "first"),
        err(Some("username"), true, "missing"),
        err(Some("password"), false, "too weak"),
        err(Some("gender.kind"), true, "nested"),
        err(Some("honeypot"), false, "bot"),
        err(None, false, "global"),
    ];
    let r = get_register_data_or_return_validation_errors(&errors);
    assert_eq!(
        r,
        ApiResponse::Render {
            status: 422,
            template: Some(TemplateView::RegisterErrors {
                name: "partials/auth/register_error",
                name_error: Some("Username is required".to_string()),
                password_error: Some("too weak".to_string()),
                gender_error: None,
                toast: Some(Toast { message: "bot".to_string(), toast_type: Some(ToastTypes::Error) }),
            }),
            headers: None,
        }
    );
}

#[test]
fn login_errors_use_the_error_text_even_when_missing() {
    let errors = vec![err(Some("display_name"), true, "missing field"), err(Some("password"), false, "bad")];
    let r = get_login_data_or_return_validation_error(&errors);
    assert_eq!(
        r,
        ApiResponse::Render {
            status: 400,
            template: Some(TemplateView::LoginErrors {
                name: "partials/auth/login_error",
                name_error: Some("missing field".to_string()),
                password_error: Some("bad".to_string()),
                toast: None,
            }),
            headers: None,
        }
    );
}

#[test]
fn community_form_errors() {
    let errors = vec![err(Some("community_name"), false, "taken"), err(Some("description"), false, "long")];
    let r = get_community_info_or_return_validation_error(&errors);
    assert_eq!(
        r,
        ApiResponse::Render {
            status: 422,
            template: Some(TemplateView::CreateCommunityErrors {
                name: "partials/components/community/create-community-errors",
                community_name_error: Some("taken".to_string()),
                description_error: Some("long".to_string()),
                toast: None,
            }),
            headers: None,
        }
    );
}

#[test]
fn all_errors_are_listed_in_order() {
    let errors = vec![err(Some("a.b"), false, "one"), err(None, true, "two")];
    let r = extract_data_or_return_response(&errors, "partials/errors");
    assert_eq!(
        r,
        ApiResponse::Render {
            status: 422,
            template: Some(TemplateView::ValidationErrors {
                name: "partials/errors",
                errors: vec![
                    ValidationError { field: Some("a.b".to_string()), message: "one".to_string() },
                    ValidationError { field: None, message: "two".to_string() },
                ],
            }),
            headers: None,
        }
    );
}
