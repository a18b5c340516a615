use community_hub::api::ApiResponse as PageResponse;
use community_hub::auth::{check_credentials, check_username_available, hash_password, login_success, register_success};
use community_hub::flows::{
    create_community_after_name_lookup, create_community_after_store, log_in_after_hash_lookup,
    log_in_after_session, sign_up_after_name_lookup, sign_up_after_store, DbResult, SessionOutcome,
};
use community_hub::responders::ApiResponse;
use community_hub::responses::{TemplateView, ToastTypes, UserJWT};

fn toast_of(resp: &ApiResponse) -> (u16, String, String) {
    match resp {
        ApiResponse::Render { status, template: Some(TemplateView::Toast { name, toast }), headers: None } => {
            assert_eq!(toast.toast_type, Some(ToastTypes::Error));
            (*status, name.to_string(), toast.message.clone())
        }
        other => panic!("not a toast: {:?}", other),
    }
}

fn login_errors(resp: &ApiResponse) -> (u16, Option<String>, Option<String>) {
    match resp {
        ApiResponse::Render { status, template: Some(TemplateView::LoginErrors { name, name_error, password_error, toast: None }), headers: None } => {
            assert_eq!(*name, "partials/auth/login_error");
            (*status, name_error.clone(), password_error.clone())
        }
        other => panic!("not a login error: {:?}", other),
    }
}

#[test]
fn credentials_are_checked_against_the_stored_hash() {
    let hash = bcrypt::hash("hunter22", 4).unwrap();
    assert!(check_credentials(Some(hash.as_str()), "hunter22").is_ok());
    let wrong = check_credentials(Some(hash.as_str()), "hunter23").unwrap_err();
    assert_eq!(
        login_errors(&wrong),
        (401, Some("Invalid credentials".to_string()), Some("Invalid credentials".to_string()))
    );
    let unknown = check_credentials(None, "hunter22").unwrap_err();
    assert_eq!(
        login_errors(&unknown),
        (400, Some("Invalid credentials".to_string()), Some("Invalid credentials".to_string()))
    );
    let broken = check_credentials(Some("not a bcrypt hash"), "hunter22").unwrap_err();
    assert_eq!(
        toast_of(&broken),
        (500, "partials/toast".to_string(), "We cannot verify your password. Please try again later.".to_string())
    );
}

#[test]
fn a_hashed_password_logs_in() {
    let hash = hash_password("correct horse").unwrap();
    assert_ne!(hash, "correct horse");
    assert!(check_credentials(Some(hash.as_str()), "correct horse").is_ok());
    assert!(check_credentials(Some(hash.as_str()), "correct horse!").is_err());
}

#[test]
fn taken_user_names_are_refused() {
    assert!(check_username_available(false).is_ok());
    match check_username_available(true).unwrap_err() {
        ApiResponse::Render {
            status: 409,
            template: Some(TemplateView::RegisterErrors { name, name_error, password_error: None, gender_error: None, toast: None }),
            headers: None,
        } => {
            assert_eq!(name, "partials/auth/register_error");
            assert_eq!(name_error.as_deref(), Some("Please choose a different username"));
        }
        other => panic!("unexpected {:?}", other),
    }
}

#[test]
fn successful_login_redirects_home() {
    match login_success() {
        PageResponse::HtmxRedirect(redirect) => {
            assert_eq!(redirect.0, 200);
            assert_eq!(redirect.1.as_deref(), Some("/homepage"));
        }
        other => panic!("unexpected {:?}", other),
    }
    match log_in_after_session(SessionOutcome::Ready).unwrap() {
        PageResponse::HtmxRedirect(redirect) => assert_eq!(redirect.1.as_deref(), Some("/homepage")),
        other => panic!("unexpected {:?}", other),
    }
}

#[test]
fn login_steps_answer_each_failure() {
    let failed = log_in_after_hash_lookup(DbResult::Failed, "pw").unwrap_err();
    assert_eq!(
        toast_of(&failed),
        (500, "partials/toast".to_string(), "Something went wrong. Please try again later.".to_string())
    );
    let unknown = log_in_after_hash_lookup(DbResult::Value(None), "pw").unwrap_err();
    assert_eq!(login_errors(&unknown).0, 400);
    let hash = bcrypt::hash("pw", 4).unwrap();
    assert!(log_in_after_hash_lookup(DbResult::Value(Some(hash.clone())), "pw").is_ok());
    assert_eq!(login_errors(&log_in_after_hash_lookup(DbResult::Value(Some(hash)), "px").unwrap_err()).0, 401);
    let db = log_in_after_session(SessionOutcome::DatabaseFailed).unwrap_err();
    assert_eq!(toast_of(&db).0, 500);
    let cookie = log_in_after_session(SessionOutcome::CookieFailed).unwrap_err();
    assert_eq!(
        toast_of(&cookie),
        (422, "partials/components/toast".to_string(), "Something went wrong. Please try again later.".to_string())
    );
}

#[test]
fn sign_up_steps() {
    let failed = sign_up_after_name_lookup("ann".to_string(), "pw12345678", "f".to_string(), DbResult::Failed).unwrap_err();
    assert_eq!(toast_of(&failed).0, 500);
    let taken = sign_up_after_name_lookup("ann".to_string(), "pw12345678", "f".to_string(), DbResult::Value(true)).unwrap_err();
    assert!(matches!(taken, ApiResponse::Render { status: 409, .. }));
    assert_eq!(
        sign_up_after_store("ann".to_string(), SessionOutcome::Ready).unwrap(),
        register_success("ann".to_string())
    );
    assert_eq!(
        register_success("ann".to_string()),
        ApiResponse::Render {
            status: 200,
            template: Some(TemplateView::RegisterSuccess { name: "partials/components/register/success", username: "ann".to_string() }),
            headers: None,
        }
    );
    assert_eq!(toast_of(&sign_up_after_store("ann".to_string(), SessionOutcome::DatabaseFailed).unwrap_err()).0, 500);
    assert_eq!(toast_of(&sign_up_after_store("ann".to_string(), SessionOutcome::CookieFailed).unwrap_err()).0, 422);
}

#[test]
fn community_creation_steps() {
    assert!(create_community_after_name_lookup(DbResult::Value(false)).is_ok());
    let failed = create_community_after_name_lookup(DbResult::Failed).unwrap_err();
    assert_eq!(
        toast_of(&failed),
        (500, "partials/toast".to_string(), "Failed to create community. Please try again later".to_string())
    );
    match create_community_after_name_lookup(DbResult::Value(true)).unwrap_err() {
        ApiResponse::Render {
            status: 409,
            template: Some(TemplateView::CreateCommunityErrors { name, community_name_error, description_error: None, toast: None }),
            headers: None,
        } => {
            assert_eq!(name, "partials/components/community/create-community-errors");
            assert_eq!(community_name_error.as_deref(), Some("Please choose a different name"));
        }
        other => panic!("unexpected {:?}", other),
    }
    let user = UserJWT { id: 1, uid: "u1".to_string(), display_name: "ann".to_string(), display_image: None };
    let created = create_community_after_store("Rustaceans".to_string(), DbResult::Value("c9".to_string()), user.clone()).unwrap();
    assert_eq!(
        created,
        PageResponse::Template(TemplateView::CommunityCreated {
            name: "partials/components/community/create-community-success",
            community_name: "Rustaceans".to_string(),
            community_uid: "c9".to_string(),
            user: user.clone(),
        })
    );
    let not_stored = create_community_after_store("Rustaceans".to_string(), DbResult::Failed, user).unwrap_err();
    assert_eq!(toast_of(&not_stored).2, "Failed to create community. Please try again later");
}
