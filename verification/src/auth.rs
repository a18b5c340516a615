//! The decisions of signing up and logging in: password hashing and
//! checking, and how each failure is answered.

use vstd::prelude::*;
use vstd::string::*;
use crate::api::ApiResponse as PageResponse;
use crate::error_toasts::{bcrypt_error_to_api_response, serde_json_error_to_api_response};
use crate::login_error::{self, LOGIN_ERROR_TEMPLATE};
use crate::register_error::{self, REGISTER_ERROR_TEMPLATE};
use crate::htmx::{uri_reference_text, HtmxRedirect};
use crate::responders::{is_error_toast_render, ApiResponse};
use crate::responses::{
    TemplateView, BAD_REQUEST, CONFLICT, INTERNAL_SERVER_ERROR, OK, UNAUTHORIZED,
    UNPROCESSABLE_ENTITY,
};

verus! {

/// What `bcrypt::verify` answers for `password` and the stored `hash`:
/// whether they match, or `None` when it fails.
pub uninterp spec fn bcrypt_verify_outcome(password: Seq<char>, hash: Seq<char>) -> Option<bool>;

/// `bcrypt::verify(password, hash)`, its error mapped to `None`; the
/// contract names its result.
#[verifier::external_body]
fn bcrypt_verify(password: &str, hash: &str) -> (r: Option<bool>)
    ensures
        r == bcrypt_verify_outcome(password@, hash@),
{
    match bcrypt::verify(password, hash) {
        Ok(matches) => Some(matches),
        Err(_) => None,
    }
}

/// `bcrypt::hash(password, bcrypt::DEFAULT_COST)`, its error mapped to `None`. The
/// salt is random, so which hash comes back is not stated; what is stated is
/// the round trip that the crate's source and tests show: `bcrypt::verify`
/// accepts `password` against any hash this returns.
#[verifier::external_body]
fn bcrypt_hash(password: &str) -> (r: Option<String>)
    ensures
        r matches Some(h) ==> bcrypt_verify_outcome(password@, h@) == Some(true),
{
    match bcrypt::hash(password, bcrypt::DEFAULT_COST) {
        Ok(h) => Some(h),
        Err(_) => None,
    }
}

/// The message shown when credentials do not match.
pub open spec fn invalid_credentials() -> Seq<char> {
    "Invalid credentials"@
}

/// Whether `r` shows the login form with "Invalid credentials" on both
/// fields and status `status`.
pub open spec fn rejects_credentials(r: ApiResponse, status: u16) -> bool {
    &&& r matches ApiResponse::Render {
        status: s,
        template: Some(TemplateView::LoginErrors { name, name_error: Some(n), password_error: Some(p), toast: None }),
        headers: None,
    }
    &&& s == status
    &&& name == LOGIN_ERROR_TEMPLATE
    &&& n@ == invalid_credentials()
    &&& p@ == invalid_credentials()
}

/// The decision on a login attempt whose user has the stored hash
/// `password_hash` (none when there is no such user) and who typed
/// `password`.
pub open spec fn credentials_decision(
    password_hash: Option<Seq<char>>,
    password: Seq<char>,
    r: Result<(), ApiResponse>,
) -> bool {
    match password_hash {
        None => r matches Err(resp) && rejects_credentials(resp, BAD_REQUEST),
        Some(hash) => match bcrypt_verify_outcome(password, hash) {
            None => r matches Err(resp) && is_error_toast_render(
                resp,
                INTERNAL_SERVER_ERROR,
                "partials/toast"@,
                "We cannot verify your password. Please try again later."@,
            ),
            Some(false) => r matches Err(resp) && rejects_credentials(resp, UNAUTHORIZED),
            Some(true) => r is Ok,
        },
    }
}

fn invalid_credentials_response(status: u16) -> (r: ApiResponse)
    ensures
        rejects_credentials(r, status),
{
    login_error::render_error(
        status,
        Some(String::from_str("Invalid credentials")),
        Some(String::from_str("Invalid credentials")),
        None,
    )
}

/// Checks the typed `password` against the stored hash of the user (none
/// when there is no such user): an unknown user is rejected with 400, a
/// wrong password with 401, both as "Invalid credentials"; a hash that
/// cannot be checked gives a 500 toast.
pub fn check_credentials(password_hash: Option<&str>, password: &str) -> (r: Result<(), ApiResponse>)
    ensures
        credentials_decision(
            match password_hash {
                Some(h) => Some(h@),
                None => None,
            },
            password@,
            r,
        ),
{
    match password_hash {
        None => Err(invalid_credentials_response(BAD_REQUEST)),
        Some(hash) => match bcrypt_verify(password, hash) {
            None => Err(
                bcrypt_error_to_api_response(
                    Some("We cannot verify your password. Please try again later."),
                ),
            ),
            Some(false) => Err(invalid_credentials_response(UNAUTHORIZED)),
            Some(true) => Ok(()),
        },
    }
}

/// The answer to a successful login: an HTMX redirect to the homepage.
pub fn login_success() -> (r: PageResponse)
    ensures
        r matches PageResponse::HtmxRedirect(redirect) && redirect.0 == OK && match redirect.1 {
            Some(text) => uri_reference_text("/homepage"@) == Some(text@),
            None => uri_reference_text("/homepage"@) is None,
        },
{
    PageResponse::HtmxRedirect(HtmxRedirect::to("/homepage"))
}

/// The answer when the session cookie cannot be serialized: 422 with a
/// toast.
pub fn session_cookie_failure() -> (r: ApiResponse)
    ensures
        is_error_toast_render(
            r,
            UNPROCESSABLE_ENTITY,
            "partials/components/toast"@,
            "Something went wrong. Please try again later."@,
        ),
{
    serde_json_error_to_api_response(UNPROCESSABLE_ENTITY, "Something went wrong. Please try again later.")
}

/// Rejects a sign-up whose user name is taken: 409 with "Please choose a
/// different username" on the name field.
pub fn check_username_available(name_taken: bool) -> (r: Result<(), ApiResponse>)
    ensures
        !name_taken ==> r is Ok,
        name_taken ==> (r matches Err(ApiResponse::Render {
            status,
            template: Some(
                TemplateView::RegisterErrors {
                    name,
                    name_error: Some(n),
                    password_error: None,
                    gender_error: None,
                    toast: None,
                },
            ),
            headers: None,
        }) && status == CONFLICT && name == REGISTER_ERROR_TEMPLATE && n@
            == "Please choose a different username"@),
{
    if name_taken {
        return Err(
            register_error::render_error(
                CONFLICT,
                Some(String::from_str("Please choose a different username")),
                None,
                None,
                None,
            ),
        );
    }
    Ok(())
}

/// Hashes a new user's password; a failure gives a 500 toast. Whatever hash
/// comes back, `check_credentials` accepts the same password against it.
pub fn hash_password(password: &str) -> (r: Result<String, ApiResponse>)
    ensures
        r matches Ok(h) ==> bcrypt_verify_outcome(password@, h@) == Some(true),
        r matches Err(resp) ==> is_error_toast_render(
            resp,
            INTERNAL_SERVER_ERROR,
            "partials/toast"@,
            "Something went wrong. Please try again later."@,
        ),
{
    match bcrypt_hash(password) {
        Some(h) => Ok(h),
        None => Err(bcrypt_error_to_api_response(Some("Something went wrong. Please try again later."))),
    }
}

/// A password stored at sign-up is accepted at login: checking the same
/// password against the stored hash lets the user in.
pub proof fn lemma_registered_password_logs_in(
    password: Seq<char>,
    hash: Seq<char>,
    r: Result<(), ApiResponse>,
)
    requires
        bcrypt_verify_outcome(password, hash) == Some(true),
        credentials_decision(Some(hash), password, r),
    ensures
        r is Ok,
{
}

/// The page shown after a successful sign-up: the registration-success
/// template with the new user's name, status 200.
pub fn register_success(username: String) -> (r: ApiResponse)
    ensures
        r == (ApiResponse::Render {
            status: OK,
            template: Some(TemplateView::RegisterSuccess { name: "partials/components/register/success", username }),
            headers: None,
        }),
{
    ApiResponse::Render {
        status: OK,
        template: Some(TemplateView::RegisterSuccess { name: "partials/components/register/success", username }),
        headers: None,
    }
}

} // verus!
