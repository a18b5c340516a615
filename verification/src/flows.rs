//! The steps of the three form submissions that talk to the database:
//! signing up, logging in and creating a community. The caller runs each
//! database call and hands its outcome to the next step, which decides what
//! to do or how to answer.

use vstd::prelude::*;
use vstd::string::*;
use crate::api::ApiResponse as PageResponse;
use crate::auth::{
    bcrypt_verify_outcome, check_credentials, check_username_available, credentials_decision,
    hash_password, login_success, register_success, session_cookie_failure,
};
use crate::community::{check_community_name_available, community_creation_failure};
use crate::error_toasts::{default_failure_message, sqlx_error_to_api_response};
use crate::create_community_error::CREATE_COMMUNITY_ERROR_TEMPLATE;
use crate::register_error::REGISTER_ERROR_TEMPLATE;
use crate::htmx::uri_reference_text;
use crate::responders::{is_error_toast_render, ApiResponse};
use crate::responses::{
    TemplateView, UserJWT, CONFLICT, INTERNAL_SERVER_ERROR, OK, UNPROCESSABLE_ENTITY,
};

verus! {

/// What a database call gave back: its value, or a failure.
#[derive(Clone, Debug, PartialEq, Eq)]
pub enum DbResult<T> {
    Value(T),
    Failed,
}

/// How storing a user's session went: the session cookie is ready, a
/// database call failed, or the cookie could not be serialized.
#[derive(Clone, Copy, Debug, PartialEq, Eq, Structural)]
pub enum SessionOutcome {
    Ready,
    DatabaseFailed,
    CookieFailed,
}

/// The user to store once a sign-up's name is known to be free.
#[derive(Clone, Debug, PartialEq, Eq)]
pub struct NewUser {
    pub display_name: String,
    pub gender: String,
    pub password_hash: String,
}

/// The template shown once a community is created.
pub const COMMUNITY_CREATED_TEMPLATE: &'static str =
    "partials/components/community/create-community-success";

/// Whether `r` is the 500 toast of a failed database call with `message`.
pub open spec fn database_failure(r: ApiResponse, message: Seq<char>) -> bool {
    is_error_toast_render(r, INTERNAL_SERVER_ERROR, "partials/toast"@, message)
}

/// Whether `r` is the 422 toast of a session cookie that could not be
/// serialized.
pub open spec fn cookie_failure(r: ApiResponse) -> bool {
    is_error_toast_render(
        r,
        UNPROCESSABLE_ENTITY,
        "partials/components/toast"@,
        default_failure_message(),
    )
}

/// Whether `r` shows the registration form with "Please choose a different
/// username" on the name field, status 409.
pub open spec fn username_taken(r: ApiResponse) -> bool {
    &&& r matches ApiResponse::Render {
        status,
        template: Some(
            TemplateView::RegisterErrors {
                name,
                name_error: Some(n),
                password_error: None,
                gender_error: None,
                toast: None,
            },
        ),
        headers: None,
    }
    &&& status == CONFLICT
    &&& name == REGISTER_ERROR_TEMPLATE
    &&& n@ == "Please choose a different username"@
}

/// Whether `r` shows the community form with "Please choose a different
/// name" on the name field, status 409.
pub open spec fn community_name_taken(r: ApiResponse) -> bool {
    &&& r matches ApiResponse::Render {
        status,
        template: Some(
            TemplateView::CreateCommunityErrors {
                name,
                community_name_error: Some(n),
                description_error: None,
                toast: None,
            },
        ),
        headers: None,
    }
    &&& status == CONFLICT
    &&& name == CREATE_COMMUNITY_ERROR_TEMPLATE
    &&& n@ == "Please choose a different name"@
}

/// The message of a failed community creation.
pub open spec fn community_failure_message() -> Seq<char> {
    "Failed to create community. Please try again later"@
}

/// Whether `r` is what a sign-up of `display_name` and `gender` with a free
/// name gives when hashing `password` gave `hashed`: a hash that accepts
/// the password becomes the new user's, a failed hash (the 500 toast) is
/// the answer.
pub open spec fn signed_up_with(
    display_name: String,
    gender: String,
    password: Seq<char>,
    hashed: Result<String, ApiResponse>,
    r: Result<NewUser, ApiResponse>,
) -> bool {
    &&& hashed matches Ok(h) ==> bcrypt_verify_outcome(password, h@) == Some(true)
    &&& hashed matches Err(e) ==> database_failure(e, default_failure_message())
    &&& r == match hashed {
        Ok(h) => Ok::<NewUser, ApiResponse>((NewUser { display_name, gender, password_hash: h })),
        Err(e) => Err::<NewUser, ApiResponse>(e),
    }
}

/// A sign-up with a free name, once the password was hashed (or hashing
/// failed with the answer `hashed` holds): the user to store carries the
/// hash; a failed hash is answered as it failed.
pub fn sign_up_with_hash(display_name: String, gender: String, hashed: Result<String, ApiResponse>) -> (r:
    Result<NewUser, ApiResponse>)
    ensures
        hashed matches Ok(h) ==> r == Ok::<NewUser, ApiResponse>(
            (NewUser { display_name, gender, password_hash: h }),
        ),
        hashed matches Err(e) ==> r == Err::<NewUser, ApiResponse>(e),
{
    match hashed {
        Ok(password_hash) => Ok(NewUser { display_name, gender, password_hash }),
        Err(e) => Err(e),
    }
}

/// A sign-up, once the lookup of whether `display_name` is taken came back:
/// a failed lookup gives the 500 toast, a taken name the 409 form error;
/// a free name has the password hashed and goes on as `sign_up_with_hash`
/// decides for the hash that came back: the user to store, whose hash
/// accepts `password`, or the 500 toast when hashing failed.
pub fn sign_up_after_name_lookup(
    display_name: String,
    password: &str,
    gender: String,
    name_taken: DbResult<bool>,
) -> (r: Result<NewUser, ApiResponse>)
    ensures
        name_taken is Failed ==> (r matches Err(resp) && database_failure(
            resp,
            default_failure_message(),
        )),
        name_taken == DbResult::Value(true) ==> (r matches Err(resp) && username_taken(resp)),
        name_taken == DbResult::Value(false) ==> match r {
            Ok(user) => user.display_name == display_name && user.gender == gender
                && bcrypt_verify_outcome(password@, user.password_hash@) == Some(true),
            Err(resp) => database_failure(resp, default_failure_message()),
        },
        name_taken == DbResult::Value(false) ==> exists|hashed: Result<String, ApiResponse>|
            #[trigger] signed_up_with(display_name, gender, password@, hashed, r),
{
    match name_taken {
        DbResult::Failed => Err(sqlx_error_to_api_response(None)),
        DbResult::Value(taken) => {
            check_username_available(taken)?;
            let hashed = hash_password(password);
            let ghost h = hashed;
            let ghost (n, g) = (display_name, gender);
            let r = sign_up_with_hash(display_name, gender, hashed);
            assert(signed_up_with(n, g, password@, h, r));
            r
        },
    }
}

/// A sign-up, once the user, its metadata, its credentials and its session
/// cookie were stored: the registration-success page with the new user's
/// name, or the toast of what failed.
pub fn sign_up_after_store(display_name: String, outcome: SessionOutcome) -> (r: Result<
    ApiResponse,
    ApiResponse,
>)
    ensures
        outcome == SessionOutcome::Ready ==> r == Ok::<ApiResponse, ApiResponse>(
            ApiResponse::Render {
                status: OK,
                template: Some(
                    TemplateView::RegisterSuccess {
                        name: "partials/components/register/success",
                        username: display_name,
                    },
                ),
                headers: None,
            },
        ),
        outcome == SessionOutcome::DatabaseFailed ==> (r matches Err(resp) && database_failure(
            resp,
            default_failure_message(),
        )),
        outcome == SessionOutcome::CookieFailed ==> (r matches Err(resp) && cookie_failure(resp)),
{
    match outcome {
        SessionOutcome::Ready => Ok(register_success(display_name)),
        SessionOutcome::DatabaseFailed => Err(sqlx_error_to_api_response(None)),
        SessionOutcome::CookieFailed => Err(session_cookie_failure()),
    }
}

/// A login, once the stored password hash of the user came back (none when
/// there is no such user): a failed lookup gives the 500 toast, else the
/// typed `password` is checked against it.
pub fn log_in_after_hash_lookup(password_hash: DbResult<Option<String>>, password: &str) -> (r: Result<
    (),
    ApiResponse,
>)
    ensures
        password_hash is Failed ==> (r matches Err(resp) && database_failure(
            resp,
            default_failure_message(),
        )),
        password_hash matches DbResult::Value(h) ==> credentials_decision(
            match h {
                Some(t) => Some(t@),
                None => None,
            },
            password@,
            r,
        ),
{
    match password_hash {
        DbResult::Failed => Err(sqlx_error_to_api_response(None)),
        DbResult::Value(hash) => match hash {
            Some(h) => check_credentials(Some(h.as_str()), password),
            None => check_credentials(None, password),
        },
    }
}

/// A login, once the user's session cookie was built: the HTMX redirect to
/// the homepage, or the toast of what failed.
pub fn log_in_after_session(outcome: SessionOutcome) -> (r: Result<PageResponse, ApiResponse>)
    ensures
        outcome == SessionOutcome::Ready ==> (r matches Ok(PageResponse::HtmxRedirect(redirect))
            && redirect.0 == OK && match redirect.1 {
            Some(text) => uri_reference_text("/homepage"@) == Some(text@),
            None => uri_reference_text("/homepage"@) is None,
        }),
        outcome == SessionOutcome::DatabaseFailed ==> (r matches Err(resp) && database_failure(
            resp,
            default_failure_message(),
        )),
        outcome == SessionOutcome::CookieFailed ==> (r matches Err(resp) && cookie_failure(resp)),
{
    match outcome {
        SessionOutcome::Ready => Ok(login_success()),
        SessionOutcome::DatabaseFailed => Err(sqlx_error_to_api_response(None)),
        SessionOutcome::CookieFailed => Err(session_cookie_failure()),
    }
}

/// A community creation, once the lookup of whether its name is taken came
/// back: a failed lookup gives the 500 toast, a taken name the 409 form
/// error, a free name goes on.
pub fn create_community_after_name_lookup(name_taken: DbResult<bool>) -> (r: Result<(), ApiResponse>)
    ensures
        name_taken is Failed ==> (r matches Err(resp) && database_failure(
            resp,
            community_failure_message(),
        )),
        name_taken == DbResult::Value(true) ==> (r matches Err(resp) && community_name_taken(resp)),
        name_taken == DbResult::Value(false) ==> r is Ok,
{
    match name_taken {
        DbResult::Failed => Err(community_creation_failure()),
        DbResult::Value(taken) => check_community_name_available(taken),
    }
}

/// A community creation, once the community was stored (its new id) or
/// not: the confirmation with the community's name and id and the user, or
/// the 500 toast.
pub fn create_community_after_store(community_name: String, created: DbResult<String>, user: UserJWT) -> (r:
    Result<PageResponse, ApiResponse>)
    ensures
        created matches DbResult::Value(uid) ==> r == Ok::<PageResponse, ApiResponse>(
            PageResponse::Template(
                TemplateView::CommunityCreated {
                    name: COMMUNITY_CREATED_TEMPLATE,
                    community_name,
                    community_uid: uid,
                    user,
                },
            ),
        ),
        created is Failed ==> (r matches Err(resp) && database_failure(
            resp,
            community_failure_message(),
        )),
{
    match created {
        DbResult::Value(uid) => Ok(
            PageResponse::Template(
                TemplateView::CommunityCreated {
                    name: COMMUNITY_CREATED_TEMPLATE,
                    community_name,
                    community_uid: uid,
                    user,
                },
            ),
        ),
        DbResult::Failed => Err(community_creation_failure()),
    }
}

} // verus!
