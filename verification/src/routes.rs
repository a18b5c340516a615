//! The fixed answers of the routes that turn a request away or send it
//! elsewhere, for guests and for requests that no other route took.

use vstd::prelude::*;
use vstd::string::*;
use crate::api::ApiResponse;
use crate::htmx::{uri_reference_text, HtmxRedirect};
use crate::responses::{FORBIDDEN, OK, UNAUTHORIZED};

verus! {

/// A preview requested by a guest: 403 "You are not allowed to access this
/// resource."
pub fn deny_request() -> (r: ApiResponse)
    ensures
        r == ApiResponse::String(FORBIDDEN, "You are not allowed to access this resource."),
{
    ApiResponse::String(FORBIDDEN, "You are not allowed to access this resource.")
}

/// A creation submitted by a guest: 401 "You are not authorized to perform
/// this action."
pub fn deny_post_request() -> (r: ApiResponse)
    ensures
        r == ApiResponse::String(UNAUTHORIZED, "You are not authorized to perform this action."),
{
    ApiResponse::String(UNAUTHORIZED, "You are not authorized to perform this action.")
}

/// A search by a guest: 401 "Unauthorized".
pub fn deny_search() -> (r: ApiResponse)
    ensures
        r == ApiResponse::String(UNAUTHORIZED, "Unauthorized"),
{
    ApiResponse::String(UNAUTHORIZED, "Unauthorized")
}

/// The community search route: an empty 200 answer, whatever the search.
pub fn search_community(search: &str) -> (r: Result<ApiResponse, ApiResponse>)
    ensures
        r == Ok::<ApiResponse, ApiResponse>(ApiResponse::String(OK, "")),
{
    Ok(ApiResponse::String(OK, ""))
}

/// The homepage asked for by a guest: a redirect to the login page at
/// `login_uri`.
pub fn redirect(login_uri: &str) -> (r: ApiResponse)
    ensures
        r matches ApiResponse::Redirect(uri) && uri@ == login_uri@,
{
    ApiResponse::Redirect(String::from_str(login_uri))
}

/// A request that the login check turned away (401): a redirect to the
/// login page at `login_uri`.
pub fn unauthorized_catcher(login_uri: &str) -> (r: ApiResponse)
    ensures
        r matches ApiResponse::Redirect(uri) && uri@ == login_uri@,
{
    ApiResponse::Redirect(String::from_str(login_uri))
}

/// Logging out without a session, or after one was removed: an HTMX
/// redirect to the login page at `login_uri`.
pub fn deny_delete_request(login_uri: &str) -> (r: ApiResponse)
    ensures
        r matches ApiResponse::HtmxRedirect(redirect) && redirect.0 == OK && match redirect.1 {
            Some(text) => uri_reference_text(login_uri@) == Some(text@),
            None => uri_reference_text(login_uri@) is None,
        },
{
    ApiResponse::HtmxRedirect(HtmxRedirect::to(login_uri))
}

} // verus!
