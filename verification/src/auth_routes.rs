//! The fixed answers of the sign-in routes to a user who is already signed
//! in.

use vstd::prelude::*;
use vstd::string::*;
use crate::api::ApiResponse;
use crate::responses::FORBIDDEN;

verus! {

/// A login or sign-up submitted while signed in: 403 "You are already
/// logged in."
pub fn deny_post_request() -> (r: ApiResponse)
    ensures
        r == ApiResponse::String(FORBIDDEN, "You are already logged in."),
{
    ApiResponse::String(FORBIDDEN, "You are already logged in.")
}

/// A sign-in page asked for while signed in: a redirect to the homepage.
pub fn redirect() -> (r: ApiResponse)
    ensures
        r matches ApiResponse::Redirect(uri) && uri@ == "/homepage"@,
{
    ApiResponse::Redirect(String::from_str("/homepage"))
}

} // verus!
