//! The decisions of the pages that look a community or a user up: the
//! caller runs each lookup and hands its outcome to the next step.

use vstd::prelude::*;
use vstd::string::*;
use crate::api::{service_error_response, ApiResponse as PageResponse, ServiceError};
use crate::flows::DbResult;
use crate::responders::{is_error_toast_render, ApiResponse};
use crate::responses::{error_toast, TemplateView, UserJWT, INTERNAL_SERVER_ERROR, NOT_FOUND};

verus! {

/// What the about page shows of a community.
#[derive(Clone, Debug, PartialEq, Eq)]
pub struct CommunityAbout {
    pub uid: String,
    pub display_name: String,
    pub description: Option<String>,
    pub owner_id: i64,
}

/// The template of a community lookup that failed.
pub const COMMUNITY_ERROR_TEMPLATE: &'static str = "community/500";

/// The template of an unknown community.
pub const COMMUNITY_NOT_FOUND_TEMPLATE: &'static str = "community/404";

/// The template of a community's about page.
pub const COMMUNITY_ABOUT_TEMPLATE: &'static str = "community/about/index";

/// The about page of a community, or why it cannot be shown.
#[derive(Clone, Debug, PartialEq, Eq)]
pub enum AboutPage {
    /// A lookup failed: `status` with the template `name`.
    ServerError { status: u16, name: &'static str },
    /// No community has the id `uid`: `status` with the template `name`.
    NotFound { status: u16, name: &'static str, uid: String },
    /// The page `name`, titled `title`, of `community`, whose owner has the
    /// public id `owner_uid`.
    About { name: &'static str, title: String, owner_uid: String, community: CommunityAbout },
}

/// The about page, once the community with the public id `uid` was looked
/// up: a failed lookup gives status 500 with `community/500`, an unknown
/// community status 404 with `community/404` and the id, a found one goes
/// on.
pub fn about_after_lookup(uid: String, found: DbResult<Option<CommunityAbout>>) -> (r: Result<
    CommunityAbout,
    AboutPage,
>)
    ensures
        found is Failed ==> r == Err::<CommunityAbout, AboutPage>(
            AboutPage::ServerError { status: INTERNAL_SERVER_ERROR, name: COMMUNITY_ERROR_TEMPLATE },
        ),
        found == DbResult::Value(None::<CommunityAbout>) ==> r == Err::<CommunityAbout, AboutPage>(
            AboutPage::NotFound { status: NOT_FOUND, name: COMMUNITY_NOT_FOUND_TEMPLATE, uid },
        ),
        found matches DbResult::Value(Some(c)) ==> r == Ok::<CommunityAbout, AboutPage>(c),
{
    match found {
        DbResult::Failed => Err(
            AboutPage::ServerError { status: INTERNAL_SERVER_ERROR, name: COMMUNITY_ERROR_TEMPLATE },
        ),
        DbResult::Value(None) => Err(
            AboutPage::NotFound { status: NOT_FOUND, name: COMMUNITY_NOT_FOUND_TEMPLATE, uid },
        ),
        DbResult::Value(Some(c)) => Ok(c),
    }
}

/// The about page, once the public id of the community's owner was looked
/// up: a failed lookup gives status 500 with `community/500`, else the page
/// `community/about/index` titled with the community's name, with the
/// owner's id.
pub fn about_after_owner(c: CommunityAbout, owner: DbResult<String>) -> (r: AboutPage)
    ensures
        owner is Failed ==> r == (AboutPage::ServerError {
            status: INTERNAL_SERVER_ERROR,
            name: COMMUNITY_ERROR_TEMPLATE,
        }),
        owner matches DbResult::Value(owner_uid) ==> r matches AboutPage::About {
            name,
            title,
            owner_uid: o,
            community,
        } && name == COMMUNITY_ABOUT_TEMPLATE && title@ == c.display_name@ && o == owner_uid
            && community == c,
{
    match owner {
        DbResult::Failed => AboutPage::ServerError {
            status: INTERNAL_SERVER_ERROR,
            name: COMMUNITY_ERROR_TEMPLATE,
        },
        DbResult::Value(owner_uid) => {
            let title = c.display_name.clone();
            AboutPage::About { name: COMMUNITY_ABOUT_TEMPLATE, title, owner_uid, community: c }
        },
    }
}

/// Why a user's card cannot be shown: a plain answer, or a rendered one.
#[derive(Clone, Debug, PartialEq, Eq)]
pub enum PreviewFailure {
    Plain(PageResponse),
    Rendered(ApiResponse),
}

/// The template of a user's card.
pub const USER_CARD_TEMPLATE: &'static str = "partials/components/users/img_name_info";

/// A user's card, once the user was looked up by public id: a failed lookup
/// is answered as a failed database call (500 "Something went wrong."), an
/// unknown user with status 404 and the toast "User not found.", a found
/// one with its name and picture.
pub fn user_preview_after_lookup(user: DbResult<Option<UserJWT>>) -> (r: Result<
    PageResponse,
    PreviewFailure,
>)
    ensures
        user is Failed ==> r == Err::<PageResponse, PreviewFailure>(
            PreviewFailure::Plain(service_error_response(ServiceError::Sqlx)),
        ),
        user == DbResult::Value(None::<UserJWT>) ==> (r matches Err(PreviewFailure::Rendered(resp))
            && is_error_toast_render(
            resp,
            NOT_FOUND,
            "partials/components/toast"@,
            "User not found."@,
        )),
        user matches DbResult::Value(Some(u)) ==> r == Ok::<PageResponse, PreviewFailure>(
            PageResponse::Template(
                TemplateView::UserCard {
                    name: USER_CARD_TEMPLATE,
                    display_name: u.display_name,
                    display_image: u.display_image,
                },
            ),
        ),
{
    match user {
        DbResult::Failed => Err(PreviewFailure::Plain(PageResponse::from(ServiceError::Sqlx))),
        DbResult::Value(None) => Err(
            PreviewFailure::Rendered(
                ApiResponse::Render {
                    status: NOT_FOUND,
                    template: Some(
                        TemplateView::Toast {
                            name: "partials/components/toast",
                            toast: error_toast(String::from_str("User not found.")),
                        },
                    ),
                    headers: None,
                },
            ),
        ),
        DbResult::Value(Some(u)) => Ok(
            PageResponse::Template(
                TemplateView::UserCard {
                    name: USER_CARD_TEMPLATE,
                    display_name: u.display_name,
                    display_image: u.display_image,
                },
            ),
        ),
    }
}

} // verus!
