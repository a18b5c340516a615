use community_hub::api::ApiResponse as PageResponse;
use community_hub::flows::DbResult;
use community_hub::pages::{about_after_lookup, about_after_owner, user_preview_after_lookup, AboutPage, CommunityAbout, PreviewFailure};
use community_hub::responders::ApiResponse;
use community_hub::responses::{TemplateView, Toast, ToastTypes, UserJWT};

fn rustaceans() -> CommunityAbout {
    CommunityAbout { uid: "c-1".to_string(), display_name: "Rustaceans".to_string(), description: None, owner_id: 7 }
}

#[test]
fn about_page_steps() {
    assert_eq!(
        about_after_lookup("c-1".to_string(), DbResult::Failed),
        Err(AboutPage::ServerError { status: 500, name: "community/500" })
    );
    assert_eq!(
        about_after_lookup("c-1".to_string(), DbResult::Value(None)),
        Err(AboutPage::NotFound { status: 404, name: "community/404", uid: "c-1".to_string() })
    );
    assert_eq!(about_after_lookup("c-1".to_string(), DbResult::Value(Some(rustaceans()))), Ok(rustaceans()));
    assert_eq!(
        about_after_owner(rustaceans(), DbResult::Failed),
        AboutPage::ServerError { status: 500, name: "community/500" }
    );
    assert_eq!(
        about_after_owner(rustaceans(), DbResult::Value("u-7".to_string())),
        AboutPage::About {
            name: "community/about/index",
            title: "Rustaceans".to_string(),
            owner_uid: "u-7".to_string(),
            community: rustaceans(),
        }
    );
}

#[test]
fn user_card_steps() {
    assert_eq!(
        user_preview_after_lookup(DbResult::Failed),
        Err(PreviewFailure::Plain(PageResponse::String(500, "Something went wrong.")))
    );
    assert_eq!(
        user_preview_after_lookup(DbResult::Value(None)),
        Err(PreviewFailure::Rendered(ApiResponse::Render {
            status: 404,
            template: Some(TemplateView::Toast {
                name: "partials/components/toast",
                toast: Toast { message: "User not found.".to_string(), toast_type: Some(ToastTypes::Error) },
            }),
            headers: None,
        }))
    );
    let ann = UserJWT { id: 1, uid: "u-1".to_string(), display_name: "ann".to_string(), display_image: Some("a.png".to_string()) };
    assert_eq!(
        user_preview_after_lookup(DbResult::Value(Some(ann))),
        Ok(PageResponse::Template(TemplateView::UserCard {
            name: "partials/components/users/img_name_info",
            display_name: "ann".to_string(),
            display_image: Some("a.png".to_string()),
        }))
    );
}
