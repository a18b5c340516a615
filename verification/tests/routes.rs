use community_hub::api::ApiResponse;
use community_hub::{auth_routes, routes};

#[test]
fn guests_are_turned_away() {
    assert_eq!(routes::deny_request(), ApiResponse::String(403, "You are not allowed to access this resource."));
    assert_eq!(routes::deny_post_request(), ApiResponse::String(401, "You are not authorized to perform this action."));
    assert_eq!(routes::deny_search(), ApiResponse::String(401, "Unauthorized"));
    assert_eq!(routes::search_community("anything"), Ok(ApiResponse::String(200, "")));
    assert_eq!(routes::redirect("/auth/login"), ApiResponse::Redirect("/auth/login".to_string()));
    assert_eq!(routes::unauthorized_catcher("/auth/login"), ApiResponse::Redirect("/auth/login".to_string()));
    match routes::deny_delete_request("/auth/login") {
        ApiResponse::HtmxRedirect(redirect) => {
            assert_eq!(redirect.0, 200);
            assert_eq!(redirect.1.as_deref(), Some("/auth/login"));
        }
        other => panic!("unexpected {:?}", other),
    }
}

#[test]
fn signed_in_users_are_sent_home() {
    assert_eq!(auth_routes::deny_post_request(), ApiResponse::String(403, "You are already logged in."));
    assert_eq!(auth_routes::redirect(), ApiResponse::Redirect("/homepage".to_string()));
}
