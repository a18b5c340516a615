use community_hub::api::{ApiResponse, HttpClientError, ResponsePlan, ServiceError};
use community_hub::htmx::{HtmxRedirect, HtmxRefresh, IsBoosted, IsHTMX, ResponseParts};
use community_hub::responders::{ApiResponse as RenderResponse, FailureSource};
use community_hub::responses::{TemplateView, Toast, ToastTypes};

fn parts(status: u16, headers: &[(&str, &str)], body: Option<&str>) -> ResponsePlan {
    ResponsePlan::Send(ResponseParts {
        status,
        headers: headers.iter().map(|(n, v)| (n.to_string(), v.to_string())).collect(),
        body: body.map(|b| b.to_string()),
    })
}

#[test]
fn htmx_flags_need_exactly_true() {
    assert_eq!(IsBoosted::from_header(Some("true")), IsBoosted(true));
    assert_eq!(IsBoosted::from_header(Some("True")), IsBoosted(false));
    assert_eq!(IsBoosted::from_header(None), IsBoosted(false));
    assert_eq!(IsHTMX::from_header(Some("true")), IsHTMX(true));
    assert_eq!(IsHTMX::from_header(Some("false")), IsHTMX(false));
}

#[test]
fn htmx_redirect_keeps_valid_targets() {
    let ok = HtmxRedirect::to("/homepage");
    assert_eq!(ok, HtmxRedirect(200, Some("/homepage".to_string())));
    let bad = HtmxRedirect::to("foo bar");
    assert_eq!(bad, HtmxRedirect(200, None));
    assert_eq!(bad.respond_to(), Err(500));
    let sent = ok.respond_to().unwrap();
    assert_eq!(sent.status, 200);
    assert_eq!(sent.headers, vec![("HX-Redirect".to_string(), "/homepage".to_string())]);
    assert_eq!(sent.body, None);
}

#[test]
fn htmx_refresh_resets_content() {
    let sent = HtmxRefresh.respond_to().unwrap();
    assert_eq!(sent.status, 205);
    assert_eq!(sent.headers, vec![("HX-Refresh".to_string(), "true".to_string())]);
}

#[test]
fn api_responses_are_sent_as_described() {
    assert_eq!(ApiResponse::String(403, "nope").respond_to(), parts(403, &[], Some("nope")));
    assert_eq!(
        ApiResponse::StringDynamic(200, "text".to_string()).respond_to(),
        parts(200, &[], Some("text"))
    );
    assert_eq!(
        ApiResponse::CustomHTML(422, "text/html".to_string(), "<p/>".to_string()).respond_to(),
        parts(422, &[("Content-Type", "text/html")], Some("<p/>"))
    );
    assert_eq!(ApiResponse::NoContent.respond_to(), parts(204, &[], None));
    assert_eq!(
        ApiResponse::Created("/c/1".to_string(), None).respond_to(),
        parts(201, &[("Location", "/c/1")], None)
    );
    assert_eq!(
        ApiResponse::Created("/c/1".to_string(), Some(("text/html".to_string(), "hi".to_string())))
            .respond_to(),
        parts(201, &[("Location", "/c/1"), ("Content-Type", "text/html")], Some("hi"))
    );
    assert_eq!(
        ApiResponse::Redirect("/login".to_string()).respond_to(),
        ResponsePlan::RedirectTo("/login".to_string())
    );
    assert_eq!(
        ApiResponse::HtmxRedirect(HtmxRedirect(200, None)).respond_to(),
        ResponsePlan::Fail(500)
    );
    assert_eq!(
        ApiResponse::HtmxRefresh(HtmxRefresh).respond_to(),
        parts(205, &[("HX-Refresh", "true")], None)
    );
    let view = TemplateView::Toast {
        name: "partials/toast",
        toast: Toast { message: "m".to_string(), toast_type: Some(ToastTypes::Info) },
    };
    assert_eq!(
        ApiResponse::Template(view.clone()).respond_to(),
        ResponsePlan::RenderTemplate(view)
    );
}

#[test]
fn service_failures_have_fixed_answers() {
    assert_eq!(
        ApiResponse::from(ServiceError::Dotenv),
        ApiResponse::String(500, "Misconfiguration: Please contact the site owner.")
    );
    assert_eq!(
        ApiResponse::from(ServiceError::SerdeJson),
        ApiResponse::String(400, "Invalid or malformed request.")
    );
    for source in [ServiceError::CloudStorage, ServiceError::Io, ServiceError::Sqlx, ServiceError::Bcrypt] {
        assert_eq!(ApiResponse::from(source), ApiResponse::String(500, "Something went wrong."));
    }
    assert_eq!(RenderResponse::from(FailureSource::ParseInt), RenderResponse::Status(415));
    assert_eq!(RenderResponse::from(FailureSource::SerdeJson), RenderResponse::Status(422));
    assert_eq!(RenderResponse::from(FailureSource::Boxed), RenderResponse::Status(500));
}

#[test]
fn failed_requests_are_answered_by_status() {
    let err = |is_redirect: bool, url: Option<&str>, status: Option<u16>| {
        ApiResponse::from(HttpClientError { is_redirect, url: url.map(|u| u.to_string()), status })
    };
    assert_eq!(err(true, Some("https://x.test/"), Some(302)), ApiResponse::Redirect("https://x.test/".to_string()));
    assert_eq!(err(true, None, None), ApiResponse::String(500, "Something went wrong."));
    assert_eq!(err(false, Some("https://x.test/"), Some(404)),
        ApiResponse::String(404, "The resource you are looking for does not exist."));
    assert_eq!(err(false, None, Some(418)), ApiResponse::String(418, "I'm a teapot."));
    assert_eq!(err(false, None, Some(507)), ApiResponse::String(507, "Something went wrong."));
    assert_eq!(err(false, None, Some(429)),
        ApiResponse::String(429, "Too many requests in a given amount of time."));
    assert_eq!(err(false, None, Some(301)),
        ApiResponse::String(301, "The resource has been moved permanently to a different location."));
    assert_eq!(err(false, None, Some(500)), ApiResponse::String(500, "Something went wrong."));
    assert_eq!(err(false, None, Some(302)), ApiResponse::String(500, "Something went wrong."));
}
