use community_hub::api::ApiResponse;
use community_hub::recaptcha::{
    check_token_present, recaptcha_verdict, relay_siteverify, siteverify_request_body,
    RecaptchaErrorCodes, RecaptchaResponse, SiteverifyOutcome,
};

fn failed(codes: Option<&[&str]>) -> RecaptchaResponse {
    RecaptchaResponse {
        success: false,
        challenge_ts: None,
        hostname: None,
        error_codes: codes.map(|cs| cs.iter().map(|c| c.to_string()).collect()),
    }
}

#[test]
fn empty_token_is_refused() {
    assert_eq!(
        check_token_present(""),
        Err(ApiResponse::String(401, "Please verify that you're not a robot."))
    );
    assert_eq!(check_token_present("abc"), Ok(()));
}

#[test]
fn request_body_is_form_encoded() {
    assert_eq!(siteverify_request_body("s3cret", "tok"), "secret=s3cret&response=tok");
}

#[test]
fn verdict_prefers_timeout_then_missing_then_bad_request() {
    let ok = RecaptchaResponse { success: true, challenge_ts: None, hostname: Some("h".into()), error_codes: None };
    assert_eq!(recaptcha_verdict(ok.clone()), Ok(ok));
    assert_eq!(
        recaptcha_verdict(failed(None)),
        Err(ApiResponse::String(401, "Please verify that you are not a robot."))
    );
    assert!(matches!(
        recaptcha_verdict(failed(Some(&["bad-request", "timeout-or-duplicate"]))),
        Err(ApiResponse::String(429, _))
    ));
    assert_eq!(
        recaptcha_verdict(failed(Some(&["bad-request", "missing-input-response"]))),
        Err(ApiResponse::String(401, "Please verify that you are not a robot."))
    );
    assert_eq!(
        recaptcha_verdict(failed(Some(&["bad-request"]))),
        Err(ApiResponse::String(400, "Something went wrong. Please retake the reCaptcha."))
    );
    assert_eq!(
        recaptcha_verdict(failed(Some(&["invalid-input-secret"]))),
        Err(ApiResponse::String(500, "Something went wrong."))
    );
    assert_eq!(RecaptchaErrorCodes::TimeoutOrDuplicate.as_str(), "timeout-or-duplicate");
}

#[test]
fn relayed_answers_pass_only_on_200() {
    assert_eq!(
        relay_siteverify(SiteverifyOutcome::Answered { status: 200, body: Some("{}".into()) }),
        ApiResponse::StringDynamic(200, "{}".into())
    );
    let unable = ApiResponse::String(500, "Unable to verify.");
    assert_eq!(relay_siteverify(SiteverifyOutcome::Answered { status: 200, body: None }), unable);
    assert_eq!(relay_siteverify(SiteverifyOutcome::Answered { status: 503, body: Some("x".into()) }), unable);
    assert_eq!(relay_siteverify(SiteverifyOutcome::NoSecret), unable);
    assert_eq!(relay_siteverify(SiteverifyOutcome::RequestFailed), unable);
}
