use community_hub::clock::Timestamp;
use community_hub::deletion_token::{
    CookieCheck, GuardOutcome, RequestDeletionJWT, TokenCookie, REQUEST_DELETION_JWT_NAME,
};

fn at(seconds: i64) -> Timestamp {
    Timestamp::from_unix(seconds, 0).unwrap()
}

#[test]
fn tokens_expire_after_five_minutes() {
    let jwt = RequestDeletionJWT::new_at(7, 9, at(1_000));
    assert_eq!(jwt.community_id, 7);
    assert_eq!(jwt.user_id, 9);
    assert_eq!(jwt.expires_in, at(1_300));
    let fresh = RequestDeletionJWT::new(1, 2);
    assert!(fresh.expires_in.unix_seconds() > 0);
}

#[test]
fn cookie_is_strict_and_secure() {
    let jwt = RequestDeletionJWT::new_at(7, 9, at(1_000));
    let cookie = jwt.to_cookie("{}".to_string());
    assert_eq!(cookie.name, REQUEST_DELETION_JWT_NAME);
    assert_eq!(cookie.value, "{}");
    assert_eq!(cookie.path, "/");
    assert!(cookie.secure && cookie.http_only && cookie.same_site_strict);
    assert_eq!(cookie.expires, at(1_300));
}

#[test]
fn cookie_step_rejects_missing_and_malformed() {
    assert_eq!(
        RequestDeletionJWT::check_cookie(TokenCookie::Absent),
        CookieCheck::Reject { remove_cookie: false, outcome: GuardOutcome::Forward(401) }
    );
    assert_eq!(
        RequestDeletionJWT::check_cookie(TokenCookie::Malformed),
        CookieCheck::Reject { remove_cookie: true, outcome: GuardOutcome::Forward(401) }
    );
    let jwt = RequestDeletionJWT::new_at(1, 2, at(0));
    assert_eq!(RequestDeletionJWT::check_cookie(TokenCookie::Parsed(jwt)), CookieCheck::IdentifyUser(jwt));
}

#[test]
fn user_step_checks_owner_and_expiry() {
    let jwt = RequestDeletionJWT::new_at(1, 2, at(0));
    assert_eq!(jwt.authorize(GuardOutcome::Success(2), at(299)), (GuardOutcome::Success(jwt), false));
    assert_eq!(
        jwt.authorize(GuardOutcome::Success(2), at(300)),
        (
            GuardOutcome::Error(
                401,
                "Your request has expired. Please submit another request for deletion.".to_string()
            ),
            true
        )
    );
    assert_eq!(jwt.authorize(GuardOutcome::Success(3), at(10)), (GuardOutcome::Forward(401), false));
    assert_eq!(jwt.authorize(GuardOutcome::Forward(404), at(10)), (GuardOutcome::Forward(404), false));
    assert_eq!(
        jwt.authorize(GuardOutcome::Error(400, "bad".to_string()), at(10)),
        (GuardOutcome::Error(400, "bad".to_string()), false)
    );
}
