//! The short-lived token that confirms a request to delete a community: how
//! it is issued, stored in a cookie and checked on the next request.

use vstd::prelude::*;
use vstd::string::*;
use crate::clock::{now_utc, representable, Timestamp, MAX_INSTANT_NANOS};
use crate::responses::UNAUTHORIZED;

verus! {

/// The name of the cookie that carries the token.
pub const REQUEST_DELETION_JWT_NAME: &'static str = "RequestDeletionJWT";

/// How long a token stays valid, in seconds.
pub const TOKEN_LIFETIME_SECONDS: u32 = 300;

/// A request by `user_id` to delete `community_id`, valid until `expires_in`.
#[derive(Clone, Copy, Debug, PartialEq, Eq)]
pub struct RequestDeletionJWT {
    pub community_id: i64,
    pub user_id: i64,
    pub expires_in: Timestamp,
}

/// The instant five minutes after `now`, saturating at the latest
/// representable instant.
pub open spec fn expiry_after(now: Timestamp) -> int {
    if now.total_nanos() + TOKEN_LIFETIME_SECONDS * 1_000_000_000 > MAX_INSTANT_NANOS {
        MAX_INSTANT_NANOS as int
    } else {
        now.total_nanos() + TOKEN_LIFETIME_SECONDS * 1_000_000_000
    }
}

/// The cookie that carries a token.
#[derive(Clone, Debug, PartialEq, Eq)]
pub struct CookieSpec {
    pub name: &'static str,
    pub value: String,
    pub path: &'static str,
    pub secure: bool,
    pub http_only: bool,
    /// Whether the cookie is sent on same-site requests only.
    pub same_site_strict: bool,
    pub expires: Timestamp,
}

/// The outcome of a request guard: the value, a forward to the next route
/// with a status, or a failure with a status and a message.
#[derive(Clone, Debug, PartialEq, Eq)]
pub enum GuardOutcome<T> {
    Success(T),
    Forward(u16),
    Error(u16, String),
}

/// What a request carried in the token cookie.
#[derive(Clone, Copy, Debug, PartialEq, Eq)]
pub enum TokenCookie {
    /// No cookie.
    Absent,
    /// A cookie whose value is not a token.
    Malformed,
    /// A cookie holding this token.
    Parsed(RequestDeletionJWT),
}

/// The first step of checking a request: reject it, possibly removing the
/// cookie, or go on to identify the user with the token at hand.
#[derive(Clone, Debug, PartialEq, Eq)]
pub enum CookieCheck {
    Reject { remove_cookie: bool, outcome: GuardOutcome<RequestDeletionJWT> },
    IdentifyUser(RequestDeletionJWT),
}

/// The message of an expired token.
pub open spec fn expired_message() -> Seq<char> {
    "Your request has expired. Please submit another request for deletion."@
}

impl RequestDeletionJWT {
    /// Whether `r` is the outcome of checking the token `jwt` for the user
    /// check `user` at the time `now`: accepted when it belongs to the user
    /// and has not expired; an expired token of the user fails as
    /// unauthorized with the cookie removed; another user's token is
    /// forwarded as unauthorized; a forward or failure of the user check is
    /// passed on.
    pub open spec fn authorization(
        jwt: RequestDeletionJWT,
        user: GuardOutcome<i64>,
        now: Timestamp,
        r: (GuardOutcome<RequestDeletionJWT>, bool),
    ) -> bool {
        match user {
            GuardOutcome::Success(user_id) => if jwt.user_id == user_id {
                if jwt.expires_in.total_nanos() > now.total_nanos() {
                    r == (GuardOutcome::Success(jwt), false)
                } else {
                    &&& r.1
                    &&& r.0 matches GuardOutcome::Error(status, message)
                    &&& status == UNAUTHORIZED
                    &&& message@ == expired_message()
                }
            } else {
                r == (GuardOutcome::<RequestDeletionJWT>::Forward(UNAUTHORIZED), false)
            },
            GuardOutcome::Forward(status) => r == (
                GuardOutcome::<RequestDeletionJWT>::Forward(status),
                false,
            ),
            GuardOutcome::Error(status, message) => r == (
                GuardOutcome::<RequestDeletionJWT>::Error(status, message),
                false,
            ),
        }
    }

    /// A token for `user_id` to delete `community_id`, issued at `now`.
    pub fn new_at(community_id: i64, user_id: i64, now: Timestamp) -> (r: RequestDeletionJWT)
        ensures
            r.community_id == community_id,
            r.user_id == user_id,
            r.expires_in.total_nanos() == expiry_after(now),
    {
        RequestDeletionJWT {
            community_id,
            user_id,
            expires_in: now.saturating_add_seconds(TOKEN_LIFETIME_SECONDS),
        }
    }

    /// A token for `user_id` to delete `community_id`, issued now.
    pub fn new(community_id: i64, user_id: i64) -> (r: RequestDeletionJWT)
        ensures
            r.community_id == community_id,
            r.user_id == user_id,
            exists|now: Timestamp|
                representable(now) && r.expires_in.total_nanos() == expiry_after(now),
    {
        let now = now_utc();
        RequestDeletionJWT::new_at(community_id, user_id, now)
    }

    /// The cookie carrying the token, whose value is the serialized token
    /// `serialized`: private to the site root, secure, HTTP-only, same-site
    /// strict, and expiring with the token.
    pub fn to_cookie(&self, serialized: String) -> (r: CookieSpec)
        ensures
            r.name == REQUEST_DELETION_JWT_NAME,
            r.value == serialized,
            r.path@ == "/"@,
            r.secure,
            r.http_only,
            r.same_site_strict,
            r.expires == self.expires_in,
    {
        CookieSpec {
            name: REQUEST_DELETION_JWT_NAME,
            value: serialized,
            path: "/",
            secure: true,
            http_only: true,
            same_site_strict: true,
            expires: self.expires_in,
        }
    }

    /// The first step of checking a request: without the cookie it is
    /// forwarded as unauthorized; with a cookie that holds no token it is
    /// forwarded as unauthorized and the cookie removed; with a token the
    /// user is identified next.
    pub fn check_cookie(cookie: TokenCookie) -> (r: CookieCheck)
        ensures
            match cookie {
                TokenCookie::Absent => r == CookieCheck::Reject {
                    remove_cookie: false,
                    outcome: GuardOutcome::Forward(UNAUTHORIZED),
                },
                TokenCookie::Malformed => r == CookieCheck::Reject {
                    remove_cookie: true,
                    outcome: GuardOutcome::Forward(UNAUTHORIZED),
                },
                TokenCookie::Parsed(jwt) => r == CookieCheck::IdentifyUser(jwt),
            },
    {
        match cookie {
            TokenCookie::Absent => CookieCheck::Reject {
                remove_cookie: false,
                outcome: GuardOutcome::Forward(UNAUTHORIZED),
            },
            TokenCookie::Malformed => CookieCheck::Reject {
                remove_cookie: true,
                outcome: GuardOutcome::Forward(UNAUTHORIZED),
            },
            TokenCookie::Parsed(jwt) => CookieCheck::IdentifyUser(jwt),
        }
    }

    /// The second step: given how the user was identified and the time
    /// `now`, the token is accepted when it belongs to the user and has not
    /// expired; an expired token of the user fails as unauthorized (and the
    /// cookie is removed); another user's token is forwarded as
    /// unauthorized; a forward or failure of the user check is passed on.
    /// The boolean says whether to remove the cookie.
    pub fn authorize(self, user: GuardOutcome<i64>, now: Timestamp) -> (r: (
        GuardOutcome<RequestDeletionJWT>,
        bool,
    ))
        ensures
            RequestDeletionJWT::authorization(self, user, now, r),
    {
        match user {
            GuardOutcome::Success(user_id) => {
                if self.user_id == user_id {
                    if self.expires_in.nanos_since(&now) > 0 {
                        (GuardOutcome::Success(self), false)
                    } else {
                        (
                            GuardOutcome::Error(
                                UNAUTHORIZED,
                                String::from_str(
                                    "Your request has expired. Please submit another request for deletion.",
                                ),
                            ),
                            true,
                        )
                    }
                } else {
                    (GuardOutcome::Forward(UNAUTHORIZED), false)
                }
            },
            GuardOutcome::Forward(status) => (GuardOutcome::Forward(status), false),
            GuardOutcome::Error(status, message) => (GuardOutcome::Error(status, message), false),
        }
    }
}

/// A token is honoured for the user it was issued to for five minutes: a
/// check within five minutes of issue accepts it, and a check five minutes
/// or more after issue rejects it as expired (away from the latest
/// representable instant, where expiry saturates).
pub proof fn lemma_token_valid_for_five_minutes(
    jwt: RequestDeletionJWT,
    issued: Timestamp,
    checked: Timestamp,
    r: (GuardOutcome<RequestDeletionJWT>, bool),
)
    requires
        jwt.expires_in.total_nanos() == expiry_after(issued),
        issued.total_nanos() + TOKEN_LIFETIME_SECONDS * 1_000_000_000 <= MAX_INSTANT_NANOS,
        RequestDeletionJWT::authorization(jwt, GuardOutcome::Success(jwt.user_id), checked, r),
    ensures
        checked.total_nanos() < issued.total_nanos() + TOKEN_LIFETIME_SECONDS * 1_000_000_000 ==> r
            == (GuardOutcome::Success(jwt), false),
        checked.total_nanos() >= issued.total_nanos() + TOKEN_LIFETIME_SECONDS * 1_000_000_000 ==> (
        r.1 && (r.0 matches GuardOutcome::Error(status, _) && status == UNAUTHORIZED)),
{
}

/// A token is never accepted for another user.
pub proof fn lemma_token_bound_to_user(
    jwt: RequestDeletionJWT,
    user_id: i64,
    now: Timestamp,
    r: (GuardOutcome<RequestDeletionJWT>, bool),
)
    requires
        jwt.user_id != user_id,
        RequestDeletionJWT::authorization(jwt, GuardOutcome::Success(user_id), now, r),
    ensures
        r == (GuardOutcome::<RequestDeletionJWT>::Forward(UNAUTHORIZED), false),
{
}

} // verus!
