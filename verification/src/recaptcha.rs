//! reCAPTCHA token checks: what is sent to Google's `siteverify` endpoint and
//! how its answer is judged.

use vstd::prelude::*;
use vstd::string::*;
use crate::api::ApiResponse;
use crate::responses::{BAD_REQUEST, INTERNAL_SERVER_ERROR, OK, TOO_MANY_REQUESTS, UNAUTHORIZED};

verus! {

/// The endpoint that verifies reCAPTCHA tokens.
pub const SITEVERIFY_URL: &'static str = "https://www.google.com/recaptcha/api/siteverify";

/// The answer of the `siteverify` endpoint.
#[derive(Clone, Debug, PartialEq, Eq)]
pub struct RecaptchaResponse {
    pub success: bool,
    pub challenge_ts: Option<String>,
    pub hostname: Option<String>,
    pub error_codes: Option<Vec<String>>,
}

/// The error codes the `siteverify` endpoint may report.
#[derive(Clone, Copy, Debug, PartialEq, Eq, Structural)]
pub enum RecaptchaErrorCodes {
    MissingInputSecret,
    InvalidInputSecret,
    MissingResponse,
    InvalidInputResponse,
    BadRequest,
    TimeoutOrDuplicate,
}

/// The text of an error code, as the endpoint reports it.
pub open spec fn error_code_text(code: RecaptchaErrorCodes) -> Seq<char> {
    match code {
        RecaptchaErrorCodes::MissingInputSecret => "missing-input-secret"@,
        RecaptchaErrorCodes::InvalidInputSecret => "invalid-input-secret"@,
        RecaptchaErrorCodes::MissingResponse => "missing-input-response"@,
        RecaptchaErrorCodes::InvalidInputResponse => "invalid-input-response"@,
        RecaptchaErrorCodes::BadRequest => "bad-request"@,
        RecaptchaErrorCodes::TimeoutOrDuplicate => "timeout-or-duplicate"@,
    }
}

impl RecaptchaErrorCodes {
    /// The text of the error code.
    pub fn as_str(self) -> (r: &'static str)
        ensures
            r@ == error_code_text(self),
    {
        match self {
            RecaptchaErrorCodes::MissingInputSecret => "missing-input-secret",
            RecaptchaErrorCodes::InvalidInputSecret => "invalid-input-secret",
            RecaptchaErrorCodes::MissingResponse => "missing-input-response",
            RecaptchaErrorCodes::InvalidInputResponse => "invalid-input-response",
            RecaptchaErrorCodes::BadRequest => "bad-request",
            RecaptchaErrorCodes::TimeoutOrDuplicate => "timeout-or-duplicate",
        }
    }
}

/// Whether `codes` holds the error code `code`.
pub open spec fn has_code(codes: Seq<String>, code: RecaptchaErrorCodes) -> bool {
    exists|i: int| 0 <= i < codes.len() && #[trigger] codes[i]@ == error_code_text(code)
}

fn contains_code(codes: &Vec<String>, code: RecaptchaErrorCodes) -> (r: bool)
    ensures
        r == has_code(codes@, code),
{
    let text = String::from_str(code.as_str());
    let mut i: usize = 0;
    while i < codes.len()
        invariant
            0 <= i <= codes.len(),
            text@ == error_code_text(code),
            forall|j: int| 0 <= j < i ==> codes@[j]@ != error_code_text(code),
        decreases codes.len() - i,
    {
        if codes[i] == text {
            return true;
        }
        i = i + 1;
    }
    false
}

/// Rejects an empty token: 401 with a request to verify.
pub fn check_token_present(token: &str) -> (r: Result<(), ApiResponse>)
    ensures
        token@.len() == 0 ==> r == Err::<(), ApiResponse>(
            ApiResponse::String(UNAUTHORIZED, "Please verify that you're not a robot."),
        ),
        token@.len() != 0 ==> r is Ok,
{
    if token.is_empty() {
        return Err(ApiResponse::String(UNAUTHORIZED, "Please verify that you're not a robot."));
    }
    Ok(())
}

/// The form-encoded body of a `siteverify` request for `token`.
pub open spec fn siteverify_body(secret: Seq<char>, token: Seq<char>) -> Seq<char> {
    "secret="@ + secret + "&response="@ + token
}

/// The body to post to `siteverify` to check `token` with the site secret.
pub fn siteverify_request_body(secret: &str, token: &str) -> (r: String)
    ensures
        r@ == siteverify_body(secret@, token@),
{
    let mut body = String::from_str("secret=");
    body.append(secret);
    body.append("&response=");
    body.append(token);
    body
}

/// The verdict on an answer of `siteverify`.
pub open spec fn verdict(payload: RecaptchaResponse) -> Result<RecaptchaResponse, ApiResponse> {
    if payload.success {
        Ok(payload)
    } else {
        match payload.error_codes {
            None => Err(ApiResponse::String(UNAUTHORIZED, "Please verify that you are not a robot.")),
            Some(codes) => if has_code(codes@, RecaptchaErrorCodes::TimeoutOrDuplicate) {
                Err(
                    ApiResponse::String(
                        TOO_MANY_REQUESTS,
                        "You have either taken too long to register after taking the reCaptcha, or you have already used your current token. Please retake the reCaptcha.",
                    ),
                )
            } else if has_code(codes@, RecaptchaErrorCodes::MissingResponse) {
                Err(ApiResponse::String(UNAUTHORIZED, "Please verify that you are not a robot."))
            } else if has_code(codes@, RecaptchaErrorCodes::BadRequest) {
                Err(
                    ApiResponse::String(
                        BAD_REQUEST,
                        "Something went wrong. Please retake the reCaptcha.",
                    ),
                )
            } else {
                Err(ApiResponse::String(INTERNAL_SERVER_ERROR, "Something went wrong."))
            },
        }
    }
}

/// Judges an answer of `siteverify`: a success is passed on; a failure is
/// answered by its error codes (a timed-out or reused token first, then a
/// missing token, then a bad request, else a generic failure).
pub fn recaptcha_verdict(payload: RecaptchaResponse) -> (r: Result<RecaptchaResponse, ApiResponse>)
    ensures
        r == verdict(payload),
{
    if !payload.success {
        let codes = match &payload.error_codes {
            Some(codes) => codes,
            None => {
                return Err(
                    ApiResponse::String(UNAUTHORIZED, "Please verify that you are not a robot."),
                );
            },
        };
        if contains_code(codes, RecaptchaErrorCodes::TimeoutOrDuplicate) {
            return Err(
                ApiResponse::String(
                    TOO_MANY_REQUESTS,
                    "You have either taken too long to register after taking the reCaptcha, or you have already used your current token. Please retake the reCaptcha.",
                ),
            );
        }
        if contains_code(codes, RecaptchaErrorCodes::MissingResponse) {
            return Err(ApiResponse::String(UNAUTHORIZED, "Please verify that you are not a robot."));
        }
        if contains_code(codes, RecaptchaErrorCodes::BadRequest) {
            return Err(
                ApiResponse::String(BAD_REQUEST, "Something went wrong. Please retake the reCaptcha."),
            );
        }
        return Err(ApiResponse::String(INTERNAL_SERVER_ERROR, "Something went wrong."));
    }
    Ok(payload)
}

/// How a relayed `siteverify` request ended.
#[derive(Clone, Debug, PartialEq, Eq)]
pub enum SiteverifyOutcome {
    /// The site secret is not configured.
    NoSecret,
    /// The request could not be sent.
    RequestFailed,
    /// The endpoint answered with `status`; `body` is its text, when it
    /// could be read.
    Answered { status: u16, body: Option<String> },
}

/// The answer to a client that asked for its token to be verified: the
/// endpoint's text with 200 when it answered 200 and its text was read,
/// else 500 "Unable to verify.".
pub fn relay_siteverify(outcome: SiteverifyOutcome) -> (r: ApiResponse)
    ensures
        match outcome {
            SiteverifyOutcome::Answered { status, body: Some(text) } if status == OK => r
                == ApiResponse::StringDynamic(OK, text),
            _ => r == ApiResponse::String(INTERNAL_SERVER_ERROR, "Unable to verify."),
        },
{
    match outcome {
        SiteverifyOutcome::Answered { status, body } => {
            if status == OK {
                match body {
                    Some(text) => ApiResponse::StringDynamic(OK, text),
                    None => ApiResponse::String(INTERNAL_SERVER_ERROR, "Unable to verify."),
                }
            } else {
                ApiResponse::String(INTERNAL_SERVER_ERROR, "Unable to verify.")
            }
        },
        _ => ApiResponse::String(INTERNAL_SERVER_ERROR, "Unable to verify."),
    }
}

/// A token is accepted exactly when the endpoint reports success, and then
/// its answer is passed on unchanged.
pub proof fn lemma_verdict_follows_success(payload: RecaptchaResponse)
    ensures
        verdict(payload) is Ok <==> payload.success,
        payload.success ==> verdict(payload) == Ok::<RecaptchaResponse, ApiResponse>(payload),
{
}

} // verus!
