//! The application's general response type, how each response is sent, and
//! how failures of the services it uses are answered.

use vstd::prelude::*;
use vstd::string::*;
use crate::htmx::{header, headers_view, HtmxRedirect, HtmxRefresh, ResponseParts};
use crate::responses::{
    TemplateView, BAD_GATEWAY, BAD_REQUEST, CONFLICT, CREATED, EXPECTATION_FAILED, FORBIDDEN,
    GATEWAY_TIMEOUT, HTTP_VERSION_NOT_SUPPORTED, IM_A_TEAPOT, INSUFFICIENT_STORAGE,
    INTERNAL_SERVER_ERROR, LOOP_DETECTED, METHOD_NOT_ALLOWED, MOVED_PERMANENTLY, NOT_FOUND,
    NOT_IMPLEMENTED, NO_CONTENT, PAYLOAD_TOO_LARGE, PRECONDITION_FAILED, REQUEST_TIMEOUT,
    SERVICE_UNAVAILABLE, TOO_MANY_REQUESTS, UNAUTHORIZED, UNPROCESSABLE_ENTITY,
    UNSUPPORTED_MEDIA_TYPE, UPGRADE_REQUIRED, URI_TOO_LONG,
};

verus! {

/// A response of the application.
#[derive(Clone, Debug, PartialEq, Eq)]
pub enum ApiResponse {
    HtmxRefresh(HtmxRefresh),
    HtmxRedirect(HtmxRedirect),
    /// A redirect (303 See Other) to the given URI.
    Redirect(String),
    /// A status with a fixed text body.
    String(u16, &'static str),
    /// A status with a text body.
    StringDynamic(u16, String),
    /// A status with a content type and an HTML body.
    CustomHTML(u16, String, String),
    /// A template to render.
    Template(TemplateView),
    NoContent,
    /// A created resource's location, with an optional content type and body.
    Created(String, Option<(String, String)>),
}

/// How a response is sent.
#[derive(Clone, Debug, PartialEq, Eq)]
pub enum ResponsePlan {
    /// Send a response with these parts.
    Send(ResponseParts),
    /// Fail with this status.
    Fail(u16),
    /// Render this template.
    RenderTemplate(TemplateView),
    /// Redirect (303 See Other) to this URI.
    RedirectTo(String),
}

/// Whether `plan` sends status `status`, exactly the headers `headers` and
/// the body `body`.
pub open spec fn sends(
    plan: ResponsePlan,
    status: u16,
    headers: Seq<(Seq<char>, Seq<char>)>,
    body: Option<Seq<char>>,
) -> bool {
    &&& plan matches ResponsePlan::Send(parts)
    &&& crate::htmx::parts_are(parts, status, headers, body)
}

impl ApiResponse {
    /// How the response is sent: HTMX responses send their own parts (or
    /// fail), text bodies are sent with their status, HTML with its content
    /// type, templates are rendered, redirects redirect, `NoContent` sends
    /// 204 and `Created` sends 201 with a `Location` header (and the content
    /// type and body when there is one).
    pub fn respond_to(self) -> (r: ResponsePlan)
        ensures
            match self {
                ApiResponse::HtmxRefresh(_) => sends(r, 205, seq![("HX-Refresh"@, "true"@)], None),
                ApiResponse::HtmxRedirect(redirect) => match redirect.1 {
                    Some(uri) => sends(r, redirect.0, seq![("HX-Redirect"@, uri@)], None),
                    None => r == ResponsePlan::Fail(INTERNAL_SERVER_ERROR),
                },
                ApiResponse::Redirect(uri) => r == ResponsePlan::RedirectTo(uri),
                ApiResponse::String(status, text) => sends(r, status, seq![], Some(text@)),
                ApiResponse::StringDynamic(status, text) => sends(r, status, seq![], Some(text@)),
                ApiResponse::CustomHTML(status, content_type, html) => sends(
                    r,
                    status,
                    seq![("Content-Type"@, content_type@)],
                    Some(html@),
                ),
                ApiResponse::Template(view) => r == ResponsePlan::RenderTemplate(view),
                ApiResponse::NoContent => sends(r, NO_CONTENT, seq![], None),
                ApiResponse::Created(location, content) => match content {
                    Some((content_type, html)) => sends(
                        r,
                        CREATED,
                        seq![("Location"@, location@), ("Content-Type"@, content_type@)],
                        Some(html@),
                    ),
                    None => sends(r, CREATED, seq![("Location"@, location@)], None),
                },
            },
    {
        match self {
            ApiResponse::HtmxRefresh(refresh) => match refresh.respond_to() {
                Ok(parts) => ResponsePlan::Send(parts),
                Err(status) => ResponsePlan::Fail(status),
            },
            ApiResponse::HtmxRedirect(redirect) => match redirect.respond_to() {
                Ok(parts) => ResponsePlan::Send(parts),
                Err(status) => ResponsePlan::Fail(status),
            },
            ApiResponse::Redirect(uri) => ResponsePlan::RedirectTo(uri),
            ApiResponse::String(status, text) => {
                let parts = ResponseParts {
                    status,
                    headers: Vec::new(),
                    body: Some(String::from_str(text)),
                };
                assert(headers_view(parts.headers@) =~= seq![]);
                ResponsePlan::Send(parts)
            },
            ApiResponse::StringDynamic(status, text) => {
                let parts = ResponseParts { status, headers: Vec::new(), body: Some(text) };
                assert(headers_view(parts.headers@) =~= seq![]);
                ResponsePlan::Send(parts)
            },
            ApiResponse::CustomHTML(status, content_type, html) => {
                let ghost ct = content_type@;
                let mut headers: Vec<(String, String)> = Vec::new();
                headers.push(header("Content-Type", content_type));
                let parts = ResponseParts { status, headers, body: Some(html) };
                assert(headers_view(parts.headers@) =~= seq![("Content-Type"@, ct)]);
                ResponsePlan::Send(parts)
            },
            ApiResponse::Template(view) => ResponsePlan::RenderTemplate(view),
            ApiResponse::NoContent => {
                let parts = ResponseParts { status: NO_CONTENT, headers: Vec::new(), body: None };
                assert(headers_view(parts.headers@) =~= seq![]);
                ResponsePlan::Send(parts)
            },
            ApiResponse::Created(location, content) => {
                let ghost loc = location@;
                let mut headers: Vec<(String, String)> = Vec::new();
                headers.push(header("Location", location));
                match content {
                    Some((content_type, html)) => {
                        let ghost ct = content_type@;
                        headers.push(header("Content-Type", content_type));
                        let parts = ResponseParts { status: CREATED, headers, body: Some(html) };
                        assert(headers_view(parts.headers@) =~= seq![
                            ("Location"@, loc),
                            ("Content-Type"@, ct),
                        ]);
                        ResponsePlan::Send(parts)
                    },
                    None => {
                        let parts = ResponseParts { status: CREATED, headers, body: None };
                        assert(headers_view(parts.headers@) =~= seq![("Location"@, loc)]);
                        ResponsePlan::Send(parts)
                    },
                }
            },
        }
    }
}

/// The services whose failures are answered with a fixed message.
#[derive(Clone, Copy, Debug, PartialEq, Eq, Structural)]
pub enum ServiceError {
    /// The object store.
    CloudStorage,
    /// Reading or writing a file.
    Io,
    /// Reading the environment configuration.
    Dotenv,
    /// JSON (de)serialization.
    SerdeJson,
    /// The database.
    Sqlx,
    /// Password hashing.
    Bcrypt,
}

/// The answer to a failure of `source`.
pub open spec fn service_error_response(source: ServiceError) -> ApiResponse {
    match source {
        ServiceError::Dotenv => ApiResponse::String(
            INTERNAL_SERVER_ERROR,
            "Misconfiguration: Please contact the site owner.",
        ),
        ServiceError::SerdeJson => ApiResponse::String(BAD_REQUEST, "Invalid or malformed request."),
        _ => ApiResponse::String(INTERNAL_SERVER_ERROR, "Something went wrong."),
    }
}

impl From<ServiceError> for ApiResponse {
    fn from(source: ServiceError) -> (r: ApiResponse) {
        match source {
            ServiceError::Dotenv => ApiResponse::String(
                INTERNAL_SERVER_ERROR,
                "Misconfiguration: Please contact the site owner.",
            ),
            ServiceError::SerdeJson => ApiResponse::String(
                BAD_REQUEST,
                "Invalid or malformed request.",
            ),
            _ => ApiResponse::String(INTERNAL_SERVER_ERROR, "Something went wrong."),
        }
    }
}

impl vstd::std_specs::convert::FromSpecImpl<ServiceError> for ApiResponse {
    open spec fn obeys_from_spec() -> bool {
        true
    }

    open spec fn from_spec(source: ServiceError) -> ApiResponse {
        service_error_response(source)
    }
}

/// What a failed outgoing HTTP request reports: whether it failed on a
/// redirect, the URL involved, and the status the server answered with.
#[derive(Clone, Debug, PartialEq, Eq)]
pub struct HttpClientError {
    pub is_redirect: bool,
    pub url: Option<String>,
    pub status: Option<u16>,
}

/// The answer to an outgoing request that the server answered with `code`.
pub open spec fn upstream_status_response(code: u16) -> ApiResponse {
    if code == 502 {
        ApiResponse::String(BAD_GATEWAY, "The server received an invalid response.")
    } else if code == 503 {
        ApiResponse::String(
            SERVICE_UNAVAILABLE,
            "The service is currently unavailable. Please try again later.",
        )
    } else if code == 504 {
        ApiResponse::String(GATEWAY_TIMEOUT, "The server took too long to respond.")
    } else if code == 400 {
        ApiResponse::String(BAD_REQUEST, "Invalid or malformed request.")
    } else if code == 403 {
        ApiResponse::String(FORBIDDEN, "You do not have permission to access this resource.")
    } else if code == 401 {
        ApiResponse::String(UNAUTHORIZED, "You are not authorized to access this resource.")
    } else if code == 404 {
        ApiResponse::String(NOT_FOUND, "The resource you are looking for does not exist.")
    } else if code == 412 {
        ApiResponse::String(
            PRECONDITION_FAILED,
            "The server does not meet one of the preconditions that the requester put on the request.",
        )
    } else if code == 413 {
        ApiResponse::String(
            PAYLOAD_TOO_LARGE,
            "Request payload is too large. Please meet the requirements and try again.",
        )
    } else if code == 501 {
        ApiResponse::String(
            NOT_IMPLEMENTED,
            "The server does not support the functionality required to fulfill the request.",
        )
    } else if code == 405 {
        ApiResponse::String(METHOD_NOT_ALLOWED, "Method not allowed.")
    } else if code == 409 {
        ApiResponse::String(CONFLICT, "Request payload conflicts with the current state of the server.")
    } else if code == 422 {
        ApiResponse::String(UNPROCESSABLE_ENTITY, "Unable to process request payload.")
    } else if code == 429 {
        ApiResponse::String(TOO_MANY_REQUESTS, "Too many requests in a given amount of time.")
    } else if code == 408 {
        ApiResponse::String(
            REQUEST_TIMEOUT,
            "The server did not receive a complete request message within the time that it was prepared to wait.",
        )
    } else if code == 508 {
        ApiResponse::String(
            LOOP_DETECTED,
            "The server terminated an operation because it encountered an infinite loop while processing a request.",
        )
    } else if code == 418 {
        ApiResponse::String(IM_A_TEAPOT, "I'm a teapot.")
    } else if code == 507 {
        ApiResponse::String(INSUFFICIENT_STORAGE, "Something went wrong.")
    } else if code == 505 {
        ApiResponse::String(
            HTTP_VERSION_NOT_SUPPORTED,
            "The server does not support the HTTP protocol version that was used in the request message.",
        )
    } else if code == 417 {
        ApiResponse::String(
            EXPECTATION_FAILED,
            "The server cannot meet the requirements of the Expect request-header field.",
        )
    } else if code == 426 {
        ApiResponse::String(
            UPGRADE_REQUIRED,
            "The server refuses to perform the request using the current protocol but might be willing to do so after the client upgrades to a different protocol.",
        )
    } else if code == 301 {
        ApiResponse::String(
            MOVED_PERMANENTLY,
            "The resource has been moved permanently to a different location.",
        )
    } else if code == 415 {
        ApiResponse::String(
            UNSUPPORTED_MEDIA_TYPE,
            "The server is refusing to service the request because the entity of the request is in a format not supported by the requested resource for the requested method.",
        )
    } else if code == 414 {
        ApiResponse::String(
            URI_TOO_LONG,
            "The server is refusing to service the request because the request-target is longer than the server is willing to interpret.",
        )
    } else {
        ApiResponse::String(INTERNAL_SERVER_ERROR, "Something went wrong.")
    }
}

/// The answer to a failed outgoing request: a redirect to the URL when it
/// failed on a redirect and names one, else by the status the server
/// answered with, else a generic failure.
pub open spec fn http_client_error_response(error: HttpClientError) -> ApiResponse {
    if error.is_redirect && error.url is Some {
        ApiResponse::Redirect(error.url->0)
    } else {
        match error.status {
            Some(code) => upstream_status_response(code),
            None => ApiResponse::String(INTERNAL_SERVER_ERROR, "Something went wrong."),
        }
    }
}

fn upstream_status(code: u16) -> (r: ApiResponse)
    ensures
        r == upstream_status_response(code),
{
    match code {
        502 => ApiResponse::String(BAD_GATEWAY, "The server received an invalid response."),
        503 => ApiResponse::String(
            SERVICE_UNAVAILABLE,
            "The service is currently unavailable. Please try again later.",
        ),
        504 => ApiResponse::String(GATEWAY_TIMEOUT, "The server took too long to respond."),
        400 => ApiResponse::String(BAD_REQUEST, "Invalid or malformed request."),
        403 => ApiResponse::String(FORBIDDEN, "You do not have permission to access this resource."),
        401 => ApiResponse::String(UNAUTHORIZED, "You are not authorized to access this resource."),
        404 => ApiResponse::String(NOT_FOUND, "The resource you are looking for does not exist."),
        412 => ApiResponse::String(
            PRECONDITION_FAILED,
            "The server does not meet one of the preconditions that the requester put on the request.",
        ),
        413 => ApiResponse::String(
            PAYLOAD_TOO_LARGE,
            "Request payload is too large. Please meet the requirements and try again.",
        ),
        501 => ApiResponse::String(
            NOT_IMPLEMENTED,
            "The server does not support the functionality required to fulfill the request.",
        ),
        405 => ApiResponse::String(METHOD_NOT_ALLOWED, "Method not allowed."),
        409 => ApiResponse::String(
            CONFLICT,
            "Request payload conflicts with the current state of the server.",
        ),
        422 => ApiResponse::String(UNPROCESSABLE_ENTITY, "Unable to process request payload."),
        429 => ApiResponse::String(TOO_MANY_REQUESTS, "Too many requests in a given amount of time."),
        408 => ApiResponse::String(
            REQUEST_TIMEOUT,
            "The server did not receive a complete request message within the time that it was prepared to wait.",
        ),
        508 => ApiResponse::String(
            LOOP_DETECTED,
            "The server terminated an operation because it encountered an infinite loop while processing a request.",
        ),
        418 => ApiResponse::String(IM_A_TEAPOT, "I'm a teapot."),
        507 => ApiResponse::String(INSUFFICIENT_STORAGE, "Something went wrong."),
        505 => ApiResponse::String(
            HTTP_VERSION_NOT_SUPPORTED,
            "The server does not support the HTTP protocol version that was used in the request message.",
        ),
        417 => ApiResponse::String(
            EXPECTATION_FAILED,
            "The server cannot meet the requirements of the Expect request-header field.",
        ),
        426 => ApiResponse::String(
            UPGRADE_REQUIRED,
            "The server refuses to perform the request using the current protocol but might be willing to do so after the client upgrades to a different protocol.",
        ),
        301 => ApiResponse::String(
            MOVED_PERMANENTLY,
            "The resource has been moved permanently to a different location.",
        ),
        415 => ApiResponse::String(
            UNSUPPORTED_MEDIA_TYPE,
            "The server is refusing to service the request because the entity of the request is in a format not supported by the requested resource for the requested method.",
        ),
        414 => ApiResponse::String(
            URI_TOO_LONG,
            "The server is refusing to service the request because the request-target is longer than the server is willing to interpret.",
        ),
        _ => ApiResponse::String(INTERNAL_SERVER_ERROR, "Something went wrong."),
    }
}

impl From<HttpClientError> for ApiResponse {
    fn from(error: HttpClientError) -> (r: ApiResponse) {
        if error.is_redirect {
            if let Some(url) = error.url {
                return ApiResponse::Redirect(url);
            }
        }
        match error.status {
            Some(code) => upstream_status(code),
            None => ApiResponse::String(INTERNAL_SERVER_ERROR, "Something went wrong."),
        }
    }
}

impl vstd::std_specs::convert::FromSpecImpl<HttpClientError> for ApiResponse {
    open spec fn obeys_from_spec() -> bool {
        true
    }

    open spec fn from_spec(error: HttpClientError) -> ApiResponse {
        http_client_error_response(error)
    }
}

} // verus!
