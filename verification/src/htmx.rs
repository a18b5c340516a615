//! HTMX request flags and HTMX-specific responses.

use vstd::prelude::*;
use vstd::string::*;
use crate::responses::{INTERNAL_SERVER_ERROR, OK, RESET_CONTENT};
use crate::text::str_eq;

verus! {

/// Whether a request to an endpoint is HTMX boosted.
#[derive(Clone, Copy, Debug, PartialEq, Eq, Structural)]
pub struct IsBoosted(pub bool);

/// Whether a request was made by HTMX.
#[derive(Clone, Copy, Debug, PartialEq, Eq, Structural)]
pub struct IsHTMX(pub bool);

/// Whether a header value is exactly `true`.
pub open spec fn header_is_true(value: Option<&str>) -> bool {
    value matches Some(v) && v@ == "true"@
}

fn header_flag(value: Option<&str>) -> (r: bool)
    ensures
        r == header_is_true(value),
{
    match value {
        Some(v) => str_eq(v, "true"),
        None => false,
    }
}

impl IsBoosted {
    /// The flag for a request whose `HX-Boosted` header has the value `value`.
    pub fn from_header(value: Option<&str>) -> (r: IsBoosted)
        ensures
            r.0 == header_is_true(value),
    {
        IsBoosted(header_flag(value))
    }
}

impl IsHTMX {
    /// The flag for a request whose `HX-Request` header has the value `value`.
    pub fn from_header(value: Option<&str>) -> (r: IsHTMX)
        ensures
            r.0 == header_is_true(value),
    {
        IsHTMX(header_flag(value))
    }
}

/// The status, headers and body of a response to send.
#[derive(Clone, Debug, PartialEq, Eq)]
pub struct ResponseParts {
    pub status: u16,
    pub headers: Vec<(String, String)>,
    pub body: Option<String>,
}

/// The headers of a response, as text.
pub open spec fn headers_view(headers: Seq<(String, String)>) -> Seq<(Seq<char>, Seq<char>)> {
    headers.map_values(|h: (String, String)| (h.0@, h.1@))
}

/// Whether `parts` has status `status`, exactly the headers `headers` and
/// the body `body`.
pub open spec fn parts_are(
    parts: ResponseParts,
    status: u16,
    headers: Seq<(Seq<char>, Seq<char>)>,
    body: Option<Seq<char>>,
) -> bool {
    &&& parts.status == status
    &&& headers_view(parts.headers@) == headers
    &&& match body {
        Some(b) => parts.body matches Some(pb) && pb@ == b,
        None => parts.body is None,
    }
}

/// One header line.
pub fn header(name: &str, value: String) -> (r: (String, String))
    ensures
        r.0@ == name@,
        r.1 == value,
{
    (String::from_str(name), value)
}

/// The text form of `uri` as a URI reference, when it is one.
pub uninterp spec fn uri_reference_text(uri: Seq<char>) -> Option<Seq<char>>;

/// Parses `uri` with `rocket::http::uri::Reference::parse` and renders the
/// parsed reference with its `Display` impl. The contract names the result
/// (`uri_reference_text`) and says nothing of which texts parse.
#[verifier::external_body]
fn parse_uri_reference(uri: &str) -> (r: Option<String>)
    ensures
        match r {
            Some(text) => uri_reference_text(uri@) == Some(text@),
            None => uri_reference_text(uri@) is None,
        },
{
    match rocket::http::uri::Reference::parse(uri) {
        Ok(reference) => Some(reference.to_string()),
        Err(_) => None,
    }
}

/// A client-side redirect through the `HX-Redirect` header: a status and
/// the target, when it is a valid URI reference.
#[derive(Clone, Debug, PartialEq, Eq)]
pub struct HtmxRedirect(pub u16, pub Option<String>);

impl HtmxRedirect {
    /// A redirect to `uri` with status 200.
    pub fn to(uri: &str) -> (r: HtmxRedirect)
        ensures
            r.0 == OK,
            match r.1 {
                Some(text) => uri_reference_text(uri@) == Some(text@),
                None => uri_reference_text(uri@) is None,
            },
    {
        HtmxRedirect(OK, parse_uri_reference(uri))
    }

    /// The response: the status with the `HX-Redirect` header, or status 500
    /// when the target is not a valid URI.
    pub fn respond_to(self) -> (r: Result<ResponseParts, u16>)
        ensures
            match self.1 {
                Some(uri) => r matches Ok(parts) && parts_are(
                    parts,
                    self.0,
                    seq![("HX-Redirect"@, uri@)],
                    None,
                ),
                None => r == Err::<ResponseParts, u16>(INTERNAL_SERVER_ERROR),
            },
    {
        match self.1 {
            Some(uri) => {
                let mut headers: Vec<(String, String)> = Vec::new();
                headers.push(header("HX-Redirect", uri));
                let parts = ResponseParts { status: self.0, headers, body: None };
                assert(headers_view(parts.headers@) =~= seq![("HX-Redirect"@, uri@)]);
                Ok(parts)
            },
            None => Err(INTERNAL_SERVER_ERROR),
        }
    }
}

/// A response asking HTMX to reload the page.
#[derive(Clone, Copy, Debug, PartialEq, Eq, Structural)]
pub struct HtmxRefresh;

impl HtmxRefresh {
    /// The response: status 205 with the header `HX-Refresh: true`.
    pub fn respond_to(self) -> (r: Result<ResponseParts, u16>)
        ensures
            r matches Ok(parts) && parts_are(
                parts,
                RESET_CONTENT,
                seq![("HX-Refresh"@, "true"@)],
                None,
            ),
    {
        let mut headers: Vec<(String, String)> = Vec::new();
        headers.push(header("HX-Refresh", String::from_str("true")));
        let parts = ResponseParts { status: RESET_CONTENT, headers, body: None };
        assert(headers_view(parts.headers@) =~= seq![("HX-Refresh"@, "true"@)]);
        Ok(parts)
    }
}

} // verus!
