//! Community forms and their validation.

use vstd::prelude::*;
use vstd::string::*;
use crate::error_toasts::sqlx_error_to_api_response;
use crate::create_community_error::{render_error, CREATE_COMMUNITY_ERROR_TEMPLATE};
use crate::forms::byte_len;
use crate::responders::{is_error_toast_render, ApiResponse};
use crate::responses::{TemplateView, CONFLICT, INTERNAL_SERVER_ERROR};

verus! {

/// Whether `c` has Unicode's `White_Space` property: tab through carriage
/// return, space, next line, no-break space, ogham space mark, en quad
/// through hair space, line and paragraph separators, narrow no-break
/// space, medium mathematical space and ideographic space.
pub open spec fn char_is_whitespace(c: char) -> bool {
    let n = c as u32;
    ||| 0x09 <= n <= 0x0D
    ||| n == 0x20
    ||| n == 0x85
    ||| n == 0xA0
    ||| n == 0x1680
    ||| 0x2000 <= n <= 0x200A
    ||| n == 0x2028
    ||| n == 0x2029
    ||| n == 0x202F
    ||| n == 0x205F
    ||| n == 0x3000
}

/// Whether `c` is alphabetic or numeric by Unicode (`char::is_alphanumeric`).
pub uninterp spec fn char_is_alphanumeric(c: char) -> bool;

/// Which characters are whitespace: among ASCII, exactly tab, line feed,
/// vertical tab, form feed, carriage return and space (so `_`, `-` and the
/// other punctuation are not); beyond ASCII, exactly next line (U+0085),
/// no-break space (U+00A0), ogham space mark (U+1680), the spaces U+2000
/// to U+200A, the line and paragraph separators (U+2028, U+2029), narrow
/// no-break space (U+202F), medium mathematical space (U+205F) and
/// ideographic space (U+3000). Zero-width space (U+200B) is not.
pub proof fn lemma_whitespace_characters(c: char)
    ensures
        (c as u32) < 0x80 ==> (char_is_whitespace(c) <==> (c == '\t' || c == '\n' || c == '\u{0B}'
            || c == '\u{0C}' || c == '\r' || c == ' ')),
        (c as u32) >= 0x80 ==> (char_is_whitespace(c) <==> (c == '\u{85}' || c == '\u{A0}' || c
            == '\u{1680}' || ('\u{2000}' <= c && c <= '\u{200A}') || c == '\u{2028}' || c
            == '\u{2029}' || c == '\u{202F}' || c == '\u{205F}' || c == '\u{3000}')),
        !char_is_whitespace('_'),
        !char_is_whitespace('\u{200B}'),
        char_is_whitespace('\u{205F}'),
{
}

/// Whether `c` is whitespace, as `char::is_whitespace` decides it (Unicode's
/// `White_Space` property).
fn is_whitespace(c: char) -> (r: bool)
    ensures
        r == char_is_whitespace(c),
{
    let n = c as u32;
    (0x09 <= n && n <= 0x0D) || n == 0x20 || n == 0x85 || n == 0xA0 || n == 0x1680 || (0x2000 <= n
        && n <= 0x200A) || n == 0x2028 || n == 0x2029 || n == 0x202F || n == 0x205F || n == 0x3000
}

/// `char::is_alphanumeric`; the contract names its result.
#[verifier::external_body]
fn is_alphanumeric(c: char) -> (r: bool)
    ensures
        r == char_is_alphanumeric(c),
{
    c.is_alphanumeric()
}

/// Whether every character of `name` is whitespace or alphanumeric.
pub open spec fn only_words(name: Seq<char>) -> bool {
    forall|i: int| 0 <= i < name.len() ==> char_is_whitespace(#[trigger] name[i])
        || char_is_alphanumeric(name[i])
}

/// Checks a community name: at most 60 bytes, and only whitespace and
/// alphanumeric characters.
pub fn check_name(name: &str) -> (r: Result<(), &'static str>)
    ensures
        byte_len(name) > 60 ==> r == Err::<(), &'static str>(
            "Name can only contain up to 60 characters.",
        ),
        byte_len(name) <= 60 && !only_words(name@) ==> r == Err::<(), &'static str>(
            "Name can only contain alphanumeric characters.",
        ),
        byte_len(name) <= 60 && only_words(name@) ==> r is Ok,
{
    if name.len() > 60 {
        return Err("Name can only contain up to 60 characters.");
    }
    let n = name.unicode_len();
    let mut i: usize = 0;
    while i < n
        invariant
            n == name@.len(),
            byte_len(name) <= 60,
            0 <= i <= n,
            forall|j: int| 0 <= j < i ==> char_is_whitespace(#[trigger] name@[j])
                || char_is_alphanumeric(name@[j]),
        decreases n - i,
    {
        let c = name.get_char(i);
        if !(is_whitespace(c) || is_alphanumeric(c)) {
            return Err("Name can only contain alphanumeric characters.");
        }
        i = i + 1;
    }
    Ok(())
}

/// The submitted form that creates a community.
#[derive(Clone, Debug, PartialEq, Eq)]
pub struct CreateCommunity {
    pub display_name: String,
    pub description: String,
    pub categories: Vec<String>,
    pub honeypot: String,
}

/// Rejects a community whose name is taken: 409 with "Please choose a
/// different name" on the name field.
pub fn check_community_name_available(name_taken: bool) -> (r: Result<(), ApiResponse>)
    ensures
        !name_taken ==> r is Ok,
        name_taken ==> (r matches Err(ApiResponse::Render {
            status,
            template: Some(
                TemplateView::CreateCommunityErrors {
                    name,
                    community_name_error: Some(n),
                    description_error: None,
                    toast: None,
                },
            ),
            headers: None,
        }) && status == CONFLICT && name == CREATE_COMMUNITY_ERROR_TEMPLATE && n@
            == "Please choose a different name"@),
{
    if name_taken {
        return Err(
            render_error(
                CONFLICT,
                Some(String::from_str("Please choose a different name")),
                None,
                None,
            ),
        );
    }
    Ok(())
}

/// The answer when storing a new community fails: a 500 toast.
pub fn community_creation_failure() -> (r: ApiResponse)
    ensures
        is_error_toast_render(
            r,
            INTERNAL_SERVER_ERROR,
            "partials/toast"@,
            "Failed to create community. Please try again later"@,
        ),
{
    sqlx_error_to_api_response(Some("Failed to create community. Please try again later"))
}

} // verus!
