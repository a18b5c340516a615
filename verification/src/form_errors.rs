//! Collecting the errors of a submitted form into the messages shown next
//! to each field.

use vstd::prelude::*;
use vstd::string::*;
use crate::responders::ApiResponse;
use crate::responses::{error_toast, TemplateView, Toast, ToastTypes, ValidationError, UNPROCESSABLE_ENTITY};
use crate::text::str_eq;

verus! {

/// The name of the form field an error is for: its text and its keys (the
/// text split at `.` and `[...]`).
#[derive(Clone, Debug, PartialEq, Eq)]
pub struct FieldName {
    pub raw: String,
    pub keys: Vec<String>,
}

/// One error of a submitted form.
#[derive(Clone, Debug, PartialEq, Eq)]
pub struct FormFieldError {
    /// The field the error is for, if any.
    pub name: Option<FieldName>,
    /// Whether the error is that the field is missing.
    pub missing: bool,
    /// The error's text.
    pub message: String,
}

/// Whether `error` is for exactly the field `field` (a name of one key).
pub open spec fn is_for_exactly(error: FormFieldError, field: Seq<char>) -> bool {
    &&& error.name matches Some(name)
    &&& name.keys@.len() == 1
    &&& name.keys@[0]@ == field
}

/// The last of `errors` that is for exactly `field`.
pub open spec fn last_error_for(errors: Seq<FormFieldError>, field: Seq<char>) -> Option<
    FormFieldError,
>
    decreases errors.len(),
{
    if errors.len() == 0 {
        None
    } else if is_for_exactly(errors.last(), field) {
        Some(errors.last())
    } else {
        last_error_for(errors.drop_last(), field)
    }
}

/// The message shown for a field whose last error is `error`: none without
/// an error; `missing_text` (when given) for a missing field; else the
/// error's text.
pub open spec fn field_message(error: Option<FormFieldError>, missing_text: Option<Seq<char>>) -> Option<
    Seq<char>,
> {
    match error {
        None => None,
        Some(e) => if e.missing && missing_text is Some {
            missing_text
        } else {
            Some(e.message@)
        },
    }
}

/// The text of an optional string.
pub open spec fn opt_text(s: Option<String>) -> Option<Seq<char>> {
    match s {
        Some(t) => Some(t@),
        None => None,
    }
}

/// Whether `toast` is the error toast shown for a field whose last error is
/// `error`.
pub open spec fn toast_for(toast: Option<Toast>, error: Option<FormFieldError>) -> bool {
    match error {
        None => toast is None,
        Some(e) => toast matches Some(t) && t.message@ == e.message@ && t.toast_type == Some(
            ToastTypes::Error,
        ),
    }
}

/// Whether `error` is for exactly the field `field`.
pub fn error_is_for(error: &FormFieldError, field: &str) -> (r: bool)
    ensures
        r == is_for_exactly(*error, field@),
{
    match &error.name {
        Some(name) => {
            if name.keys.len() == 1 {
                str_eq(name.keys[0].as_str(), field)
            } else {
                false
            }
        },
        None => false,
    }
}

/// The last of `errors` that is for exactly `field`.
pub fn find_last_error_for<'a>(errors: &'a Vec<FormFieldError>, field: &str) -> (r: Option<&'a FormFieldError>)
    ensures
        match r {
            Some(e) => last_error_for(errors@, field@) == Some(*e),
            None => last_error_for(errors@, field@) is None,
        },
{
    let mut i: usize = errors.len();
    assert(errors@.take(i as int) =~= errors@);
    while i > 0
        invariant
            0 <= i <= errors.len(),
            last_error_for(errors@, field@) == last_error_for(errors@.take(i as int), field@),
        decreases i,
    {
        let prefix = Ghost(errors@.take(i as int));
        assert(prefix@.drop_last() =~= errors@.take(i - 1));
        assert(prefix@.last() == errors@[i - 1]);
        if error_is_for(&errors[i - 1], field) {
            return Some(&errors[i - 1]);
        }
        i = i - 1;
    }
    assert(errors@.take(0) =~= Seq::<FormFieldError>::empty());
    None
}

/// The message shown for `field`, given all the form's errors.
pub fn message_for(errors: &Vec<FormFieldError>, field: &str, missing_text: Option<&str>) -> (r: Option<
    String,
>)
    ensures
        opt_text(r) == field_message(
            last_error_for(errors@, field@),
            match missing_text {
                Some(t) => Some(t@),
                None => None,
            },
        ),
{
    match find_last_error_for(errors, field) {
        None => None,
        Some(e) => {
            if e.missing {
                if let Some(text) = missing_text {
                    return Some(String::from_str(text));
                }
            }
            Some(e.message.clone())
        },
    }
}

/// The toast shown for `field` (the honeypot), given all the form's errors.
pub fn toast_for_field(errors: &Vec<FormFieldError>, field: &str) -> (r: Option<Toast>)
    ensures
        toast_for(r, last_error_for(errors@, field@)),
{
    match find_last_error_for(errors, field) {
        None => None,
        Some(e) => Some(error_toast(e.message.clone())),
    }
}

/// The listed form of one error: its field's name (if any) and its text.
pub open spec fn listed(error: FormFieldError, v: ValidationError) -> bool {
    &&& opt_text(v.field) == match error.name {
        Some(n) => Some(n.raw@),
        None => None,
    }
    &&& v.message@ == error.message@
}

/// The answer to a rejected form that lists every error: status 422 and the
/// template `error_template_name` with the errors, in order.
pub fn extract_data_or_return_response(errors: &Vec<FormFieldError>, error_template_name: &'static str) -> (r:
    ApiResponse)
    ensures
        r matches ApiResponse::Render {
            status,
            template: Some(TemplateView::ValidationErrors { name, errors: listed_errors }),
            headers: None,
        } && status == UNPROCESSABLE_ENTITY && name == error_template_name
            && listed_errors@.len() == errors@.len() && forall|i: int|
            0 <= i < errors@.len() ==> listed(#[trigger] errors@[i], listed_errors@[i]),
{
    let mut listed_errors: Vec<ValidationError> = Vec::new();
    let mut i: usize = 0;
    while i < errors.len()
        invariant
            0 <= i <= errors.len(),
            listed_errors@.len() == i,
            forall|j: int| 0 <= j < i ==> listed(#[trigger] errors@[j], listed_errors@[j]),
        decreases errors.len() - i,
    {
        let error = &errors[i];
        let field = match &error.name {
            Some(n) => Some(n.raw.clone()),
            None => None,
        };
        listed_errors.push(ValidationError { field, message: error.message.clone() });
        i = i + 1;
    }
    ApiResponse::Render {
        status: UNPROCESSABLE_ENTITY,
        template: Some(TemplateView::ValidationErrors { name: error_template_name, errors: listed_errors }),
        headers: None,
    }
}

} // verus!
