//! Validators of the sign-up and login form fields.

use vstd::prelude::*;
use vstd::string::*;

verus! {

/// The number of bytes of `s` in UTF-8 (what `str::len` counts).
pub open spec fn byte_len(s: &str) -> int {
    s.len() as int
}

/// Checks a password and its confirmation: at least 8 bytes, and as many
/// bytes as the confirmation.
pub fn check_password(password: &str, confirm_password: &str) -> (r: Result<(), &'static str>)
    ensures
        byte_len(password) < 8 ==> r == Err::<(), &'static str>(
            "Password must contain at least 8 characters.",
        ),
        byte_len(password) >= 8 && byte_len(password) != byte_len(confirm_password) ==> r == Err::<
            (),
            &'static str,
        >("Passwords do not match"),
        byte_len(password) >= 8 && byte_len(password) == byte_len(confirm_password) ==> r is Ok,
{
    if password.len() < 8 {
        return Err("Password must contain at least 8 characters.");
    }
    if password.len() != confirm_password.len() {
        return Err("Passwords do not match");
    }
    Ok(())
}

/// A shallow check of a user name: at most 60 bytes. Whether the name is
/// taken is checked against the database by the caller.
pub fn check_name(name: &str) -> (r: Result<(), &'static str>)
    ensures
        byte_len(name) > 60 ==> r == Err::<(), &'static str>(
            "Name can only contain up to 60 characters.",
        ),
        byte_len(name) <= 60 ==> r is Ok,
{
    if name.len() > 60 {
        return Err("Name can only contain up to 60 characters.");
    }
    Ok(())
}

} // verus!
