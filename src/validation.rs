//! Checks of sign-up and profile requests, and the messages they give.

use vstd::prelude::*;

use crate::models::{NewUser, UpdateProfile, UserLocation};

verus! {

/// The shortest username, in characters.
pub const MIN_USERNAME_LEN: usize = 4;

/// The shortest password, in characters.
pub const MIN_PASSWORD_LEN: usize = 5;

/// The shortest full name, in characters.
pub const MIN_FULL_NAME_LEN: usize = 4;

/// The field of a request that failed its check.
#[derive(Clone, Copy, Debug, PartialEq, Eq, Structural)]
pub enum InputField {
    Username,
    Email,
    Password,
    FullName,
    Image,
}

/// Whether the text is an email address.
pub uninterp spec fn is_email(s: Seq<char>) -> bool;

/// Whether the text is an absolute URL.
pub uninterp spec fn is_url(s: Seq<char>) -> bool;

/// Relies on validator's `ValidateEmail::validate_email` for `&str`: the
/// answer depends on the text alone.
#[verifier::external_body]
fn email_ok(s: &str) -> (r: bool)
    ensures
        r == is_email(s@),
{
    validator::ValidateEmail::validate_email(&s)
}

/// Relies on validator's `ValidateUrl::validate_url` for `&str`: the answer
/// depends on the text alone.
#[verifier::external_body]
fn url_ok(s: &str) -> (r: bool)
    ensures
        r == is_url(s@),
{
    validator::ValidateUrl::validate_url(&s)
}

/// The first field of a sign-up request that fails its check, in the order
/// username, email, password.
pub open spec fn new_user_invalid_field(u: NewUser) -> Option<InputField> {
    if u.username@.len() < MIN_USERNAME_LEN {
        Some(InputField::Username)
    } else if !is_email(u.email@) {
        Some(InputField::Email)
    } else if u.password@.len() < MIN_PASSWORD_LEN {
        Some(InputField::Password)
    } else {
        None
    }
}

/// The message for a sign-up request whose field `f` failed.
pub open spec fn new_user_message(u: NewUser, f: InputField) -> Seq<char> {
    match f {
        InputField::Username => "Invalid username. \""@ + u.username@ + "\" is too short."@,
        InputField::Email => "Invalid email address \""@ + u.email@ + "\""@,
        InputField::Password => "Invalid password. Too short"@,
        _ => "Invalid input."@,
    }
}

/// The first field of a profile change that fails its check: an image that
/// is no URL, then a full name that is too short.
pub open spec fn profile_invalid_field(p: UpdateProfile) -> Option<InputField> {
    if p.image matches Some(i) && !is_url(i@) {
        Some(InputField::Image)
    } else if p.full_name matches Some(n) && n@.len() < MIN_FULL_NAME_LEN {
        Some(InputField::FullName)
    } else {
        None
    }
}

/// The message for a profile change whose field `f` failed.
pub open spec fn profile_message(p: UpdateProfile, f: InputField) -> Seq<char> {
    match (f, p.image) {
        (InputField::Image, Some(i)) => "Invalid image. \""@ + i@ + "\" is not a valid url."@,
        _ => "Invalid input."@,
    }
}

/// `a`, `b` and `c` one after another.
fn concat3(a: &str, b: &str, c: &str) -> (r: String)
    ensures
        r@ == a@ + b@ + c@,
{
    let mut s = String::from_str(a);
    s.append(b);
    s.append(c);
    s
}

/// Checks a sign-up request; on failure, the message for the first failing
/// field.
pub fn validate_new_user(u: &NewUser) -> (r: Result<(), String>)
    ensures
        match new_user_invalid_field(*u) {
            None => r is Ok,
            Some(f) => r matches Err(m) && m@ == new_user_message(*u, f),
        },
{
    if u.username.unicode_len() < MIN_USERNAME_LEN {
        Err(concat3("Invalid username. \"", u.username.as_str(), "\" is too short."))
    } else if !email_ok(u.email.as_str()) {
        Err(concat3("Invalid email address \"", u.email.as_str(), "\""))
    } else if u.password.unicode_len() < MIN_PASSWORD_LEN {
        Err(String::from_str("Invalid password. Too short"))
    } else {
        Ok(())
    }
}

/// Checks a profile change; on failure, its message.
pub fn validate_profile(p: &UpdateProfile) -> (r: Result<(), String>)
    ensures
        match profile_invalid_field(*p) {
            None => r is Ok,
            Some(f) => r matches Err(m) && m@ == profile_message(*p, f),
        },
{
    if let Some(i) = &p.image {
        if !url_ok(i.as_str()) {
            return Err(concat3("Invalid image. \"", i.as_str(), "\" is not a valid url."));
        }
    }
    if let Some(n) = &p.full_name {
        if n.unicode_len() < MIN_FULL_NAME_LEN {
            return Err(String::from_str("Invalid input."));
        }
    }
    Ok(())
}

/// How the location of a profile change is written.
#[derive(Clone, Copy, Debug)]
pub enum LocationWrite {
    /// The user has no location yet: insert one for the user.
    Create { user_id: uuid::Uuid },
    /// Overwrite the user's existing location.
    Update { location_id: uuid::Uuid },
}

/// Where a profile change writes the location parts: over the user's stored
/// location if there is one, else into a new one.
pub fn location_write(user_id: uuid::Uuid, existing: &Option<UserLocation>) -> (r: LocationWrite)
    ensures
        match *existing {
            Some(l) => r == (LocationWrite::Update { location_id: l.id }),
            None => r == (LocationWrite::Create { user_id }),
        },
{
    match existing {
        Some(l) => LocationWrite::Update { location_id: l.id },
        None => LocationWrite::Create { user_id },
    }
}

} // verus!
