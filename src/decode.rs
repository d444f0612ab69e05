//! Decoding a signup request body into the record each handler works on.
use vstd::prelude::*;
use crate::text::same_text;
use crate::value::{field, lookup, JsonValue};

verus! {

/// Why a request body could not be decoded.
#[derive(Debug, Clone, Copy, PartialEq, Eq, Structural)]
pub enum DecodeError {
    /// The body is not an object, or lacks the username or the password.
    Malformed,
    /// A field is present with a JSON kind that the record does not accept.
    WrongType,
}

/// A signup whose username may be a JSON value of any kind.
#[derive(Debug)]
pub struct VulnerableUser {
    pub username: JsonValue,
    pub password: String,
}

/// A signup whose username is text.
#[derive(Debug)]
pub struct SecureUser {
    pub username: String,
    pub password: String,
}

/// The `username` field of a request body.
pub open spec fn username_field(body: JsonValue) -> Option<JsonValue> {
    field(body, "username"@)
}

/// The `password` field of a request body.
pub open spec fn password_field(body: JsonValue) -> Option<JsonValue> {
    field(body, "password"@)
}

/// The error that decoding `body` gives, if any. The password must be a
/// string; when `strict`, so must the username.
pub open spec fn decode_error(body: JsonValue, strict: bool) -> Option<DecodeError> {
    match (username_field(body), password_field(body)) {
        (Some(user), Some(pass)) => {
            if !(pass is Str) || (strict && !(user is Str)) {
                Some(DecodeError::WrongType)
            } else {
                None
            }
        },
        _ => Some(DecodeError::Malformed),
    }
}

/// Takes the first `username` and the first `password` out of the entries.
fn take_fields(entries: Vec<(String, JsonValue)>) -> (r: (Option<JsonValue>, Option<JsonValue>))
    ensures
        r.0 == lookup(entries@, "username"@),
        r.1 == lookup(entries@, "password"@),
{
    let ghost all = entries@;
    let mut rest = entries;
    let mut user: Option<JsonValue> = None;
    let mut pass: Option<JsonValue> = None;
    while rest.len() > 0
        invariant
            rest@ == all.subrange(0, rest.len() as int),
            rest.len() <= all.len(),
            user == lookup(all.subrange(rest.len() as int, all.len() as int), "username"@),
            pass == lookup(all.subrange(rest.len() as int, all.len() as int), "password"@),
        decreases rest.len(),
    {
        let ghost before = rest.len() as int;
        let (key, value) = rest.pop().unwrap();
        let ghost tail = all.subrange(before - 1, all.len() as int);
        assert(tail.drop_first() =~= all.subrange(before, all.len() as int));
        assert(tail[0] == all[before - 1]);
        assert(rest@ =~= all.subrange(0, rest.len() as int));
        if same_text(key.as_str(), "username") {
            proof {
                reveal_strlit("username");
                reveal_strlit("password");
                assert("username"@[0] != "password"@[0]);
            }
            user = Some(value);
        } else if same_text(key.as_str(), "password") {
            pass = Some(value);
        }
    }
    assert(all.subrange(0, all.len() as int) =~= all);
    (user, pass)
}

/// Decodes a body with any JSON value as its username and text as its password.
pub fn decode_vulnerable_user(body: JsonValue) -> (r: Result<VulnerableUser, DecodeError>)
    ensures
        match r {
            Ok(u) => decode_error(body, false) is None && username_field(body) == Some(u.username)
                && password_field(body) == Some(JsonValue::Str(u.password)),
            Err(e) => decode_error(body, false) == Some(e),
        },
{
    let entries = match body {
        JsonValue::Object(entries) => entries,
        _ => return Err(DecodeError::Malformed),
    };
    let (user, pass) = take_fields(entries);
    match (user, pass) {
        (Some(username), Some(JsonValue::Str(password))) => Ok(VulnerableUser { username, password }),
        (Some(_), Some(_)) => Err(DecodeError::WrongType),
        _ => Err(DecodeError::Malformed),
    }
}

/// Decodes a body with text as both its username and its password; a username
/// of any other JSON kind is refused here.
pub fn decode_secure_user(body: JsonValue) -> (r: Result<SecureUser, DecodeError>)
    ensures
        match r {
            Ok(u) => decode_error(body, true) is None && username_field(body) == Some(
                JsonValue::Str(u.username),
            ) && password_field(body) == Some(JsonValue::Str(u.password)),
            Err(e) => decode_error(body, true) == Some(e),
        },
{
    let entries = match body {
        JsonValue::Object(entries) => entries,
        _ => return Err(DecodeError::Malformed),
    };
    let (user, pass) = take_fields(entries);
    match (user, pass) {
        (Some(JsonValue::Str(username)), Some(JsonValue::Str(password))) => Ok(
            SecureUser { username, password },
        ),
        (Some(_), Some(_)) => Err(DecodeError::WrongType),
        _ => Err(DecodeError::Malformed),
    }
}

} // verus!
