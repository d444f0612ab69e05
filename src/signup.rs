//! The two signup handlers: decode, validate, then render.
use vstd::prelude::*;
use crate::decode::{
    decode_error, decode_secure_user, decode_vulnerable_user, username_field, DecodeError,
};
use crate::render::{display_text, value_text, welcome, welcome_page};
use crate::validate::{
    has_forbidden, is_secure_username_valid, is_vulnerable_username_valid, vulnerable_accepts,
};
use crate::value::JsonValue;

verus! {

/// What a handler answers.
#[derive(Debug, PartialEq, Eq)]
pub enum SignupResponse {
    /// The body could not be decoded; nothing else ran.
    Rejected(DecodeError),
    /// The username failed the policy.
    InvalidUsername,
    /// The user is registered; the page welcomes them.
    Registered(String),
}

/// A handler's answer, with the page as text.
pub enum Reply {
    Rejected(DecodeError),
    InvalidUsername,
    Registered(Seq<char>),
}

impl View for SignupResponse {
    type V = Reply;

    open spec fn view(&self) -> Reply {
        match self {
            SignupResponse::Rejected(e) => Reply::Rejected(*e),
            SignupResponse::InvalidUsername => Reply::InvalidUsername,
            SignupResponse::Registered(page) => Reply::Registered(page@),
        }
    }
}

/// The answer of the permissive handler to `body`.
pub open spec fn vulnerable_reply(body: JsonValue) -> Reply {
    match decode_error(body, false) {
        Some(e) => Reply::Rejected(e),
        None => {
            let user = username_field(body)->0;
            if vulnerable_accepts(user) {
                Reply::Registered(welcome_page(display_text(user)))
            } else {
                Reply::InvalidUsername
            }
        },
    }
}

/// The answer of the strict handler to `body`.
pub open spec fn secure_reply(body: JsonValue) -> Reply {
    match decode_error(body, true) {
        Some(e) => Reply::Rejected(e),
        None => {
            let name = username_field(body)->0->Str_0@;
            if has_forbidden(name) {
                Reply::InvalidUsername
            } else {
                Reply::Registered(welcome_page(name))
            }
        },
    }
}

/// Handles a signup whose username is decoded as a JSON value of any kind
/// and checked only when it is a string.
pub fn vulnerable_signup(body: JsonValue) -> (r: SignupResponse)
    ensures
        r@ == vulnerable_reply(body),
{
    let user = match decode_vulnerable_user(body) {
        Ok(user) => user,
        Err(e) => return SignupResponse::Rejected(e),
    };
    if !is_vulnerable_username_valid(&user.username) {
        return SignupResponse::InvalidUsername;
    }
    let name = value_text(&user.username);
    SignupResponse::Registered(welcome(name.as_str()))
}

/// Handles a signup whose username must decode as a string.
pub fn secure_signup(body: JsonValue) -> (r: SignupResponse)
    ensures
        r@ == secure_reply(body),
{
    let user = match decode_secure_user(body) {
        Ok(user) => user,
        Err(e) => return SignupResponse::Rejected(e),
    };
    if !is_secure_username_valid(user.username.as_str()) {
        return SignupResponse::InvalidUsername;
    }
    SignupResponse::Registered(welcome(user.username.as_str()))
}

} // verus!

verus! {

/// The HTTP status of a reply: success only for a registration.
pub open spec fn reply_status(r: Reply) -> u16 {
    match r {
        Reply::Registered(_) => 200,
        _ => 400,
    }
}

/// The text sent back with a reply.
pub open spec fn reply_body(r: Reply) -> Seq<char> {
    match r {
        Reply::Rejected(_) => "malformed request"@,
        Reply::InvalidUsername => "Username contains invalid characters."@,
        Reply::Registered(page) => page,
    }
}

impl SignupResponse {
    /// The HTTP status to answer with.
    pub fn status_code(&self) -> (r: u16)
        ensures
            r == reply_status(self@),
    {
        match self {
            SignupResponse::Registered(_) => 200,
            _ => 400,
        }
    }

    /// Whether the body is an HTML page.
    pub fn is_html(&self) -> (r: bool)
        ensures
            r == (self@ is Registered),
    {
        match self {
            SignupResponse::Registered(_) => true,
            _ => false,
        }
    }

    /// The text to answer with.
    pub fn body(&self) -> (r: String)
        ensures
            r@ == reply_body(self@),
    {
        match self {
            SignupResponse::Rejected(_) => String::from_str("malformed request"),
            SignupResponse::InvalidUsername => String::from_str(
                "Username contains invalid characters.",
            ),
            SignupResponse::Registered(page) => page.clone(),
        }
    }
}

} // verus!
