//! What holds of the two handlers across all request bodies.
use vstd::prelude::*;
use crate::decode::{password_field, username_field, DecodeError};
use crate::render::{
    display_text, json_text, items_text, lemma_plain_string_text, lemma_without_quotes_concat,
    lemma_without_quotes_unchanged, needs_no_escape, string_literal, welcome_page, without_quotes,
};
use crate::signup::{secure_reply, vulnerable_reply, Reply};
use crate::validate::{has_forbidden, vulnerable_accepts};
use crate::value::JsonValue;

verus! {

/// `body` carries `name` as its username string and a string password.
pub open spec fn text_signup(body: JsonValue, name: Seq<char>) -> bool {
    &&& username_field(body) matches Some(JsonValue::Str(u)) && u@ == name
    &&& password_field(body) matches Some(JsonValue::Str(_))
}

/// The welcome page holds the name as it stands, right after its opening text.
pub proof fn lemma_page_holds_name(name: Seq<char>)
    ensures
        welcome_page(name).subrange(14, 14 + name.len() as int) == name,
{
    reveal_strlit("<h1>Thank you ");
    assert(welcome_page(name).subrange(14, 14 + name.len() as int) =~= name);
}

/// A username free of `<` and `>` passes both policies, and the strict
/// handler welcomes it verbatim; so does the permissive one when the name
/// needs no escape in JSON.
pub proof fn law_plain_name_registered(body: JsonValue, name: Seq<char>)
    requires
        text_signup(body, name),
        !has_forbidden(name),
    ensures
        vulnerable_accepts(username_field(body)->0),
        secure_reply(body) == Reply::Registered(welcome_page(name)),
        welcome_page(name).subrange(14, 14 + name.len() as int) == name,
        needs_no_escape(name) ==> vulnerable_reply(body) == Reply::Registered(welcome_page(name)),
{
    lemma_page_holds_name(name);
    if needs_no_escape(name) {
        lemma_plain_string_text(username_field(body)->0->Str_0);
    }
}

/// A username string holding `<` or `>` is refused by both handlers.
pub proof fn law_marked_name_refused(body: JsonValue, name: Seq<char>)
    requires
        text_signup(body, name),
        has_forbidden(name),
    ensures
        vulnerable_reply(body) == Reply::InvalidUsername,
        secure_reply(body) == Reply::InvalidUsername,
{
}

/// The permissive handler lets a username of any kind but string through
/// unchecked and puts its text into the page.
pub proof fn law_non_string_bypasses(body: JsonValue)
    requires
        username_field(body) matches Some(u) && !(u is Str),
        password_field(body) matches Some(JsonValue::Str(_)),
    ensures
        vulnerable_accepts(username_field(body)->0),
        vulnerable_reply(body) == Reply::Registered(
            welcome_page(display_text(username_field(body)->0)),
        ),
{
}

/// An array holding one string that needs no escape shows as that string in
/// brackets: markup in it reaches the page as it stands.
pub proof fn lemma_single_item_array_text(items: Vec<JsonValue>, s: String)
    requires
        items@ == seq![JsonValue::Str(s)],
        needs_no_escape(s@),
    ensures
        display_text(JsonValue::Array(items)) == "["@ + s@ + "]"@,
{
    let q = seq!['"'];
    assert(items_text(items, 1) == items_text(items, 0) + Seq::<char>::empty() + json_text(
        items[0],
    ));
    assert(json_text(items[0]) == string_literal(s@));
    assert(items_text(items, 1) =~= q + s@ + q);
    reveal_strlit("[");
    reveal_strlit("]");
    lemma_without_quotes_unchanged("["@);
    lemma_without_quotes_unchanged("]"@);
    lemma_without_quotes_concat("["@ + (q + s@ + q), "]"@);
    lemma_without_quotes_concat("["@, q + s@ + q);
    lemma_plain_string_text(s);
    assert(json_text(JsonValue::Array(items)) == "["@ + (q + s@ + q) + "]"@);
}

/// The strict handler refuses at decoding a username of any kind but string:
/// neither the policy nor the page is reached.
pub proof fn law_strict_refuses_non_string(body: JsonValue)
    requires
        username_field(body) matches Some(u) && !(u is Str),
        password_field(body) is Some,
    ensures
        secure_reply(body) == Reply::Rejected(DecodeError::WrongType),
{
}

/// For a username string with nothing to refuse and nothing to escape, both
/// handlers give the same page.
pub proof fn law_handlers_agree_on_plain_names(body: JsonValue, name: Seq<char>)
    requires
        text_signup(body, name),
        !has_forbidden(name),
        needs_no_escape(name),
    ensures
        vulnerable_reply(body) == secure_reply(body),
{
    law_plain_name_registered(body, name);
}

/// Each handler's answer depends on the request body alone: the same body
/// twice gets the same answer twice.
pub proof fn law_same_body_same_reply(first: JsonValue, second: JsonValue)
    requires
        first == second,
    ensures
        vulnerable_reply(first) == vulnerable_reply(second),
        secure_reply(first) == secure_reply(second),
{
}

} // verus!
