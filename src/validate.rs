//! The two username policies.
use vstd::prelude::*;
use crate::value::JsonValue;

verus! {

/// Whether `s` holds a character that may open or close markup.
pub open spec fn has_forbidden(s: Seq<char>) -> bool {
    s.contains('<') || s.contains('>')
}

/// The permissive policy: a string passes when it holds no `<` and no `>`;
/// a value of any other kind passes unchecked.
pub open spec fn vulnerable_accepts(v: JsonValue) -> bool {
    match v {
        JsonValue::Str(s) => !has_forbidden(s@),
        _ => true,
    }
}

/// The strict policy over a username that is text.
pub fn is_secure_username_valid(username: &str) -> (r: bool)
    ensures
        r == !has_forbidden(username@),
{
    let n = username.unicode_len();
    let mut i: usize = 0;
    while i < n
        invariant
            n == username@.len(),
            i <= n,
            forall|j: int| 0 <= j < i ==> username@[j] != '<' && username@[j] != '>',
        decreases n - i,
    {
        let c = username.get_char(i);
        if c == '<' || c == '>' {
            return false;
        }
        i = i + 1;
    }
    assert(!username@.contains('<'));
    assert(!username@.contains('>'));
    true
}

/// The permissive policy over a username of any JSON kind.
pub fn is_vulnerable_username_valid(username: &JsonValue) -> (r: bool)
    ensures
        r == vulnerable_accepts(*username),
{
    match username {
        JsonValue::Str(s) => is_secure_username_valid(s.as_str()),
        _ => true,
    }
}

} // verus!
