//! Text of a JSON value, and the page that welcomes a registered user.
use vstd::prelude::*;
use crate::value::JsonValue;

verus! {

broadcast use vstd::std_specs::vec::axiom_vec_index_decreases;

/// Whether serde_json writes `s` between quotes with no escape sequence in it:
/// `s` holds no quote, no backslash and no control character below U+0020.
pub open spec fn needs_no_escape(s: Seq<char>) -> bool {
    forall|i: int| 0 <= i < s.len() ==> s[i] != '"' && s[i] != '\\' && (s[i] as u32) >= 0x20
}

/// The JSON string literal that serde_json writes for a text that needs escaping.
pub uninterp spec fn escaped_literal(s: Seq<char>) -> Seq<char>;

/// The JSON string literal for `s`: the text between quotes where nothing in it
/// is escaped.
pub open spec fn string_literal(s: Seq<char>) -> Seq<char> {
    if needs_no_escape(s) {
        seq!['"'] + s + seq!['"']
    } else {
        escaped_literal(s)
    }
}

/// Compact JSON text of `v`: no white space, array items and object entries
/// separated by commas, string leaves and keys as JSON string literals.
pub open spec fn json_text(v: JsonValue) -> Seq<char>
    decreases v, 0nat,
{
    match v {
        JsonValue::Null => "null"@,
        JsonValue::Bool(b) => if b {
            "true"@
        } else {
            "false"@
        },
        JsonValue::Number(n) => n@,
        JsonValue::Str(s) => string_literal(s@),
        JsonValue::Array(items) => "["@ + items_text(items, items.len() as nat) + "]"@,
        JsonValue::Object(entries) => "{"@ + entries_text(entries, entries.len() as nat) + "}"@,
    }
}

/// The text of the first `n` items of an array, separated by commas.
pub open spec fn items_text(items: Vec<JsonValue>, n: nat) -> Seq<char>
    decreases items, n,
{
    if n == 0 || n > items.len() {
        Seq::empty()
    } else {
        let sep = if n > 1 {
            ","@
        } else {
            Seq::empty()
        };
        items_text(items, (n - 1) as nat) + sep + json_text(items[n - 1])
    }
}

/// The text of the first `n` entries of an object, each `"key":value`,
/// separated by commas.
pub open spec fn entries_text(entries: Vec<(String, JsonValue)>, n: nat) -> Seq<char>
    decreases entries, n,
{
    if n == 0 || n > entries.len() {
        Seq::empty()
    } else {
        let sep = if n > 1 {
            ","@
        } else {
            Seq::empty()
        };
        entries_text(entries, (n - 1) as nat) + sep + string_literal(entries[n - 1].0@) + ":"@
            + json_text(entries[n - 1].1)
    }
}

/// Relies on serde_json's `Display` for `Value::String`: it writes the text
/// between quotes and escapes only quotes, backslashes and control characters.
#[verifier::external_body]
fn json_string_literal(s: &str) -> (r: String)
    ensures
        needs_no_escape(s@) ==> r@ == seq!['"'] + s@ + seq!['"'],
        !needs_no_escape(s@) ==> r@ == escaped_literal(s@),
{
    serde_json::Value::String(s.to_string()).to_string()
}

/// Appends the compact JSON text of `v` to `out`.
pub fn write_json(v: &JsonValue, out: &mut String)
    ensures
        final(out)@ == old(out)@ + json_text(*v),
    decreases v,
{
    match v {
        JsonValue::Null => out.append("null"),
        JsonValue::Bool(b) => {
            if *b {
                out.append("true")
            } else {
                out.append("false")
            }
        },
        JsonValue::Number(n) => out.append(n.as_str()),
        JsonValue::Str(s) => {
            let lit = json_string_literal(s.as_str());
            out.append(lit.as_str());
        },
        JsonValue::Array(items) => {
            let ghost start = out@;
            out.append("[");
            let mut i: usize = 0;
            while i < items.len()
                invariant
                    i <= items.len(),
                    *v == JsonValue::Array(*items),
                    out@ == start + "["@ + items_text(*items, i as nat),
                decreases items.len() - i,
            {
                if i > 0 {
                    out.append(",");
                }
                proof {
                    assert(decreases_to!(*v => (*v)->Array_0));
                    assert(decreases_to!(*items => items[i as int]));
                    assert(decreases_to!(*v => items[i as int]));
                }
                write_json(&items[i], out);
                i = i + 1;
            }
            out.append("]");
            assert(out@ =~= start + json_text(*v));
        },
        JsonValue::Object(entries) => {
            let ghost start = out@;
            out.append("{");
            let mut i: usize = 0;
            while i < entries.len()
                invariant
                    i <= entries.len(),
                    *v == JsonValue::Object(*entries),
                    out@ == start + "{"@ + entries_text(*entries, i as nat),
                decreases entries.len() - i,
            {
                if i > 0 {
                    out.append(",");
                }
                let lit = json_string_literal(entries[i].0.as_str());
                out.append(lit.as_str());
                out.append(":");
                proof {
                    assert(decreases_to!(*v => (*v)->Object_0));
                    assert(decreases_to!(*entries => entries[i as int]));
                    assert(decreases_to!(entries[i as int] => entries[i as int].1));
                    assert(decreases_to!(*v => entries[i as int].1));
                }
                write_json(&entries[i].1, out);
                i = i + 1;
            }
            out.append("}");
            assert(out@ =~= start + json_text(*v));
        },
    }
}

} // verus!

verus! {

/// `s` with every quote character removed.
pub open spec fn without_quotes(s: Seq<char>) -> Seq<char>
    decreases s.len(),
{
    if s.len() == 0 {
        s
    } else {
        let rest = without_quotes(s.drop_last());
        if s.last() == '"' {
            rest
        } else {
            rest.push(s.last())
        }
    }
}

/// The text that stands for `v` in a page: its compact JSON text without quotes.
pub open spec fn display_text(v: JsonValue) -> Seq<char> {
    without_quotes(json_text(v))
}

/// The page that welcomes the user registered under `name`.
pub open spec fn welcome_page(name: Seq<char>) -> Seq<char> {
    "<h1>Thank you "@ + name + ", your account has been registered!</h1>"@
}

/// Copies `s` without its quote characters.
pub fn remove_quotes(s: &str) -> (r: String)
    ensures
        r@ == without_quotes(s@),
{
    let n = s.unicode_len();
    let mut out = String::new();
    let mut i: usize = 0;
    while i < n
        invariant
            n == s@.len(),
            i <= n,
            out@ == without_quotes(s@.subrange(0, i as int)),
        decreases n - i,
    {
        let c = s.get_char(i);
        assert(s@.subrange(0, i + 1).drop_last() =~= s@.subrange(0, i as int));
        if c != '"' {
            let one = s.substring_char(i, i + 1);
            assert(one@ =~= seq![c]);
            out.append(one);
            assert(out@ =~= without_quotes(s@.subrange(0, i as int)).push(c));
        }
        i = i + 1;
    }
    assert(s@.subrange(0, n as int) =~= s@);
    out
}

/// The text that stands for `v` in a page.
pub fn value_text(v: &JsonValue) -> (r: String)
    ensures
        r@ == display_text(*v),
{
    let mut text = String::new();
    write_json(v, &mut text);
    assert(text@ =~= json_text(*v));
    remove_quotes(text.as_str())
}

/// The page that welcomes the user registered under `name`, with `name`
/// substituted as it stands.
pub fn welcome(name: &str) -> (r: String)
    ensures
        r@ == welcome_page(name@),
{
    let mut page = String::from_str("<h1>Thank you ");
    page.append(name);
    page.append(", your account has been registered!</h1>");
    page
}

} // verus!

verus! {

/// Removing quotes from a concatenation removes them from each part.
pub proof fn lemma_without_quotes_concat(a: Seq<char>, b: Seq<char>)
    ensures
        without_quotes(a + b) == without_quotes(a) + without_quotes(b),
    decreases b.len(),
{
    if b.len() == 0 {
        assert(a + b =~= a);
        assert(without_quotes(a) + without_quotes(b) =~= without_quotes(a));
    } else {
        assert((a + b).drop_last() =~= a + b.drop_last());
        lemma_without_quotes_concat(a, b.drop_last());
        if b.last() == '"' {
        } else {
            assert(without_quotes(a) + without_quotes(b) =~= (without_quotes(a)
                + without_quotes(b.drop_last())).push(b.last()));
        }
    }
}

/// A text with no quote in it loses nothing.
pub proof fn lemma_without_quotes_unchanged(s: Seq<char>)
    requires
        !s.contains('"'),
    ensures
        without_quotes(s) == s,
    decreases s.len(),
{
    if s.len() > 0 {
        assert(!s.drop_last().contains('"')) by {
            if s.drop_last().contains('"') {
                let i = choose|i: int| 0 <= i < s.drop_last().len() && s.drop_last()[i] == '"';
                assert(s[i] == '"');
            }
        }
        lemma_without_quotes_unchanged(s.drop_last());
        assert(s.last() == s[s.len() - 1]);
        assert(s.drop_last().push(s.last()) =~= s);
    }
}

/// A string that needs no escape shows as itself.
pub proof fn lemma_plain_string_text(s: String)
    requires
        needs_no_escape(s@),
    ensures
        display_text(JsonValue::Str(s)) == s@,
{
    let q = seq!['"'];
    assert(!s@.contains('"'));
    assert(!q.contains('\\')) by {
        assert(q[0] == '"');
    }
    assert(without_quotes(q) =~= Seq::<char>::empty()) by {
        assert(q.drop_last() =~= Seq::<char>::empty());
        assert(q.last() == '"');
        assert(without_quotes(q.drop_last()) =~= Seq::<char>::empty());
    }
    lemma_without_quotes_concat(q + s@, q);
    lemma_without_quotes_concat(q, s@);
    lemma_without_quotes_unchanged(s@);
    assert(json_text(JsonValue::Str(s)) == q + s@ + q);
    assert(Seq::<char>::empty() + s@ + Seq::<char>::empty() =~= s@);
}

} // verus!
