use signup_guard::decode::{decode_secure_user, decode_vulnerable_user, DecodeError};
use signup_guard::render::{value_text, welcome};
use signup_guard::signup::{secure_signup, vulnerable_signup, SignupResponse};
use signup_guard::validate::{is_secure_username_valid, is_vulnerable_username_valid};
use signup_guard::value::JsonValue;

fn text(s: &str) -> JsonValue {
    JsonValue::Str(s.to_string())
}

fn body(username: JsonValue, password: JsonValue) -> JsonValue {
    JsonValue::Object(vec![
        ("username".to_string(), username),
        ("password".to_string(), password),
    ])
}

fn script_array() -> JsonValue {
    JsonValue::Array(vec![text("<script>alert(1)</script>")])
}

#[test]
fn secure_validator_accepts_plain_names() {
    assert!(is_secure_username_valid("alice"));
    assert!(is_secure_username_valid(""));
    assert!(is_secure_username_valid("o'brien & co"));
}

#[test]
fn secure_validator_refuses_angle_brackets() {
    assert!(!is_secure_username_valid("<b>"));
    assert!(!is_secure_username_valid("a>b"));
    assert!(!is_secure_username_valid("x<"));
}

#[test]
fn vulnerable_validator_checks_only_strings() {
    assert!(is_vulnerable_username_valid(&text("bob")));
    assert!(!is_vulnerable_username_valid(&text("<i>bob</i>")));
    assert!(is_vulnerable_username_valid(&script_array()));
    assert!(is_vulnerable_username_valid(&JsonValue::Null));
    assert!(is_vulnerable_username_valid(&JsonValue::Bool(true)));
    assert!(is_vulnerable_username_valid(&JsonValue::Number("42".to_string())));
    assert!(is_vulnerable_username_valid(&JsonValue::Object(vec![(
        "<a>".to_string(),
        text("<b>"),
    )])));
}

#[test]
fn welcome_page_substitutes_name() {
    assert_eq!(
        welcome("alice"),
        "<h1>Thank you alice, your account has been registered!</h1>"
    );
}

#[test]
fn value_text_of_plain_string_is_its_content() {
    assert_eq!(value_text(&text("alice")), "alice");
}

#[test]
fn value_text_keeps_escapes_but_drops_quotes() {
    assert_eq!(value_text(&text("a\"b")), "a\\b");
    assert_eq!(value_text(&text("a\\b")), "a\\\\b");
    assert_eq!(value_text(&text("line\nbreak")), "line\\nbreak");
}

#[test]
fn value_text_of_scalars() {
    assert_eq!(value_text(&JsonValue::Null), "null");
    assert_eq!(value_text(&JsonValue::Bool(false)), "false");
    assert_eq!(value_text(&JsonValue::Number("-1.5".to_string())), "-1.5");
}

#[test]
fn value_text_of_containers() {
    assert_eq!(value_text(&script_array()), "[<script>alert(1)</script>]");
    assert_eq!(value_text(&JsonValue::Array(vec![])), "[]");
    let nested = JsonValue::Array(vec![
        JsonValue::Number("1".to_string()),
        JsonValue::Array(vec![JsonValue::Bool(true), JsonValue::Null]),
        text("x"),
    ]);
    assert_eq!(value_text(&nested), "[1,[true,null],x]");
    let object = JsonValue::Object(vec![
        ("k".to_string(), JsonValue::Number("1".to_string())),
        ("m".to_string(), text("v")),
    ]);
    assert_eq!(value_text(&object), "{k:1,m:v}");
}

#[test]
fn decode_refuses_non_object_bodies() {
    assert!(matches!(
        decode_vulnerable_user(text("alice")),
        Err(DecodeError::Malformed)
    ));
    assert!(matches!(
        decode_secure_user(JsonValue::Array(vec![text("a"), text("b")])),
        Err(DecodeError::Malformed)
    ));
}

#[test]
fn decode_refuses_missing_fields() {
    let only_name = JsonValue::Object(vec![("username".to_string(), text("alice"))]);
    assert!(matches!(
        decode_vulnerable_user(only_name),
        Err(DecodeError::Malformed)
    ));
    let only_pass = JsonValue::Object(vec![("password".to_string(), text("x"))]);
    assert!(matches!(decode_secure_user(only_pass), Err(DecodeError::Malformed)));
}

#[test]
fn decode_refuses_non_string_password() {
    let b = body(text("alice"), JsonValue::Number("7".to_string()));
    assert!(matches!(decode_vulnerable_user(b), Err(DecodeError::WrongType)));
    let b = body(text("alice"), JsonValue::Null);
    assert!(matches!(decode_secure_user(b), Err(DecodeError::WrongType)));
}

#[test]
fn decode_takes_first_of_repeated_keys() {
    let b = JsonValue::Object(vec![
        ("password".to_string(), text("one")),
        ("username".to_string(), text("first")),
        ("extra".to_string(), JsonValue::Null),
        ("username".to_string(), text("second")),
    ]);
    let user = decode_secure_user(b).unwrap();
    assert_eq!(user.username, "first");
    assert_eq!(user.password, "one");
}

#[test]
fn decode_keeps_any_username_on_permissive_record() {
    let user = decode_vulnerable_user(body(script_array(), text("x"))).unwrap();
    assert_eq!(user.username, script_array());
    assert_eq!(user.password, "x");
}

#[test]
fn plain_name_is_registered_by_both() {
    for handler in [vulnerable_signup, secure_signup] {
        let r = handler(body(text("alice"), text("pw")));
        assert_eq!(r.status_code(), 200);
        assert!(r.is_html());
        assert_eq!(
            r.body(),
            "<h1>Thank you alice, your account has been registered!</h1>"
        );
    }
}

#[test]
fn marked_name_is_refused_by_both() {
    for handler in [vulnerable_signup, secure_signup] {
        let r = handler(body(text("<script>alert(1)</script>"), text("x")));
        assert_eq!(r, SignupResponse::InvalidUsername);
        assert_eq!(r.status_code(), 400);
        assert!(!r.is_html());
        assert_eq!(r.body(), "Username contains invalid characters.");
    }
}

#[test]
fn array_username_bypasses_permissive_check() {
    let r = vulnerable_signup(body(script_array(), text("x")));
    assert_eq!(r.status_code(), 200);
    assert!(r.body().contains("<script>alert(1)</script>"));
    assert_eq!(
        r.body(),
        "<h1>Thank you [<script>alert(1)</script>], your account has been registered!</h1>"
    );
}

#[test]
fn other_non_string_usernames_pass_permissive_check() {
    let r = vulnerable_signup(body(JsonValue::Number("12".to_string()), text("x")));
    assert_eq!(r.status_code(), 200);
    let r = vulnerable_signup(body(JsonValue::Null, text("x")));
    assert_eq!(
        r.body(),
        "<h1>Thank you null, your account has been registered!</h1>"
    );
}

#[test]
fn array_username_refused_at_strict_decoding() {
    let r = secure_signup(body(script_array(), text("x")));
    assert_eq!(r, SignupResponse::Rejected(DecodeError::WrongType));
    assert_eq!(r.status_code(), 400);
    assert_eq!(r.body(), "malformed request");
}

#[test]
fn handlers_agree_on_plain_names() {
    for name in ["alice", "Bob Smith", "", "name_with-dash.42"] {
        let a = vulnerable_signup(body(text(name), text("pw")));
        let b = secure_signup(body(text(name), text("pw")));
        assert_eq!(a, b);
        assert_eq!(a.body(), welcome(name));
    }
}

#[test]
fn handlers_differ_on_names_with_quotes() {
    let a = vulnerable_signup(body(text("a\"b"), text("pw")));
    let b = secure_signup(body(text("a\"b"), text("pw")));
    assert_eq!(a.body(), welcome("a\\b"));
    assert_eq!(b.body(), welcome("a\"b"));
}

#[test]
fn same_request_twice_same_answer() {
    for make in [
        || body(text("alice"), text("pw")),
        || body(script_array(), text("x")),
        || body(text("<b>"), text("x")),
        || JsonValue::Null,
    ] {
        assert_eq!(vulnerable_signup(make()), vulnerable_signup(make()));
        assert_eq!(secure_signup(make()), secure_signup(make()));
    }
}
