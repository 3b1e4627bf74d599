use media_identity::error::AppError;
use media_identity::json::string_literal;

#[test]
fn string_literal_quotes_and_escapes() {
    assert_eq!(string_literal("abc"), Ok("\"abc\"".to_string()));
    assert_eq!(string_literal(""), Ok("\"\"".to_string()));
    assert_eq!(string_literal("a\"b"), Ok("\"a\\\"b\"".to_string()));
    assert_eq!(string_literal("back\\slash"), Ok("\"back\\\\slash\"".to_string()));
    assert_eq!(string_literal("line\nbreak\ttab"), Ok("\"line\\nbreak\\ttab\"".to_string()));
    assert_eq!(string_literal("\u{1}"), Ok("\"\\u0001\"".to_string()));
    assert_eq!(string_literal("é"), Ok("\"é\"".to_string()));
}

#[test]
fn string_literal_never_hands_the_text_back_unquoted() {
    let literal: Result<String, AppError> = string_literal("plain");
    assert_ne!(literal, Ok("plain".to_string()));
}

#[test]
fn every_string_has_a_literal() {
    for text in ["", "\u{0}", "\u{7f}", "\u{d7ff}\u{e000}\u{10ffff}", "a\"\\\n\r\t\u{8}\u{c}/"] {
        assert!(string_literal(text).is_ok(), "{:?}", text);
    }
    assert_eq!(
        string_literal("a\"\\\n\r\t\u{8}\u{c}/"),
        Ok("\"a\\\"\\\\\\n\\r\\t\\b\\f/\"".to_string())
    );
}
