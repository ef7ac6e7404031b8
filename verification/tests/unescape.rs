use as2_syntax::unescape::{
    find_quoted_content, unescape_char, unescape_string, unescape_string_content, QuoteKind,
    QuotedContent, UnescapeError,
};

#[test]
fn test_backslash_n_becomes_newline() {
    // The literal text is `"a\nb"`, backslash written out.
    let unescaped = unescape_string(b"\"a\\nb\"").expect("valid literal");
    assert_eq!(unescaped, b"a\nb".to_vec());
}

#[test]
fn test_escaped_single_quote() {
    // The literal text is `'\''`.
    let unescaped = unescape_string(b"'\\''").expect("valid literal");
    assert_eq!(unescaped, b"'".to_vec());
}

#[test]
fn test_bare_quote_inside_literal_is_an_error() {
    // The literal text is `"a"b"`: a bare double quote inside a
    // double-quoted literal may only appear escaped.
    assert_eq!(unescape_string(b"\"a\"b\""), None);
    // The same byte is fine inside a single-quoted literal.
    assert_eq!(unescape_string(b"'a\"b'"), Some(b"a\"b".to_vec()));
}

#[test]
fn test_named_escapes() {
    let unescaped = unescape_string(b"\"\\b\\f\\n\\r\\t\\v\\\\\\\"\\'\"").expect("valid literal");
    assert_eq!(unescaped, vec![8, 12, 10, 13, 9, 11, b'\\', b'"', b'\'']);
}

#[test]
fn test_lone_slash_is_an_error() {
    // The literal text is `"\"`: a backslash right before the closing quote
    // escapes it, leaving the content a lone backslash... that literal is
    // `"\` + `"` which never closes; build the error through the content
    // walker instead.
    assert_eq!(
        unescape_string_content(b"\\", QuoteKind::Double),
        Err((0, 1, UnescapeError::LoneSlash))
    );
}

#[test]
fn test_hex_escape() {
    assert_eq!(unescape_string(b"\"\\x41\""), Some(b"A".to_vec()));
    assert_eq!(unescape_string(b"\"\\x7a\""), Some(b"z".to_vec()));
    // A value above 0x7F encodes as UTF-8.
    assert_eq!(unescape_string(b"\"\\xe9\""), Some(vec![0xC3, 0xA9]));
    // Too few digits is an error.
    assert_eq!(unescape_string(b"\"\\x4\""), None);
    assert_eq!(unescape_string(b"\"\\xg1\""), None);
}

#[test]
fn test_unicode_escape() {
    assert_eq!(unescape_string(b"\"\\u0041\""), Some(b"A".to_vec()));
    assert_eq!(unescape_string(b"\"\\u00e9\""), Some(vec![0xC3, 0xA9]));
    assert_eq!(unescape_string(b"\"\\u20ac\""), Some(vec![0xE2, 0x82, 0xAC]));
    // Too few digits is an error.
    assert_eq!(unescape_string(b"\"\\u041\""), None);
    // A lone surrogate names no character.
    assert_eq!(unescape_string(b"\"\\ud800\""), None);
}

#[test]
fn test_octal_escape() {
    assert_eq!(unescape_string(b"\"\\0\""), Some(vec![0]));
    assert_eq!(unescape_string(b"\"\\101\""), Some(b"A".to_vec()));
    assert_eq!(unescape_string(b"\"\\46\""), Some(b"&".to_vec()));
    // A first digit above 3 takes at most two digits: `\507` is `\50`
    // followed by the plain digit 7.
    assert_eq!(unescape_string(b"\"\\507\""), Some(b"(7".to_vec()));
    // Three digits with a small first digit: `\377` is 255, encoded as
    // UTF-8.
    assert_eq!(unescape_string(b"\"\\377\""), Some(vec![0xC3, 0xBF]));
}

#[test]
fn test_non_escape_character_stands_for_itself() {
    assert_eq!(unescape_string(b"\"\\z\""), Some(b"z".to_vec()));
    assert_eq!(unescape_string(b"\"\\8\""), Some(b"8".to_vec()));
}

#[test]
fn test_plain_bytes_copy_through() {
    assert_eq!(unescape_string(b"\"plain\""), Some(b"plain".to_vec()));
    // Multi-byte UTF-8 content copies through unchanged.
    assert_eq!(
        unescape_string("\"caf\u{e9}\"".as_bytes()),
        Some("caf\u{e9}".as_bytes().to_vec())
    );
}

#[test]
fn test_find_quoted_content() {
    assert_eq!(
        find_quoted_content(b"\"ab\""),
        Some(QuotedContent { quotes: QuoteKind::Double, start: 1, end: 3 })
    );
    assert_eq!(
        find_quoted_content(b"'ab'"),
        Some(QuotedContent { quotes: QuoteKind::Single, start: 1, end: 3 })
    );
    // No quoted content: empty, a single character, or mismatched ends.
    assert_eq!(find_quoted_content(b""), None);
    assert_eq!(find_quoted_content(b"\""), None);
    assert_eq!(find_quoted_content(b"'"), None);
    assert_eq!(find_quoted_content(b"\"ab'"), None);
    assert_eq!(find_quoted_content(b"ab"), None);
}

#[test]
fn test_error_reports_offending_range() {
    // The first failing character's byte range is reported.
    assert_eq!(
        unescape_string_content(b"ab\"cd", QuoteKind::Double),
        Err((2, 3, UnescapeError::EscapeOnlyChar))
    );
    assert_eq!(
        unescape_string_content(b"a\\x9", QuoteKind::Double),
        Err((1, 3, UnescapeError::InvalidHexEscape))
    );
    assert_eq!(
        unescape_string_content(b"\\ud800x", QuoteKind::Double),
        Err((0, 6, UnescapeError::UnpairedSurrogate))
    );
}

#[test]
fn test_unescape_char_steps() {
    // A plain byte consumes one position.
    let (end, out) = unescape_char(b"abc", 0, QuoteKind::Double);
    assert_eq!(end, 1);
    assert_eq!(out, Ok(b"a".to_vec()));
    // A named escape consumes the backslash and its letter.
    let (end, out) = unescape_char(b"\\n", 0, QuoteKind::Double);
    assert_eq!(end, 2);
    assert_eq!(out, Ok(b"\n".to_vec()));
    // A hex escape consumes four positions.
    let (end, out) = unescape_char(b"\\x41z", 0, QuoteKind::Double);
    assert_eq!(end, 4);
    assert_eq!(out, Ok(b"A".to_vec()));
}
