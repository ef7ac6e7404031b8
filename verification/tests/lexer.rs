use as2_syntax::kinds::SyntaxKind;
use as2_syntax::lexer::{lex, Lexer, LexerToken};

fn tok(kind: SyntaxKind, text: &str) -> LexerToken {
    LexerToken { kind, text: text.as_bytes().to_vec() }
}

#[test]
fn test_lex_hello_world() {
    let tokens = lex(b"trace(\"Hello, World!\");\n");
    let expected = vec![
        tok(SyntaxKind::TokenIdent, "trace"),
        tok(SyntaxKind::TokenOpenParen, "("),
        tok(SyntaxKind::TokenStrLit, "\"Hello, World!\""),
        tok(SyntaxKind::TokenCloseParen, ")"),
        tok(SyntaxKind::TokenSemicolon, ";"),
        tok(SyntaxKind::TokenMultilineWhitespace, "\n"),
    ];
    assert_eq!(&tokens, &expected);
}

#[test]
fn test_keyword_longest_match() {
    assert_eq!(lex(b"this"), vec![tok(SyntaxKind::TokenThis, "this")]);
    assert_eq!(lex(b"thisx"), vec![tok(SyntaxKind::TokenIdent, "thisx")]);
    assert_eq!(lex(b"try"), vec![tok(SyntaxKind::TokenTry, "try")]);
    assert_eq!(lex(b"tryer"), vec![tok(SyntaxKind::TokenIdent, "tryer")]);
    assert_eq!(lex(b"throw"), vec![tok(SyntaxKind::TokenThrow, "throw")]);
    assert_eq!(lex(b"throws"), vec![tok(SyntaxKind::TokenIdent, "throws")]);
    assert_eq!(lex(b"true"), vec![tok(SyntaxKind::TokenTrue, "true")]);
    assert_eq!(lex(b"true_"), vec![tok(SyntaxKind::TokenIdent, "true_")]);
    assert_eq!(lex(b"truthy"), vec![tok(SyntaxKind::TokenIdent, "truthy")]);
}

#[test]
fn test_crlf_is_one_whitespace_token() {
    let tokens = lex(b"a\r\nb");
    let expected = vec![
        tok(SyntaxKind::TokenIdent, "a"),
        tok(SyntaxKind::TokenMultilineWhitespace, "\r\n"),
        tok(SyntaxKind::TokenIdent, "b"),
    ];
    assert_eq!(&tokens, &expected);
}

#[test]
fn test_whitespace_classification() {
    assert_eq!(lex(b"  "), vec![tok(SyntaxKind::TokenUnilineWhitespace, "  ")]);
    assert_eq!(lex(b" \n "), vec![tok(SyntaxKind::TokenMultilineWhitespace, " \n ")]);
    assert_eq!(lex(b"\r"), vec![tok(SyntaxKind::TokenMultilineWhitespace, "\r")]);
}

#[test]
fn test_trailing_comment() {
    // The comment stops before the line terminator, which opens the
    // following whitespace token.
    let tokens = lex(b"// note\nx");
    let expected = vec![
        tok(SyntaxKind::TokenTrailingComment, "// note"),
        tok(SyntaxKind::TokenMultilineWhitespace, "\n"),
        tok(SyntaxKind::TokenIdent, "x"),
    ];
    assert_eq!(&tokens, &expected);

    // A CRLF after the comment is one whitespace token, and a comment at
    // the end of input runs to the end.
    assert_eq!(
        lex(b"//a\r\nb"),
        vec![
            tok(SyntaxKind::TokenTrailingComment, "//a"),
            tok(SyntaxKind::TokenMultilineWhitespace, "\r\n"),
            tok(SyntaxKind::TokenIdent, "b"),
        ]
    );
    assert_eq!(lex(b"// no newline"), vec![tok(SyntaxKind::TokenTrailingComment, "// no newline")]);
}

#[test]
fn test_string_literals() {
    assert_eq!(lex(b"\"abc\""), vec![tok(SyntaxKind::TokenStrLit, "\"abc\"")]);
    // A backslash escapes the next byte, even a quote.
    assert_eq!(lex(b"\"a\\\"b\""), vec![tok(SyntaxKind::TokenStrLit, "\"a\\\"b\"")]);
    // An unterminated literal is a single error token to the end of input.
    assert_eq!(lex(b"\"abc"), vec![tok(SyntaxKind::TokenError, "\"abc")]);
    // A backslash at the very end leaves the literal unterminated.
    assert_eq!(lex(b"\"abc\\"), vec![tok(SyntaxKind::TokenError, "\"abc\\")]);
}

#[test]
fn test_punctuators_longest_match() {
    assert_eq!(lex(b"==="), vec![tok(SyntaxKind::TokenEqEqEq, "===")]);
    assert_eq!(
        lex(b"==="),
        vec![tok(SyntaxKind::TokenEqEqEq, "===")]
    );
    assert_eq!(
        lex(b"== ="),
        vec![
            tok(SyntaxKind::TokenEqEq, "=="),
            tok(SyntaxKind::TokenUnilineWhitespace, " "),
            tok(SyntaxKind::TokenEq, "="),
        ]
    );
    assert_eq!(lex(b">>>"), vec![tok(SyntaxKind::TokenGtGtGt, ">>>")]);
    assert_eq!(
        lex(b">>="),
        vec![tok(SyntaxKind::TokenGtGt, ">>"), tok(SyntaxKind::TokenEq, "=")]
    );
    assert_eq!(lex(b"!=="), vec![tok(SyntaxKind::TokenNotEqEq, "!==")]);
    assert_eq!(lex(b"&&"), vec![tok(SyntaxKind::TokenAmpAmp, "&&")]);
    assert_eq!(
        lex(b"&|"),
        vec![tok(SyntaxKind::TokenAmp, "&"), tok(SyntaxKind::TokenPipe, "|")]
    );
    assert_eq!(lex(b"++"), vec![tok(SyntaxKind::TokenPlusPlus, "++")]);
    assert_eq!(lex(b"--"), vec![tok(SyntaxKind::TokenMinusMinus, "--")]);
    assert_eq!(lex(b"<="), vec![tok(SyntaxKind::TokenLtEq, "<=")]);
    assert_eq!(lex(b"<<"), vec![tok(SyntaxKind::TokenLtLt, "<<")]);
}

#[test]
fn test_slash_alone_is_a_token() {
    assert_eq!(
        lex(b"a/b"),
        vec![
            tok(SyntaxKind::TokenIdent, "a"),
            tok(SyntaxKind::TokenSlash, "/"),
            tok(SyntaxKind::TokenIdent, "b"),
        ]
    );
}

#[test]
fn test_unrecognized_bytes_become_error_tokens() {
    assert_eq!(
        lex(b"a@b"),
        vec![
            tok(SyntaxKind::TokenIdent, "a"),
            tok(SyntaxKind::TokenError, "@"),
            tok(SyntaxKind::TokenIdent, "b"),
        ]
    );
    // Scanning always makes progress and never stops at an error.
    let tokens = lex(b"#@#");
    assert_eq!(tokens.len(), 3);
    for t in &tokens {
        assert_eq!(t.kind, SyntaxKind::TokenError);
    }
}

#[test]
fn test_losslessness_samples() {
    let inputs: Vec<&[u8]> = vec![
        b"",
        b"trace(\"Hello, World!\");\n",
        b"var x = 1 + 2; // sum\r\n",
        b"\"unterminated",
        b"a@b#c",
        b"this thisx try tryer \\",
        b"((a && b) || !c)",
        b"\xc3\xa9\xf0\x9f\x98\x80",
    ];
    for input in inputs {
        let mut reassembled: Vec<u8> = Vec::new();
        for t in lex(input) {
            reassembled.extend_from_slice(&t.text);
        }
        assert_eq!(reassembled, input.to_vec());
    }
}

#[test]
fn test_lexer_next_matches_lex() {
    let input = b"var x = 1; // done\n";
    let mut lexer = Lexer::new(input.to_vec());
    let mut streamed: Vec<LexerToken> = Vec::new();
    while let Some(t) = lexer.next() {
        streamed.push(t);
    }
    assert_eq!(streamed, lex(input));
    assert_eq!(lexer.next(), None);
}

#[test]
fn test_empty_input_yields_no_tokens() {
    assert_eq!(lex(b""), Vec::<LexerToken>::new());
    let mut lexer = Lexer::new(Vec::new());
    assert_eq!(lexer.next(), None);
}
