use cadk_bnf::lexer::{unquote, LexicalError, Lexer, Token};

fn all_tokens(source: &str) -> Vec<(usize, Token, usize)> {
    let mut lexer = Lexer::new(source);
    let mut out = Vec::new();
    while let Some(item) = lexer.next() {
        out.push(item.unwrap());
    }
    out
}

#[test]
fn test_basic_lexer() {
    let mut lexer = Lexer::new("==");
    let spanned_token = lexer.next().unwrap().unwrap();
    assert_eq!(spanned_token, (0, Token::Equal, 1));
    let spanned_token = lexer.next().unwrap().unwrap();
    assert_eq!(spanned_token, (1, Token::Equal, 2));
    let spanned_token = lexer.next();
    assert_eq!(spanned_token, None);
}

#[test]
fn test_lex_bnf_rules() {
    let source = r"
         0 ABS = 'abs' .
         123 bit = '0' | '1' .
         125 digits = digit { digit } .
         219 function_call = ( built_in_function | function_ref ) [ actual_parameter_list ] .
         341 width_spec = '(' width ')' [ FIXED ] .
         149 tail_remark = '--' [ remark_tag ] { \a | \s | \x8 | \x9 | \xA | \xB | \xC | \xD } \n .
        ";
    let expected_tokens = [
        Token::LineNumber(0),
        Token::Identifier("ABS".into()),
        Token::Equal,
        Token::String("abs".into()),
        Token::Period,
        Token::LineNumber(123),
        Token::Identifier("bit".into()),
        Token::Equal,
        Token::String("0".into()),
        Token::Pipe,
        Token::String("1".into()),
        Token::Period,
        Token::LineNumber(125),
        Token::Identifier("digits".into()),
        Token::Equal,
        Token::Identifier("digit".into()),
        Token::LeftBrace,
        Token::Identifier("digit".into()),
        Token::RightBrace,
        Token::Period,
        Token::LineNumber(219),
        Token::Identifier("function_call".into()),
        Token::Equal,
        Token::LeftParen,
        Token::Identifier("built_in_function".into()),
        Token::Pipe,
        Token::Identifier("function_ref".into()),
        Token::RightParen,
        Token::LeftBracket,
        Token::Identifier("actual_parameter_list".into()),
        Token::RightBracket,
        Token::Period,
        Token::LineNumber(341),
        Token::Identifier("width_spec".into()),
        Token::Equal,
        Token::String("(".into()),
        Token::Identifier("width".into()),
        Token::String(")".into()),
        Token::LeftBracket,
        Token::Identifier("FIXED".into()),
        Token::RightBracket,
        Token::Period,
        Token::LineNumber(149),
        Token::Identifier("tail_remark".into()),
        Token::Equal,
        Token::String("--".into()),
        Token::LeftBracket,
        Token::Identifier("remark_tag".into()),
        Token::RightBracket,
        Token::LeftBrace,
        Token::EscapeSequence(r"\a".into()),
        Token::Pipe,
        Token::EscapeSequence(r"\s".into()),
        Token::Pipe,
        Token::EscapeSequence(r"\x8".into()),
        Token::Pipe,
        Token::EscapeSequence(r"\x9".into()),
        Token::Pipe,
        Token::EscapeSequence(r"\xA".into()),
        Token::Pipe,
        Token::EscapeSequence(r"\xB".into()),
        Token::Pipe,
        Token::EscapeSequence(r"\xC".into()),
        Token::Pipe,
        Token::EscapeSequence(r"\xD".into()),
        Token::RightBrace,
        Token::EscapeSequence(r"\n".into()),
        Token::Period,
    ];
    let tokens = all_tokens(source);
    assert_eq!(tokens.len(), expected_tokens.len());
    for (actual, expected) in tokens.iter().zip(expected_tokens) {
        assert_eq!(actual.1, expected, "{}..{}", actual.0, actual.2);
    }
}

#[test]
fn empty_quotes_lex_to_empty_string() {
    assert_eq!(all_tokens("''"), vec![(0, Token::String(String::new()), 2)]);
}

#[test]
fn backslash_before_non_letter_fails_there() {
    let mut lexer = Lexer::new("a = \\1 .");
    assert_eq!(lexer.next(), Some(Ok((0, Token::Identifier("a".into()), 1))));
    assert_eq!(lexer.next(), Some(Ok((2, Token::Equal, 3))));
    assert_eq!(lexer.next(), Some(Err(LexicalError::InvalidToken { offset: 4 })));
    assert_eq!(lexer.next(), None);
}

#[test]
fn backslash_at_end_fails() {
    let mut lexer = Lexer::new("  \\");
    assert_eq!(lexer.next(), Some(Err(LexicalError::InvalidToken { offset: 2 })));
}

#[test]
fn escape_takes_at_most_two_hex_digits() {
    assert_eq!(
        all_tokens(r"\x1F2 \nab"),
        vec![
            (0, Token::EscapeSequence(r"\x1F".into()), 4),
            (4, Token::LineNumber(2), 5),
            (6, Token::EscapeSequence(r"\nab".into()), 10),
        ]
    );
}

#[test]
fn comments_and_blanks_are_skipped() {
    assert_eq!(
        all_tokens("; a comment\n\t\x0C x ; trailing"),
        vec![(15, Token::Identifier("x".into()), 16)]
    );
}

#[test]
fn digits_then_letters_are_two_tokens() {
    assert_eq!(
        all_tokens("007abc_9"),
        vec![(0, Token::LineNumber(7), 3), (3, Token::Identifier("abc_9".into()), 8)]
    );
}

#[test]
fn line_number_at_u32_limit() {
    assert_eq!(all_tokens("4294967295"), vec![(0, Token::LineNumber(4294967295), 10)]);
    let mut lexer = Lexer::new(" 4294967296");
    assert_eq!(lexer.next(), Some(Err(LexicalError::InvalidToken { offset: 1 })));
}

#[test]
fn unterminated_string_fails_at_quote() {
    let mut lexer = Lexer::new("a 'bc");
    assert_eq!(lexer.next(), Some(Ok((0, Token::Identifier("a".into()), 1))));
    assert_eq!(lexer.next(), Some(Err(LexicalError::InvalidToken { offset: 2 })));
}

#[test]
fn carriage_return_is_not_blank() {
    let mut lexer = Lexer::new("\r");
    assert_eq!(lexer.next(), Some(Err(LexicalError::InvalidToken { offset: 0 })));
}

#[test]
fn offsets_count_bytes() {
    assert_eq!(
        all_tokens("'é' x"),
        vec![(0, Token::String("é".into()), 4), (5, Token::Identifier("x".into()), 6)]
    );
}

#[test]
fn unquote_strips_both_quotes() {
    assert_eq!(unquote("'abc'"), "abc");
    assert_eq!(unquote("''"), "");
}

#[test]
fn end_offset_is_byte_length() {
    let lexer = Lexer::new("aé");
    assert_eq!(lexer.end_offset(), 3);
}
