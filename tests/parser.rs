use cadk_bnf::ast::{Atom, Expr, Grammar, Ident, Production};
use cadk_bnf::lexer::{Lexer, Token};
use cadk_bnf::parser::{parse_text, GrammarParser, ParseError};

fn nt(name: &str) -> Expr {
    Expr::Atom(Atom::NonTerminal(Ident(name.into())))
}

fn t(text: &str) -> Expr {
    Expr::Atom(Atom::Terminal(text.into()))
}

#[test]
fn test_parse_choice() {
    let source = "12 a = 'b' | 'c' .";
    let lexer = Lexer::new(&source);
    let parser = GrammarParser::new();
    let ast = parser.parse(lexer).unwrap();
    let expected = Grammar {
        productions: vec![Production {
            index: Some(12),
            lhs: Ident("a".into()),
            rhs: Expr::Choice(vec![
                Expr::Atom(Atom::Terminal("b".into())),
                Expr::Atom(Atom::Terminal("c".into())),
            ]),
        }],
    };
    assert_eq!(ast, expected);
}

#[test]
fn test_parse_sequence() {
    let source = "25 assignment = variable '=' expression .";
    let lexer = Lexer::new(&source);
    let parser = GrammarParser::new();
    let ast = parser.parse(lexer).unwrap();
    let expected = Grammar {
        productions: vec![Production {
            index: Some(25),
            lhs: Ident("assignment".into()),
            rhs: Expr::Sequence(vec![
                Expr::Atom(Atom::NonTerminal(Ident("variable".into()))),
                Expr::Atom(Atom::Terminal("=".into())),
                Expr::Atom(Atom::NonTerminal(Ident("expression".into()))),
            ]),
        }],
    };
    assert_eq!(ast, expected);
}

#[test]
fn test_parse_optional() {
    let source = "30 function_call = function_name [ argument_list ] .";
    let lexer = Lexer::new(&source);
    let parser = GrammarParser::new();
    let ast = parser.parse(lexer).unwrap();
    let expected = Grammar {
        productions: vec![Production {
            index: Some(30),
            lhs: Ident("function_call".into()),
            rhs: Expr::Sequence(vec![
                Expr::Atom(Atom::NonTerminal(Ident("function_name".into()))),
                Expr::Optional(Box::new(Expr::Atom(Atom::NonTerminal(Ident(
                    "argument_list".into(),
                ))))),
            ]),
        }],
    };
    assert_eq!(ast, expected);
}

#[test]
fn test_parse_repeat() {
    let source = "125 digits = digit { digit } .";
    let lexer = Lexer::new(&source);
    let parser = GrammarParser::new();
    let ast = parser.parse(lexer).unwrap();
    let expected = Grammar {
        productions: vec![Production {
            index: Some(125),
            lhs: Ident("digits".into()),
            rhs: Expr::Sequence(vec![
                Expr::Atom(Atom::NonTerminal(Ident("digit".into()))),
                Expr::Repeat(Box::new(Expr::Atom(Atom::NonTerminal(Ident("digit".into()))))),
            ]),
        }],
    };
    assert_eq!(ast, expected);
}

#[test]
fn test_parse_group() {
    let source = "40 expression = term ( '+' | '-' ) term .";
    let lexer = Lexer::new(&source);
    let parser = GrammarParser::new();
    let ast = parser.parse(lexer).unwrap();
    let expected = Grammar {
        productions: vec![Production {
            index: Some(40),
            lhs: Ident("expression".into()),
            rhs: Expr::Sequence(vec![
                Expr::Atom(Atom::NonTerminal(Ident("term".into()))),
                Expr::Group(Box::new(Expr::Choice(vec![
                    Expr::Atom(Atom::Terminal("+".into())),
                    Expr::Atom(Atom::Terminal("-".into())),
                ]))),
                Expr::Atom(Atom::NonTerminal(Ident("term".into()))),
            ]),
        }],
    };
    assert_eq!(ast, expected);
}

#[test]
fn empty_and_comment_only_texts_have_no_productions() {
    assert_eq!(parse_text("").unwrap(), Grammar { productions: vec![] });
    assert_eq!(parse_text("  ; only a comment\n\n; another").unwrap(), Grammar { productions: vec![] });
}

#[test]
fn juxtaposition_binds_tighter_than_alternation() {
    let g = parse_text("x = a b | c .").unwrap();
    assert_eq!(
        g.productions[0].rhs,
        Expr::Choice(vec![Expr::Sequence(vec![nt("a"), nt("b")]), nt("c")])
    );
    assert_eq!(g.productions[0].index, None);
}

#[test]
fn single_items_are_not_wrapped() {
    let g = parse_text("x = ( a ) .").unwrap();
    assert_eq!(g.productions[0].rhs, Expr::Group(Box::new(nt("a"))));
    let g = parse_text("x = a .").unwrap();
    assert_eq!(g.productions[0].rhs, nt("a"));
}

#[test]
fn wrappers_kept_around_single_atoms() {
    let g = parse_text("x = [ a ] { 'b' } ( \\n ) .").unwrap();
    assert_eq!(
        g.productions[0].rhs,
        Expr::Sequence(vec![
            Expr::Optional(Box::new(nt("a"))),
            Expr::Repeat(Box::new(t("b"))),
            Expr::Group(Box::new(t("\\n"))),
        ])
    );
}

#[test]
fn nesting_inside_brackets() {
    let g = parse_text("x = { a | b c } .").unwrap();
    assert_eq!(
        g.productions[0].rhs,
        Expr::Repeat(Box::new(Expr::Choice(vec![nt("a"), Expr::Sequence(vec![nt("b"), nt("c")])])))
    );
}

#[test]
fn empty_quotes_parse_to_empty_terminal() {
    let g = parse_text("x = '' .").unwrap();
    assert_eq!(g.productions[0].rhs, t(""));
}

#[test]
fn productions_kept_in_order_with_duplicates() {
    let g = parse_text("1 a = b .\n a = c .").unwrap();
    assert_eq!(g.productions.len(), 2);
    assert_eq!(g.productions[0].index, Some(1));
    assert_eq!(g.productions[1].lhs, Ident("a".into()));
    assert_eq!(g.productions[1].rhs, nt("c"));
}

#[test]
fn missing_period_is_syntax_failure() {
    assert_eq!(
        parse_text("a = b c"),
        Err(ParseError::Syntax { offset: 7, found: None })
    );
    assert_eq!(
        parse_text("a = b ] ."),
        Err(ParseError::Syntax { offset: 6, found: Some(Token::RightBracket) })
    );
}

#[test]
fn factor_expected_errors() {
    assert_eq!(
        parse_text("a = | b ."),
        Err(ParseError::Syntax { offset: 4, found: Some(Token::Pipe) })
    );
    assert_eq!(
        parse_text("a = ( b ."),
        Err(ParseError::Syntax { offset: 8, found: Some(Token::Period) })
    );
    assert_eq!(
        parse_text("a = b = c ."),
        Err(ParseError::Syntax { offset: 6, found: Some(Token::Equal) })
    );
    assert_eq!(
        parse_text("= a ."),
        Err(ParseError::Syntax { offset: 0, found: Some(Token::Equal) })
    );
}

#[test]
fn lexical_failure_reported_where_reached() {
    assert_eq!(parse_text("a = b . #"), Err(ParseError::Lexical { offset: 8 }));
    assert_eq!(parse_text("a = b \\1 ."), Err(ParseError::Lexical { offset: 6 }));
    assert_eq!(
        parse_text("a b = c . #"),
        Err(ParseError::Syntax { offset: 2, found: Some(Token::Identifier("b".into())) })
    );
}
