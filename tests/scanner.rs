use lox_scanner::{scan, ScanOutput, Token, TokenPair, TokenizeError};

fn lines(out: &ScanOutput) -> Vec<String> {
    out.token_lines().iter().map(|l| l.to_string()).collect()
}

#[test]
fn single_symbols_give_one_token_each() {
    let out = scan("(){}*.+-,;=!<>/");
    assert_eq!(
        out.tokens,
        vec![
            Token::LeftParen,
            Token::RightParen,
            Token::LeftBrace,
            Token::RightBrace,
            Token::Star,
            Token::Dot,
            Token::Plus,
            Token::Minus,
            Token::Comma,
            Token::Semicolon,
            Token::Equal,
            Token::Bang,
            Token::Less,
            Token::Greater,
            Token::Slash,
        ]
    );
    assert!(out.errors.is_empty());
    assert_eq!(
        lines(&out),
        vec![
            "LEFT_PAREN ( null",
            "RIGHT_PAREN ) null",
            "LEFT_BRACE { null",
            "RIGHT_BRACE } null",
            "STAR * null",
            "DOT . null",
            "PLUS + null",
            "MINUS - null",
            "COMMA , null",
            "SEMICOLON ; null",
            "EQUAL = null",
            "BANG ! null",
            "LESS < null",
            "GREATER > null",
            "SLASH / null",
            "EOF  null",
        ]
    );
}

#[test]
fn equal_equal_is_one_token() {
    let out = scan("==");
    assert_eq!(out.tokens, vec![Token::EqualEqual]);
    assert!(out.errors.is_empty());
    assert_eq!(lines(&out), vec!["EQUAL_EQUAL == null", "EOF  null"]);
}

#[test]
fn every_two_character_operator() {
    let out = scan("!=<=>===");
    assert_eq!(
        out.tokens,
        vec![Token::BangEqual, Token::LessEqual, Token::GreaterEqual, Token::EqualEqual]
    );
    assert_eq!(
        lines(&out),
        vec![
            "BANG_EQUAL != null",
            "LESS_EQUAL <= null",
            "GREATER_EQUAL >= null",
            "EQUAL_EQUAL == null",
            "EOF  null",
        ]
    );
}

#[test]
fn separated_equals_stay_apart() {
    let out = scan("= =");
    assert_eq!(out.tokens, vec![Token::Equal, Token::Equal]);
}

#[test]
fn bang_at_end_of_input() {
    let out = scan("!");
    assert_eq!(out.tokens, vec![Token::Bang]);
    assert!(out.errors.is_empty());
    assert!(!out.has_errors());
}

#[test]
fn comment_is_dropped_up_to_newline() {
    let out = scan("// anything here\n+");
    assert_eq!(out.tokens, vec![Token::Plus]);
    assert!(out.errors.is_empty());
    assert_eq!(lines(&out), vec!["PLUS + null", "EOF  null"]);
}

#[test]
fn line_count_goes_past_comment() {
    let out = scan("// anything here\n+@");
    assert_eq!(out.tokens, vec![Token::Plus]);
    assert_eq!(out.errors, vec![TokenizeError::UnexpectedCharacter(2, '@')]);
}

#[test]
fn comment_at_end_of_input() {
    let out = scan("+// no newline ( )");
    assert_eq!(out.tokens, vec![Token::Plus]);
    assert!(out.errors.is_empty());
}

#[test]
fn unexpected_character_is_reported() {
    let out = scan("@");
    assert!(out.tokens.is_empty());
    assert_eq!(out.errors, vec![TokenizeError::UnexpectedCharacter(1, '@')]);
    assert!(out.has_errors());
    assert_eq!(out.error_lines(), vec!["[line 1] Error: Unexpected character: @".to_string()]);
    assert_eq!(lines(&out), vec!["EOF  null"]);
}

#[test]
fn scanning_goes_on_after_an_error() {
    let out = scan("@+$(");
    assert_eq!(out.tokens, vec![Token::Plus, Token::LeftParen]);
    assert_eq!(
        out.errors,
        vec![
            TokenizeError::UnexpectedCharacter(1, '@'),
            TokenizeError::UnexpectedCharacter(1, '$'),
        ]
    );
}

#[test]
fn empty_input() {
    let out = scan("");
    assert!(out.tokens.is_empty());
    assert!(out.errors.is_empty());
    assert!(!out.has_errors());
    assert_eq!(lines(&out), vec!["EOF  null"]);
}

#[test]
fn blanks_are_dropped() {
    let out = scan(" \t\r\n  \t");
    assert!(out.tokens.is_empty());
    assert!(out.errors.is_empty());
}

#[test]
fn scanning_twice_gives_the_same_result() {
    let text = "(==) // c\n!= @ { ; }\n#";
    let a = scan(text);
    let b = scan(text);
    assert_eq!(a.tokens, b.tokens);
    assert_eq!(a.errors, b.errors);
}

#[test]
fn error_lines_carry_multi_digit_numbers() {
    let mut text = String::new();
    for _ in 0..12 {
        text.push('\n');
    }
    text.push('#');
    let out = scan(&text);
    assert_eq!(out.errors, vec![TokenizeError::UnexpectedCharacter(13, '#')]);
    assert_eq!(out.error_lines(), vec!["[line 13] Error: Unexpected character: #".to_string()]);
}

#[test]
fn non_ascii_character_is_an_error() {
    let out = scan("é-");
    assert_eq!(out.tokens, vec![Token::Minus]);
    assert_eq!(out.errors, vec![TokenizeError::UnexpectedCharacter(1, 'é')]);
    assert_eq!(out.error_lines(), vec!["[line 1] Error: Unexpected character: é".to_string()]);
}

#[test]
fn error_render_large_line() {
    let e = TokenizeError::UnexpectedCharacter(1070, 'x');
    assert_eq!(e.render(), "[line 1070] Error: Unexpected character: x");
}

#[test]
fn token_from_character() {
    assert_eq!(Token::try_from('('), Ok(Token::LeftParen));
    assert_eq!(Token::try_from('/'), Ok(Token::Slash));
    assert_eq!(Token::try_from('a'), Err('a'));
    assert_eq!(Token::try_from(' '), Err(' '));
}

#[test]
fn pair_from_characters() {
    assert_eq!(TokenPair::try_from(('/', '/')), Ok(TokenPair::SlashSlash));
    assert_eq!(TokenPair::try_from(('>', '=')), Ok(TokenPair::GreaterEqual));
    assert_eq!(TokenPair::try_from(('=', '!')), Err(()));
    assert_eq!(TokenPair::SlashSlash.token(), None);
    assert_eq!(TokenPair::LessEqual.token(), Some(Token::LessEqual));
}

#[test]
fn token_render() {
    assert_eq!(Token::GreaterEqual.render(), "GREATER_EQUAL >= null");
    assert_eq!(Token::Semicolon.render(), "SEMICOLON ; null");
}
