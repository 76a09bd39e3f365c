use vstd::prelude::*;

verus! {

/// A lexical token: one of the operators and punctuation marks of the language.
#[derive(Clone, Copy, Debug, PartialEq, Eq, Structural)]
pub enum Token {
    LeftParen,
    RightParen,
    LeftBrace,
    RightBrace,
    Star,
    Dot,
    Plus,
    Minus,
    Comma,
    Semicolon,
    Equal,
    Bang,
    Less,
    Greater,
    Slash,
    EqualEqual,
    BangEqual,
    LessEqual,
    GreaterEqual,
}

/// The token that a single character stands for, if any.
pub open spec fn single_token(c: char) -> Option<Token> {
    if c == '(' {
        Some(Token::LeftParen)
    } else if c == ')' {
        Some(Token::RightParen)
    } else if c == '{' {
        Some(Token::LeftBrace)
    } else if c == '}' {
        Some(Token::RightBrace)
    } else if c == '*' {
        Some(Token::Star)
    } else if c == '.' {
        Some(Token::Dot)
    } else if c == '+' {
        Some(Token::Plus)
    } else if c == '-' {
        Some(Token::Minus)
    } else if c == ',' {
        Some(Token::Comma)
    } else if c == ';' {
        Some(Token::Semicolon)
    } else if c == '=' {
        Some(Token::Equal)
    } else if c == '!' {
        Some(Token::Bang)
    } else if c == '<' {
        Some(Token::Less)
    } else if c == '>' {
        Some(Token::Greater)
    } else if c == '/' {
        Some(Token::Slash)
    } else {
        None
    }
}

impl TryFrom<char> for Token {
    type Error = char;

    /// Looks `c` up in the table of one-character tokens; a character that is
    /// not in it comes back as the error.
    fn try_from(c: char) -> (r: Result<Token, char>) {
        match c {
            '(' => Ok(Token::LeftParen),
            ')' => Ok(Token::RightParen),
            '{' => Ok(Token::LeftBrace),
            '}' => Ok(Token::RightBrace),
            '*' => Ok(Token::Star),
            '.' => Ok(Token::Dot),
            '+' => Ok(Token::Plus),
            '-' => Ok(Token::Minus),
            ',' => Ok(Token::Comma),
            ';' => Ok(Token::Semicolon),
            '=' => Ok(Token::Equal),
            '!' => Ok(Token::Bang),
            '<' => Ok(Token::Less),
            '>' => Ok(Token::Greater),
            '/' => Ok(Token::Slash),
            _ => Err(c),
        }
    }
}

impl vstd::std_specs::convert::TryFromSpecImpl<char> for Token {
    open spec fn obeys_try_from_spec() -> bool {
        true
    }

    open spec fn try_from_spec(c: char) -> Result<Token, char> {
        match single_token(c) {
            Some(t) => Ok(t),
            None => Err(c),
        }
    }
}

/// The outcome of looking at two adjacent characters: a two-character
/// operator, or the start of a line comment.
#[derive(Clone, Copy, Debug, PartialEq, Eq, Structural)]
pub enum TokenPair {
    EqualEqual,
    BangEqual,
    LessEqual,
    GreaterEqual,
    SlashSlash,
}

/// The pair that two adjacent characters form, if any.
pub open spec fn pair_of(c: char, n: char) -> Option<TokenPair> {
    if c == '=' && n == '=' {
        Some(TokenPair::EqualEqual)
    } else if c == '!' && n == '=' {
        Some(TokenPair::BangEqual)
    } else if c == '<' && n == '=' {
        Some(TokenPair::LessEqual)
    } else if c == '>' && n == '=' {
        Some(TokenPair::GreaterEqual)
    } else if c == '/' && n == '/' {
        Some(TokenPair::SlashSlash)
    } else {
        None
    }
}

impl TryFrom<(char, char)> for TokenPair {
    type Error = ();

    /// Recognises the two-character operators and the comment opener.
    fn try_from(cn: (char, char)) -> (r: Result<TokenPair, ()>) {
        match cn {
            ('=', '=') => Ok(TokenPair::EqualEqual),
            ('!', '=') => Ok(TokenPair::BangEqual),
            ('<', '=') => Ok(TokenPair::LessEqual),
            ('>', '=') => Ok(TokenPair::GreaterEqual),
            ('/', '/') => Ok(TokenPair::SlashSlash),
            _ => Err(()),
        }
    }
}

impl vstd::std_specs::convert::TryFromSpecImpl<(char, char)> for TokenPair {
    open spec fn obeys_try_from_spec() -> bool {
        true
    }

    open spec fn try_from_spec(cn: (char, char)) -> Result<TokenPair, ()> {
        match pair_of(cn.0, cn.1) {
            Some(p) => Ok(p),
            None => Err(()),
        }
    }
}

impl Token {
    /// The canonical rendering of this token: kind name, lexeme, and `null`.
    pub open spec fn text(self) -> Seq<char> {
        match self {
            Token::LeftParen => "LEFT_PAREN ( null"@,
            Token::RightParen => "RIGHT_PAREN ) null"@,
            Token::LeftBrace => "LEFT_BRACE { null"@,
            Token::RightBrace => "RIGHT_BRACE } null"@,
            Token::Star => "STAR * null"@,
            Token::Dot => "DOT . null"@,
            Token::Plus => "PLUS + null"@,
            Token::Minus => "MINUS - null"@,
            Token::Comma => "COMMA , null"@,
            Token::Semicolon => "SEMICOLON ; null"@,
            Token::Equal => "EQUAL = null"@,
            Token::Bang => "BANG ! null"@,
            Token::Less => "LESS < null"@,
            Token::Greater => "GREATER > null"@,
            Token::Slash => "SLASH / null"@,
            Token::EqualEqual => "EQUAL_EQUAL == null"@,
            Token::BangEqual => "BANG_EQUAL != null"@,
            Token::LessEqual => "LESS_EQUAL <= null"@,
            Token::GreaterEqual => "GREATER_EQUAL >= null"@,
        }
    }

    /// Renders the token as one line of scanner output, without the newline.
    pub fn render(&self) -> (r: &'static str)
        ensures
            r@ == self.text(),
    {
        match self {
            Token::LeftParen => "LEFT_PAREN ( null",
            Token::RightParen => "RIGHT_PAREN ) null",
            Token::LeftBrace => "LEFT_BRACE { null",
            Token::RightBrace => "RIGHT_BRACE } null",
            Token::Star => "STAR * null",
            Token::Dot => "DOT . null",
            Token::Plus => "PLUS + null",
            Token::Minus => "MINUS - null",
            Token::Comma => "COMMA , null",
            Token::Semicolon => "SEMICOLON ; null",
            Token::Equal => "EQUAL = null",
            Token::Bang => "BANG ! null",
            Token::Less => "LESS < null",
            Token::Greater => "GREATER > null",
            Token::Slash => "SLASH / null",
            Token::EqualEqual => "EQUAL_EQUAL == null",
            Token::BangEqual => "BANG_EQUAL != null",
            Token::LessEqual => "LESS_EQUAL <= null",
            Token::GreaterEqual => "GREATER_EQUAL >= null",
        }
    }
}

/// The token that a pair stands for; a comment opener stands for none.
pub open spec fn pair_token(p: TokenPair) -> Option<Token> {
    match p {
        TokenPair::EqualEqual => Some(Token::EqualEqual),
        TokenPair::BangEqual => Some(Token::BangEqual),
        TokenPair::LessEqual => Some(Token::LessEqual),
        TokenPair::GreaterEqual => Some(Token::GreaterEqual),
        TokenPair::SlashSlash => None,
    }
}

impl TokenPair {
    /// The combined token for a two-character operator; `None` for `//`,
    /// which opens a comment and yields no token.
    pub fn token(&self) -> (r: Option<Token>)
        ensures
            r == pair_token(*self),
    {
        match self {
            TokenPair::EqualEqual => Some(Token::EqualEqual),
            TokenPair::BangEqual => Some(Token::BangEqual),
            TokenPair::LessEqual => Some(Token::LessEqual),
            TokenPair::GreaterEqual => Some(Token::GreaterEqual),
            TokenPair::SlashSlash => None,
        }
    }
}

} // verus!
