use vstd::prelude::*;

verus! {

/// A character that the scanner could not place, with the 1-based line it
/// stands on.
#[derive(Clone, Copy, Debug, PartialEq, Eq, Structural)]
pub enum TokenizeError {
    UnexpectedCharacter(usize, char),
}

/// The character for a decimal digit below ten.
pub open spec fn digit_char(d: nat) -> char {
    if d == 0 {
        '0'
    } else if d == 1 {
        '1'
    } else if d == 2 {
        '2'
    } else if d == 3 {
        '3'
    } else if d == 4 {
        '4'
    } else if d == 5 {
        '5'
    } else if d == 6 {
        '6'
    } else if d == 7 {
        '7'
    } else if d == 8 {
        '8'
    } else {
        '9'
    }
}

/// The decimal digits of `n`, most significant first, without leading zeros.
pub open spec fn decimal(n: nat) -> Seq<char>
    decreases n,
{
    if n < 10 {
        seq![digit_char(n)]
    } else {
        decimal(n / 10).push(digit_char(n % 10))
    }
}

/// The one-line message for an error.
pub open spec fn error_text(e: TokenizeError) -> Seq<char> {
    match e {
        TokenizeError::UnexpectedCharacter(line, c) => "[line "@ + decimal(line as nat)
            + "] Error: Unexpected character: "@ + seq![c],
    }
}

/// Relies on `char::to_string`: a string that holds the one character.
#[verifier::external_body]
fn char_string(c: char) -> (r: String)
    ensures
        r@ == seq![c],
{
    c.to_string()
}

fn digit(d: usize) -> (r: char)
    requires
        d < 10,
    ensures
        r == digit_char(d as nat),
{
    match d {
        0 => '0',
        1 => '1',
        2 => '2',
        3 => '3',
        4 => '4',
        5 => '5',
        6 => '6',
        7 => '7',
        8 => '8',
        _ => '9',
    }
}

fn append_decimal(s: &mut String, n: usize)
    ensures
        final(s)@ == old(s)@ + decimal(n as nat),
    decreases n,
{
    if n >= 10 {
        append_decimal(s, n / 10);
    }
    let d = char_string(digit(n % 10));
    s.append(d.as_str());
    proof {
        assert(s@ =~= old(s)@ + decimal(n as nat));
    }
}

impl TokenizeError {
    /// Renders the error as `[line <n>] Error: Unexpected character: <c>`.
    pub fn render(&self) -> (r: String)
        ensures
            r@ == error_text(*self),
    {
        match self {
            TokenizeError::UnexpectedCharacter(line, c) => {
                let mut s = String::from_str("[line ");
                append_decimal(&mut s, *line);
                s.append("] Error: Unexpected character: ");
                s.append(char_string(*c).as_str());
                s
            },
        }
    }
}

} // verus!
