use vstd::prelude::*;

use crate::error::{error_text, TokenizeError};
use crate::token::{pair_of, pair_token, single_token, Token, TokenPair};

verus! {

/// Characters that separate tokens and are dropped: space, tab, carriage return.
pub open spec fn is_blank(c: char) -> bool {
    c == ' ' || c == '\t' || c == '\r'
}

/// The tokens and errors of `s` from index `i` on, where `line` is the line
/// that index `i` stands on and `in_comment` says whether a line comment is
/// open there.
pub open spec fn scan_from(s: Seq<char>, i: nat, line: nat, in_comment: bool) -> (
    Seq<Token>,
    Seq<TokenizeError>,
)
    decreases s.len() - i,
{
    if i >= s.len() {
        (seq![], seq![])
    } else {
        let c = s[i as int];
        if in_comment {
            if c == '\n' {
                scan_from(s, i + 1, line + 1, false)
            } else {
                scan_from(s, i + 1, line, true)
            }
        } else if i + 1 < s.len() && pair_of(c, s[(i + 1) as int]) is Some {
            match pair_token(pair_of(c, s[(i + 1) as int])->0) {
                Some(t) => {
                    let rest = scan_from(s, i + 2, line, false);
                    (seq![t] + rest.0, rest.1)
                },
                None => scan_from(s, i + 2, line, true),
            }
        } else if c == '\n' {
            scan_from(s, i + 1, line + 1, false)
        } else if is_blank(c) {
            scan_from(s, i + 1, line, false)
        } else {
            let rest = scan_from(s, i + 1, line, false);
            match single_token(c) {
                Some(t) => (seq![t] + rest.0, rest.1),
                None => (rest.0, seq![TokenizeError::UnexpectedCharacter(line as usize, c)] + rest.1),
            }
        }
    }
}

/// The tokens of a whole source text, in order.
pub open spec fn tokens_of(s: Seq<char>) -> Seq<Token> {
    scan_from(s, 0, 1, false).0
}

/// The errors of a whole source text, in the order they were found.
pub open spec fn errors_of(s: Seq<char>) -> Seq<TokenizeError> {
    scan_from(s, 0, 1, false).1
}

proof fn lemma_push_then_append<T>(a: Seq<T>, x: T, b: Seq<T>)
    ensures
        a.push(x) + b == a + (seq![x] + b),
{
    assert(a.push(x) + b =~= a + (seq![x] + b));
}

/// What one scan produced: the tokens and the errors, each in source order.
pub struct ScanOutput {
    pub tokens: Vec<Token>,
    pub errors: Vec<TokenizeError>,
}

fn chars_of(source: &str) -> (r: Vec<char>)
    ensures
        r@ == source@,
{
    let mut r: Vec<char> = Vec::new();
    for c in it: source.chars()
        invariant
            r@ == it.seq().take(it.index() as int),
    {
        r.push(c);
    }
    r
}

/// Scans `source` in one pass with one character of lookahead. A
/// two-character operator wins over its first character alone, `//` drops
/// the rest of its line, and each unknown character becomes an error while
/// the scan goes on.
pub fn scan(source: &str) -> (r: ScanOutput)
    ensures
        r.tokens@ == tokens_of(source@),
        r.errors@ == errors_of(source@),
{
    let chars = chars_of(source);
    let n = chars.len();
    let ghost s = source@;
    let mut tokens: Vec<Token> = Vec::new();
    let mut errors: Vec<TokenizeError> = Vec::new();
    let mut i: usize = 0;
    // newlines consumed so far: the current line is one more
    let mut newlines: usize = 0;
    let mut in_comment = false;
    while i < n
        invariant
            chars@ == s,
            n == s.len(),
            i <= n,
            newlines <= i,
            tokens@ + scan_from(s, i as nat, (newlines + 1) as nat, in_comment).0 == tokens_of(s),
            errors@ + scan_from(s, i as nat, (newlines + 1) as nat, in_comment).1 == errors_of(s),
        decreases n - i,
    {
        let c = chars[i];
        if in_comment {
            if c == '\n' {
                in_comment = false;
                newlines = newlines + 1;
            }
            i = i + 1;
        } else {
            let pair = if i + 1 < n {
                TokenPair::try_from((c, chars[i + 1]))
            } else {
                Err(())
            };
            match pair {
                Ok(p) => {
                    match p.token() {
                        Some(t) => {
                            proof {
                                let rest = scan_from(s, (i + 2) as nat, (newlines + 1) as nat, false);
                                lemma_push_then_append(tokens@, t, rest.0);
                            }
                            tokens.push(t);
                        },
                        None => {
                            in_comment = true;
                        },
                    }
                    i = i + 2;
                },
                Err(_) => {
                    if c == '\n' {
                        newlines = newlines + 1;
                    } else if c == ' ' || c == '\t' || c == '\r' {
                    } else {
                        let ghost rest = scan_from(s, (i + 1) as nat, (newlines + 1) as nat, false);
                        match Token::try_from(c) {
                            Ok(t) => {
                                proof {
                                    lemma_push_then_append(tokens@, t, rest.0);
                                }
                                tokens.push(t);
                            },
                            Err(_) => {
                                let e = TokenizeError::UnexpectedCharacter(newlines + 1, c);
                                proof {
                                    lemma_push_then_append(errors@, e, rest.1);
                                }
                                errors.push(e);
                            },
                        }
                    }
                    i = i + 1;
                },
            }
        }
    }
    proof {
        assert(tokens@ =~= tokens@ + scan_from(s, i as nat, (newlines + 1) as nat, in_comment).0);
        assert(errors@ =~= errors@ + scan_from(s, i as nat, (newlines + 1) as nat, in_comment).1);
    }
    ScanOutput { tokens, errors }
}

/// The lines that a scan prints on its output: one per token, in order, then
/// the end-of-input marker exactly once.
pub open spec fn output_lines(tokens: Seq<Token>) -> Seq<Seq<char>> {
    tokens.map_values(|t: Token| t.text()).push("EOF  null"@)
}

impl ScanOutput {
    /// Whether the scan met any character it could not place; a caller treats
    /// that as a failed run.
    pub fn has_errors(&self) -> (r: bool)
        ensures
            r == (self.errors@.len() > 0),
    {
        self.errors.len() > 0
    }

    /// The rendered tokens followed by the end-of-input marker.
    pub fn token_lines(&self) -> (r: Vec<&'static str>)
        ensures
            r@.map_values(|l: &'static str| l@) == output_lines(self.tokens@),
    {
        let mut r: Vec<&'static str> = Vec::new();
        let mut i: usize = 0;
        while i < self.tokens.len()
            invariant
                i <= self.tokens@.len(),
                r@.len() == i,
                forall|k: int| 0 <= k < i ==> (#[trigger] r@[k])@ == self.tokens@[k].text(),
            decreases self.tokens@.len() - i,
        {
            r.push(self.tokens[i].render());
            i = i + 1;
        }
        r.push("EOF  null");
        proof {
            assert(r@.map_values(|l: &'static str| l@) =~= output_lines(self.tokens@));
        }
        r
    }

    /// The rendered errors, in the order they were found.
    pub fn error_lines(&self) -> (r: Vec<String>)
        ensures
            r@.map_values(|l: String| l@) == self.errors@.map_values(|e: TokenizeError| error_text(e)),
    {
        let mut r: Vec<String> = Vec::new();
        let mut i: usize = 0;
        while i < self.errors.len()
            invariant
                i <= self.errors@.len(),
                r@.len() == i,
                forall|k: int| 0 <= k < i ==> (#[trigger] r@[k])@ == error_text(self.errors@[k]),
            decreases self.errors@.len() - i,
        {
            r.push(self.errors[i].render());
            i = i + 1;
        }
        proof {
            assert(r@.map_values(|l: String| l@) =~= self.errors@.map_values(
                |e: TokenizeError| error_text(e),
            ));
        }
        r
    }
}

proof fn lemma_single_symbols_from(s: Seq<char>, i: nat, line: nat)
    requires
        i <= s.len(),
        forall|k: int| 0 <= k < s.len() ==> single_token(#[trigger] s[k]) is Some,
        forall|k: int| 0 <= k < s.len() - 1 ==> pair_of(#[trigger] s[k], s[k + 1]) is None,
    ensures
        scan_from(s, i, line, false).0.len() == s.len() - i,
        forall|k: int|
            0 <= k < s.len() - i ==> Some(#[trigger] scan_from(s, i, line, false).0[k])
                == single_token(s[i + k]),
        scan_from(s, i, line, false).1.len() == 0,
    decreases s.len() - i,
{
    if i < s.len() {
        let c = s[i as int];
        assert(single_token(c) is Some);
        if i + 1 < s.len() {
            assert(pair_of(c, s[(i + 1) as int]) is None);
        }
        lemma_single_symbols_from(s, i + 1, line);
        let rest = scan_from(s, i + 1, line, false);
        assert(scan_from(s, i, line, false).0 == seq![single_token(c)->0] + rest.0);
        assert forall|k: int| 0 <= k < s.len() - i implies Some(
            #[trigger] scan_from(s, i, line, false).0[k],
        ) == single_token(s[i + k]) by {
            if k > 0 {
                assert(rest.0[k - 1] == scan_from(s, i, line, false).0[k]);
                assert(Some(rest.0[k - 1]) == single_token(s[i + 1 + (k - 1)]));
            }
        }
    }
}

/// A text made only of one-character symbols, no two neighbours of which
/// form a two-character operator or a comment opener, scans to exactly one
/// token per character, each the table's token for that character, and to
/// no error.
pub proof fn lemma_single_symbols(s: Seq<char>)
    requires
        forall|k: int| 0 <= k < s.len() ==> single_token(#[trigger] s[k]) is Some,
        forall|k: int| 0 <= k < s.len() - 1 ==> pair_of(#[trigger] s[k], s[k + 1]) is None,
    ensures
        tokens_of(s).len() == s.len(),
        forall|k: int| 0 <= k < s.len() ==> Some(#[trigger] tokens_of(s)[k]) == single_token(s[k]),
        errors_of(s).len() == 0,
{
    lemma_single_symbols_from(s, 0, 1);
    assert forall|k: int| 0 <= k < s.len() implies Some(#[trigger] tokens_of(s)[k]) == single_token(
        s[k],
    ) by {
        assert(s[0 + k] == s[k]);
    }
}

/// Scanning depends on the text alone: two scans of the same text give the
/// same tokens and the same errors.
pub proof fn lemma_scan_deterministic(source: &str, first: ScanOutput, second: ScanOutput)
    requires
        first.tokens@ == tokens_of(source@),
        first.errors@ == errors_of(source@),
        second.tokens@ == tokens_of(source@),
        second.errors@ == errors_of(source@),
    ensures
        first.tokens@ == second.tokens@,
        first.errors@ == second.errors@,
{
}

} // verus!
