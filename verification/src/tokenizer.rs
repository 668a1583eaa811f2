//! A generic tokenizer: whitespace, unsigned integer literals and the four arithmetic
//! operators.
use vstd::prelude::*;
use vstd::string::*;

use crate::text::push_char;

verus! {

/// A stream of characters that can be read one at a time, with a look at the next
/// character before reading it.
pub struct CharStream {
    chars: Vec<char>,
    pos: usize,
}

impl CharStream {
    #[verifier::type_invariant]
    spec fn position_in_bounds(self) -> bool {
        self.pos <= self.chars@.len()
    }
}

impl View for CharStream {
    type V = Seq<char>;

    /// The characters not read yet.
    closed spec fn view(&self) -> Seq<char> {
        self.chars@.skip(self.pos as int)
    }
}

impl CharStream {
    /// A stream of the characters of `text`.
    pub fn new(text: &str) -> (r: CharStream)
        ensures
            r@ == text@,
    {
        let n = text.unicode_len();
        let mut chars: Vec<char> = Vec::new();
        for i in 0..n
            invariant
                n == text@.len(),
                chars@ == text@.take(i as int),
        {
            chars.push(text.get_char(i));
            assert(text@.take(i + 1) =~= text@.take(i as int).push(text@[i as int]));
        }
        assert(text@.take(n as int) =~= text@);
        CharStream::from_chars(chars)
    }

    /// A stream of the given characters.
    pub fn from_chars(chars: Vec<char>) -> (r: CharStream)
        ensures
            r@ == chars@,
    {
        let r = CharStream { chars, pos: 0 };
        assert(r.chars@.skip(0) =~= r.chars@);
        r
    }

    /// Reads the next character; `None` at the end.
    pub fn next(&mut self) -> (r: Option<char>)
        ensures
            old(self)@.len() <= usize::MAX,
            old(self)@.len() == 0 ==> r is None && final(self)@ == old(self)@,
            old(self)@.len() > 0 ==> r == Some(old(self)@[0]) && final(self)@ == old(self)@.drop_first(),
    {
        proof {
            use_type_invariant(&*self);
        }
        if self.pos < self.chars.len() {
            let c = self.chars[self.pos];
            let ghost before = self.chars@.skip(self.pos as int);
            self.pos = self.pos + 1;
            assert(self.chars@.skip(self.pos as int) =~= before.drop_first());
            Some(c)
        } else {
            None
        }
    }

    /// The next character, without reading it; `None` at the end.
    pub fn peek(&self) -> (r: Option<char>)
        ensures
            self@.len() <= usize::MAX,
            r == (if self@.len() > 0 {
                Some(self@[0])
            } else {
                None
            }),
    {
        proof {
            use_type_invariant(self);
        }
        if self.pos < self.chars.len() {
            Some(self.chars[self.pos])
        } else {
            None
        }
    }
}

/// A token.
#[derive(Debug, Clone, PartialEq, Eq)]
pub enum SQLToken {
    /// A space, tab or newline.
    Whitespace(char),
    /// An unsigned integer literal: a run of decimal digits.
    Literal(String),
    /// `+`
    Plus,
    /// `-`
    Minus,
    /// `*`
    Mult,
    /// `/`
    Divide,
}

/// A position in the input: line and column.
#[derive(Debug, Clone, Copy, PartialEq, Eq)]
pub struct Position {
    pub line: u64,
    pub col: u64,
}

impl Position {
    pub fn new(line: u64, col: u64) -> (r: Position)
        ensures
            r == (Position { line, col }),
    {
        Position { line, col }
    }
}

/// Why the input could not be tokenized.
#[derive(Debug, Clone, PartialEq, Eq)]
pub enum TokenizerError {
    /// A character that starts no token, and where it was found.
    UnexpectedChar(char, Position),
}

/// A tokenizer for whitespace, integer literals and arithmetic operators.
pub struct GenericTokenizer {}

pub open spec fn is_whitespace(c: char) -> bool {
    c == ' ' || c == '\t' || c == '\n'
}

pub open spec fn is_digit(c: char) -> bool {
    '0' <= c && c <= '9'
}

pub open spec fn is_operator(c: char) -> bool {
    c == '+' || c == '-' || c == '*' || c == '/'
}

/// Whether a token can start with `c`.
pub open spec fn starts_token(c: char) -> bool {
    is_whitespace(c) || is_digit(c) || is_operator(c)
}

/// The number of digits at the start of `s`.
pub open spec fn digit_run(s: Seq<char>) -> nat
    decreases s.len(),
{
    if s.len() > 0 && is_digit(s[0]) {
        1 + digit_run(s.drop_first())
    } else {
        0
    }
}

/// How many characters the token at the start of `s` takes: the whole run of digits for
/// a literal, one character otherwise.
pub open spec fn lexeme_len(s: Seq<char>) -> nat {
    if s.len() > 0 && is_digit(s[0]) {
        digit_run(s)
    } else {
        1
    }
}

/// `t` is the token that the input `s` starts with.
pub open spec fn token_of(t: SQLToken, s: Seq<char>) -> bool {
    let c = s[0];
    match t {
        SQLToken::Whitespace(w) => is_whitespace(c) && w == c,
        SQLToken::Literal(digits) => is_digit(c) && digits@ == s.take(digit_run(s) as int),
        SQLToken::Plus => c == '+',
        SQLToken::Minus => c == '-',
        SQLToken::Mult => c == '*',
        SQLToken::Divide => c == '/',
    }
}

/// The characters of the input that a token stands for.
pub open spec fn token_text(t: SQLToken) -> Seq<char> {
    match t {
        SQLToken::Whitespace(w) => seq![w],
        SQLToken::Literal(digits) => digits@,
        SQLToken::Plus => seq!['+'],
        SQLToken::Minus => seq!['-'],
        SQLToken::Mult => seq!['*'],
        SQLToken::Divide => seq!['/'],
    }
}

proof fn lemma_digit_run(s: Seq<char>, k: int)
    requires
        0 <= k <= s.len(),
        forall|i: int| 0 <= i < k ==> is_digit(#[trigger] s[i]),
        k == s.len() || !is_digit(s[k]),
    ensures
        digit_run(s) == k,
    decreases k,
{
    if k > 0 {
        assert forall|i: int| 0 <= i < k - 1 implies is_digit(#[trigger] s.drop_first()[i]) by {
            assert(s.drop_first()[i] == s[i + 1]);
        }
        if k < s.len() {
            assert(s.drop_first()[k - 1] == s[k]);
        }
        lemma_digit_run(s.drop_first(), k - 1);
    }
}

proof fn lemma_digit_run_bounds(s: Seq<char>)
    ensures
        digit_run(s) <= s.len(),
        forall|i: int| 0 <= i < digit_run(s) ==> is_digit(#[trigger] s[i]),
        digit_run(s) < s.len() ==> !is_digit(s[digit_run(s) as int]),
    decreases s.len(),
{
    if s.len() > 0 && is_digit(s[0]) {
        lemma_digit_run_bounds(s.drop_first());
        assert forall|i: int| 0 <= i < digit_run(s) implies is_digit(#[trigger] s[i]) by {
            if i > 0 {
                assert(s[i] == s.drop_first()[i - 1]);
            }
        }
        if digit_run(s) < s.len() {
            assert(s[digit_run(s) as int] == s.drop_first()[digit_run(s) - 1]);
        }
    }
}

impl GenericTokenizer {
    /// Reads the next token from `chars`.
    ///
    /// At the end of the input: `Ok(None)`, nothing read.  A space, tab or newline, or
    /// one of `+ - * /`, is a token of its own.  A digit starts a literal that takes
    /// the whole run of digits that follows.  Any other character is an error that
    /// names it, at position (0, 0); that character is read.
    pub fn next_token(&self, chars: &mut CharStream) -> (r: Result<Option<SQLToken>, TokenizerError>)
        ensures
            old(chars)@.len() == 0 ==> r == Ok::<Option<SQLToken>, TokenizerError>(None)
                && final(chars)@ == old(chars)@,
            old(chars)@.len() > 0 && starts_token(old(chars)@[0]) ==> {
                &&& r matches Ok(Some(t))
                &&& token_of(t, old(chars)@)
                &&& final(chars)@ == old(chars)@.skip(lexeme_len(old(chars)@) as int)
            },
            old(chars)@.len() > 0 && !starts_token(old(chars)@[0]) ==> {
                &&& r == Err::<Option<SQLToken>, TokenizerError>(
                    TokenizerError::UnexpectedChar(old(chars)@[0], Position { line: 0, col: 0 }),
                )
                &&& final(chars)@ == old(chars)@.drop_first()
            },
    {
        let ghost input = chars@;
        match chars.next() {
            Some(ch) => {
                if ch == ' ' || ch == '\t' || ch == '\n' {
                    Ok(Some(SQLToken::Whitespace(ch)))
                } else if '0' <= ch && ch <= '9' {
                    let mut s = String::new();
                    push_char(&mut s, ch);
                    let mut k: usize = 1;
                    assert(input.take(1) =~= seq![ch]);
                    assert(input.drop_first() =~= input.skip(1));
                    loop
                        invariant_except_break
                            input.len() <= usize::MAX,
                            1 <= k <= input.len(),
                            forall|i: int| 0 <= i < k ==> is_digit(#[trigger] input[i]),
                            s@ == input.take(k as int),
                            chars@ == input.skip(k as int),
                        ensures
                            1 <= k <= input.len(),
                            forall|i: int| 0 <= i < k ==> is_digit(#[trigger] input[i]),
                            s@ == input.take(k as int),
                            chars@ == input.skip(k as int),
                            k == input.len() || !is_digit(input[k as int]),
                        decreases input.len() - k,
                    {
                        match chars.peek() {
                            Some(c) => {
                                assert(c == input[k as int]);
                                if '0' <= c && c <= '9' {
                                    chars.next();
                                    push_char(&mut s, c);
                                    assert(input.take(k + 1) =~= input.take(k as int).push(c));
                                    assert(input.skip(k as int).drop_first() =~= input.skip(k + 1));
                                    k = k + 1;
                                } else {
                                    break;
                                }
                            },
                            None => {
                                break;
                            },
                        }
                    }
                    proof {
                        lemma_digit_run(input, k as int);
                    }
                    Ok(Some(SQLToken::Literal(s)))
                } else if ch == '+' {
                    Ok(Some(SQLToken::Plus))
                } else if ch == '-' {
                    Ok(Some(SQLToken::Minus))
                } else if ch == '*' {
                    Ok(Some(SQLToken::Mult))
                } else if ch == '/' {
                    Ok(Some(SQLToken::Divide))
                } else {
                    Err(TokenizerError::UnexpectedChar(ch, Position::new(0, 0)))
                }
            },
            None => Ok(None),
        }
    }
}

/// The token at the start of the input stands for exactly the characters it takes:
/// tokenizing neither drops nor adds characters.
#[verifier::spinoff_prover]
#[verifier::rlimit(60)]
pub proof fn token_text_is_consumed_input(t: SQLToken, s: Seq<char>)
    requires
        s.len() > 0,
        token_of(t, s),
    ensures
        1 <= lexeme_len(s) <= s.len(),
        token_text(t) == s.take(lexeme_len(s) as int),
{
    lemma_digit_run_bounds(s);
    if !is_digit(s[0]) {
        assert(s.take(1) =~= seq![s[0]]);
    }
}

/// A literal takes the longest run of digits: the character after it, if any, is not a
/// digit.
#[verifier::spinoff_prover]
#[verifier::rlimit(60)]
pub proof fn literal_is_longest_digit_run(s: Seq<char>)
    requires
        s.len() > 0,
        is_digit(s[0]),
    ensures
        lexeme_len(s) >= 1,
        forall|i: int| 0 <= i < lexeme_len(s) ==> is_digit(#[trigger] s[i]),
        lexeme_len(s) < s.len() ==> !is_digit(s[lexeme_len(s) as int]),
{
    lemma_digit_run_bounds(s);
}

} // verus!
