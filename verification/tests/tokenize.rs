use sqlparser_ddl::tokenizer::{CharStream, GenericTokenizer, Position, SQLToken, TokenizerError};

fn all_tokens(text: &str) -> Result<Vec<SQLToken>, TokenizerError> {
    let tokenizer = GenericTokenizer {};
    let mut chars = CharStream::new(text);
    let mut tokens = Vec::new();
    while let Some(t) = tokenizer.next_token(&mut chars)? {
        tokens.push(t);
    }
    Ok(tokens)
}

fn text_of(t: &SQLToken) -> String {
    match t {
        SQLToken::Whitespace(c) => c.to_string(),
        SQLToken::Literal(s) => s.clone(),
        SQLToken::Plus => "+".to_string(),
        SQLToken::Minus => "-".to_string(),
        SQLToken::Mult => "*".to_string(),
        SQLToken::Divide => "/".to_string(),
    }
}

#[test]
fn empty_input_gives_no_token() {
    let tokenizer = GenericTokenizer {};
    let mut chars = CharStream::new("");
    assert_eq!(tokenizer.next_token(&mut chars), Ok(None));
    assert_eq!(tokenizer.next_token(&mut chars), Ok(None));
}

#[test]
fn arithmetic_expression() {
    assert_eq!(
        all_tokens("12 + 3*45/6-7").unwrap(),
        vec![
            SQLToken::Literal("12".to_string()),
            SQLToken::Whitespace(' '),
            SQLToken::Plus,
            SQLToken::Whitespace(' '),
            SQLToken::Literal("3".to_string()),
            SQLToken::Mult,
            SQLToken::Literal("45".to_string()),
            SQLToken::Divide,
            SQLToken::Literal("6".to_string()),
            SQLToken::Minus,
            SQLToken::Literal("7".to_string()),
        ]
    );
}

#[test]
fn whitespace_kinds() {
    assert_eq!(
        all_tokens(" \t\n").unwrap(),
        vec![SQLToken::Whitespace(' '), SQLToken::Whitespace('\t'), SQLToken::Whitespace('\n')]
    );
}

#[test]
fn literal_takes_the_whole_digit_run() {
    let tokenizer = GenericTokenizer {};
    let mut chars = CharStream::new("0123456789+");
    assert_eq!(tokenizer.next_token(&mut chars), Ok(Some(SQLToken::Literal("0123456789".to_string()))));
    assert_eq!(chars.peek(), Some('+'));
}

#[test]
fn unexpected_character_is_reported_and_read() {
    let tokenizer = GenericTokenizer {};
    let mut chars = CharStream::new("a1");
    assert_eq!(
        tokenizer.next_token(&mut chars),
        Err(TokenizerError::UnexpectedChar('a', Position::new(0, 0)))
    );
    assert_eq!(tokenizer.next_token(&mut chars), Ok(Some(SQLToken::Literal("1".to_string()))));
    assert_eq!(all_tokens("1 x"), Err(TokenizerError::UnexpectedChar('x', Position { line: 0, col: 0 })));
}

#[test]
fn tokens_spell_out_the_input() {
    let input = "10 + 200\t*3/ 4-5\n";
    let joined: String = all_tokens(input).unwrap().iter().map(text_of).collect();
    assert_eq!(joined, input);
}

#[test]
fn char_stream_reads_in_order() {
    let mut chars = CharStream::from_chars(vec!['x', 'y']);
    assert_eq!(chars.peek(), Some('x'));
    assert_eq!(chars.next(), Some('x'));
    assert_eq!(chars.next(), Some('y'));
    assert_eq!(chars.next(), None);
    assert_eq!(chars.peek(), None);
}
