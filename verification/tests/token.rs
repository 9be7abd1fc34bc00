use bfi::token::Token;

const SYMBOLS: &str = "><+-.,[]#%";
const TOKENS: [Token; 10] = [
    Token::PtrInc,
    Token::PtrDec,
    Token::ValInc,
    Token::ValDec,
    Token::PutChar,
    Token::GetChar,
    Token::LoopBeg,
    Token::LoopEnd,
    Token::DebugDump,
    Token::DebugBreakpoint,
];

#[test]
fn token_decoding() {
    for (c, &t) in SYMBOLS.chars().zip(TOKENS.iter()) {
        let decoded: Result<Token, char> = Token::decode(c);
        assert_eq!(decoded.is_ok(), true);
        assert_eq!(decoded.unwrap(), t);
    }
}

#[test]
fn token_encoding() {
    for (c, &t) in SYMBOLS.chars().zip(TOKENS.iter()) {
        assert_eq!(Token::encode(t), c);
    }
}

#[test]
fn token_round_trip() {
    // encode then decode gives the token back, for the whole alphabet
    for &t in TOKENS.iter() {
        assert_eq!(Token::decode(Token::encode(t)), Ok(t));
    }
    // decode then encode gives the character back
    for c in SYMBOLS.chars() {
        assert_eq!(Token::encode(Token::decode(c).unwrap()), c);
    }
}

#[test]
fn token_decode_rejects_other_characters() {
    for c in ['a', ' ', '\n', '0', '?', '!'] {
        assert_eq!(Token::decode(c), Err(c));
    }
}

#[test]
fn parse_str_ignores_non_instruction_text() {
    let parsed = Token::parse_str("a > b < c! comment\n+");
    assert_eq!(parsed, vec![Token::PtrInc, Token::PtrDec, Token::ValInc]);
}

#[test]
fn parse_str_empty() {
    assert_eq!(Token::parse_str(""), Vec::<Token>::new());
}

#[test]
fn rejected_chars_are_the_discarded_ones() {
    assert_eq!(Token::rejected_chars("a>b<+"), vec!['a', 'b']);
    assert_eq!(Token::rejected_chars("><+-.,[]#%"), Vec::<char>::new());
}
