//! The instruction alphabet and its textual encoding.
//!
//! Every instruction corresponds to exactly one character of a fixed
//! alphabet.  `decode` of a single character is strict and reports the
//! offending character; `parse_str` is lenient and silently discards
//! characters that do not spell an instruction, so that source text may
//! contain comments and whitespace.

use vstd::prelude::*;

verus! {

/// All valid program instructions.
#[derive(Debug, Copy, Clone, PartialEq, Eq, Structural)]
pub enum Token {
    PtrInc,
    PtrDec,
    ValInc,
    ValDec,
    PutChar,
    GetChar,
    LoopBeg,
    LoopEnd,
    DebugDump,
    DebugBreakpoint,
}

/// The character that stands for an instruction.
pub open spec fn spec_encode(t: Token) -> char {
    match t {
        Token::PtrInc => '>',
        Token::PtrDec => '<',
        Token::ValInc => '+',
        Token::ValDec => '-',
        Token::PutChar => '.',
        Token::GetChar => ',',
        Token::LoopBeg => '[',
        Token::LoopEnd => ']',
        Token::DebugDump => '#',
        Token::DebugBreakpoint => '%',
    }
}

/// The instruction a character stands for, if any.
pub open spec fn spec_decode(c: char) -> Option<Token> {
    match c {
        '>' => Some(Token::PtrInc),
        '<' => Some(Token::PtrDec),
        '+' => Some(Token::ValInc),
        '-' => Some(Token::ValDec),
        '.' => Some(Token::PutChar),
        ',' => Some(Token::GetChar),
        '[' => Some(Token::LoopBeg),
        ']' => Some(Token::LoopEnd),
        '#' => Some(Token::DebugDump),
        '%' => Some(Token::DebugBreakpoint),
        _ => None,
    }
}

/// The instructions spelled by a piece of text, in order, with all
/// characters that are not instruction characters discarded.
pub open spec fn spec_parse(s: Seq<char>) -> Seq<Token>
    decreases s.len(),
{
    if s.len() == 0 {
        Seq::empty()
    } else {
        match spec_decode(s.last()) {
            Some(t) => spec_parse(s.drop_last()).push(t),
            None => spec_parse(s.drop_last()),
        }
    }
}

/// The characters of a piece of text that spell no instruction, in
/// order; what the lenient parse discards.
pub open spec fn spec_rejects(s: Seq<char>) -> Seq<char>
    decreases s.len(),
{
    if s.len() == 0 {
        Seq::empty()
    } else {
        match spec_decode(s.last()) {
            Some(_) => spec_rejects(s.drop_last()),
            None => spec_rejects(s.drop_last()).push(s.last()),
        }
    }
}

impl Token {
    /// Transform a `Token` into its corresponding character.
    pub fn encode(t: Token) -> (c: char)
        ensures
            c == spec_encode(t),
    {
        match t {
            Token::PtrInc => '>',
            Token::PtrDec => '<',
            Token::ValInc => '+',
            Token::ValDec => '-',
            Token::PutChar => '.',
            Token::GetChar => ',',
            Token::LoopBeg => '[',
            Token::LoopEnd => ']',
            Token::DebugDump => '#',
            Token::DebugBreakpoint => '%',
        }
    }

    /// Transform a character into a `Token`, returning the resulting
    /// `Token` member if the character is a valid instruction, otherwise
    /// returning the `Err`-wrapped unsupported character.
    pub fn decode(c: char) -> (r: Result<Token, char>)
        ensures
            match spec_decode(c) {
                Some(t) => r == Ok::<Token, char>(t),
                None => r == Err::<Token, char>(c),
            },
    {
        match c {
            '>' => Ok(Token::PtrInc),
            '<' => Ok(Token::PtrDec),
            '+' => Ok(Token::ValInc),
            '-' => Ok(Token::ValDec),
            '.' => Ok(Token::PutChar),
            ',' => Ok(Token::GetChar),
            '[' => Ok(Token::LoopBeg),
            ']' => Ok(Token::LoopEnd),
            '#' => Ok(Token::DebugDump),
            '%' => Ok(Token::DebugBreakpoint),
            other => Err(other),
        }
    }

    /// Parse a `&str` into a `Vec<Token>`, ignoring any provided
    /// characters that do not yield valid `Token`s.
    pub fn parse_str(s: &str) -> (v: Vec<Token>)
        ensures
            v@ == spec_parse(s@),
    {
        let n = s.unicode_len();
        let mut v: Vec<Token> = Vec::new();
        let mut i: usize = 0;
        while i < n
            invariant
                n == s@.len(),
                i <= n,
                v@ == spec_parse(s@.take(i as int)),
            decreases n - i,
        {
            let c = s.get_char(i);
            match Token::decode(c) {
                Ok(t) => v.push(t),
                Err(_) => {},
            }
            proof {
                assert(s@.take(i + 1 as int).drop_last() =~= s@.take(i as int));
                assert(s@.take(i + 1 as int).last() == s@[i as int]);
            }
            i = i + 1;
        }
        proof {
            assert(s@.take(n as int) =~= s@);
        }
        v
    }

    /// The characters of a `&str` that do not yield valid `Token`s, in
    /// order; useful to report what the lenient parse ignored.
    pub fn rejected_chars(s: &str) -> (v: Vec<char>)
        ensures
            v@ == spec_rejects(s@),
    {
        let n = s.unicode_len();
        let mut v: Vec<char> = Vec::new();
        let mut i: usize = 0;
        while i < n
            invariant
                n == s@.len(),
                i <= n,
                v@ == spec_rejects(s@.take(i as int)),
            decreases n - i,
        {
            let c = s.get_char(i);
            match Token::decode(c) {
                Ok(_) => {},
                Err(other) => v.push(other),
            }
            proof {
                assert(s@.take(i + 1 as int).drop_last() =~= s@.take(i as int));
                assert(s@.take(i + 1 as int).last() == s@[i as int]);
            }
            i = i + 1;
        }
        proof {
            assert(s@.take(n as int) =~= s@);
        }
        v
    }
}

/// Law: decoding the character that encodes an instruction gives that
/// instruction back.
pub proof fn lemma_decode_encode(t: Token)
    ensures
        spec_decode(spec_encode(t)) == Some(t),
{
}

/// Law: encoding the instruction that a character decodes to gives that
/// character back.
pub proof fn lemma_encode_decode(c: char)
    ensures
        spec_decode(c) matches Some(t) ==> spec_encode(t) == c,
{
}

} // verus!
