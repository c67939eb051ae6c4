//! The optional header of a batch: a leading `ffi = <bool>` that sets the
//! default for every declaration of the batch.

use vstd::prelude::*;
use vstd::string::*;
use crate::args::ffi_key;
use crate::error::StubError;

verus! {

/// One token at the start of a batch, by shape.
#[derive(Clone, Debug)]
pub enum Token {
    /// An identifier or keyword, with its text.
    Word(String),
    /// One punctuation character; joined punctuation is one token for each
    /// of its characters.
    Punct(char),
    /// Anything else: a literal or a group.
    Other,
}

/// What the header of a batch resolves to.
#[derive(Clone, Copy, Debug, PartialEq, Eq, Structural)]
pub struct BatchDefault {
    /// The foreign flag shared by every declaration of the batch.
    pub is_ffi: bool,
    /// How many leading tokens the header took; the declarations start there.
    pub consumed: usize,
}

/// The letters of the literal `true`.
pub open spec fn true_word() -> Seq<char> {
    seq!['t', 'r', 'u', 'e']
}

/// The letters of the literal `false`.
pub open spec fn false_word() -> Seq<char> {
    seq!['f', 'a', 'l', 's', 'e']
}

impl Token {
    /// Whether the token is the punctuation character `c`.
    pub open spec fn is_punct(self, c: char) -> bool {
        match self {
            Token::Punct(p) => p == c,
            _ => false,
        }
    }

    /// Whether the token is the word `w`.
    pub open spec fn is_word(self, w: Seq<char>) -> bool {
        match self {
            Token::Word(s) => s@ == w,
            _ => false,
        }
    }

    /// The boolean that the token spells, if it is `true` or `false`.
    pub open spec fn boolean(self) -> Option<bool> {
        if self.is_word(true_word()) {
            Some(true)
        } else if self.is_word(false_word()) {
            Some(false)
        } else {
            None
        }
    }
}

/// Whether the tokens start with a word followed by `=`.
pub open spec fn starts_with_assignment(tokens: Seq<Token>) -> bool {
    tokens.len() >= 2 && tokens[0] is Word && tokens[1].is_punct('=')
}

/// The outcome of reading a batch's header, as a function of its tokens.
///
/// Without a leading assignment there is no header: the flag is off and no
/// token is taken. An assignment to `ffi` must give a boolean literal; it takes
/// three tokens, and the comma that may follow it. An assignment to any other
/// name is refused.
pub open spec fn header_outcome(tokens: Seq<Token>) -> Result<BatchDefault, StubError> {
    if !starts_with_assignment(tokens) {
        Ok(BatchDefault { is_ffi: false, consumed: 0 })
    } else if !tokens[0].is_word(ffi_key()) {
        Err(StubError::UnexpectedBatchHeader)
    } else if tokens.len() < 3 || tokens[2].boolean() is None {
        Err(StubError::InvalidFfiValue { index: 0 })
    } else if tokens.len() >= 4 && tokens[3].is_punct(',') {
        Ok(BatchDefault { is_ffi: tokens[2].boolean()->Some_0, consumed: 4 })
    } else {
        Ok(BatchDefault { is_ffi: tokens[2].boolean()->Some_0, consumed: 3 })
    }
}

fn token_is_punct(t: &Token, c: char) -> (r: bool)
    ensures
        r == t.is_punct(c),
{
    match t {
        Token::Punct(p) => *p == c,
        _ => false,
    }
}

fn token_is_word(t: &Token, w: &str) -> (r: bool)
    ensures
        r == t.is_word(w@),
{
    match t {
        Token::Word(s) => {
            let wanted = String::from_str(w);
            *s == wanted
        },
        _ => false,
    }
}

fn token_boolean(t: &Token) -> (r: Option<bool>)
    ensures
        r == t.boolean(),
{
    proof {
        reveal_strlit("true");
        reveal_strlit("false");
        assert("true"@ =~= true_word());
        assert("false"@ =~= false_word());
    }
    if token_is_word(t, "true") {
        Some(true)
    } else if token_is_word(t, "false") {
        Some(false)
    } else {
        None
    }
}

/// Reads the header of a batch from its leading tokens.
pub fn parse_batch_header(tokens: &Vec<Token>) -> (r: Result<BatchDefault, StubError>)
    ensures
        r == header_outcome(tokens@),
{
    proof {
        reveal_strlit("ffi");
        assert("ffi"@ =~= ffi_key());
    }
    if tokens.len() < 2 {
        return Ok(BatchDefault { is_ffi: false, consumed: 0 });
    }
    let leads = match &tokens[0] {
        Token::Word(_) => true,
        _ => false,
    };
    if !leads || !token_is_punct(&tokens[1], '=') {
        return Ok(BatchDefault { is_ffi: false, consumed: 0 });
    }
    if !token_is_word(&tokens[0], "ffi") {
        return Err(StubError::UnexpectedBatchHeader);
    }
    if tokens.len() < 3 {
        return Err(StubError::InvalidFfiValue { index: 0 });
    }
    match token_boolean(&tokens[2]) {
        None => Err(StubError::InvalidFfiValue { index: 0 }),
        Some(is_ffi) => {
            if tokens.len() >= 4 && token_is_punct(&tokens[3], ',') {
                Ok(BatchDefault { is_ffi, consumed: 4 })
            } else {
                Ok(BatchDefault { is_ffi, consumed: 3 })
            }
        },
    }
}

/// A header never takes more tokens than there are, and an absent header
/// takes none and leaves the flag off.
pub proof fn header_stays_within_tokens(tokens: Seq<Token>)
    ensures
        header_outcome(tokens) is Ok ==> header_outcome(tokens)->Ok_0.consumed <= tokens.len(),
        !starts_with_assignment(tokens) ==> header_outcome(tokens) == Ok::<
            BatchDefault,
            StubError,
        >(BatchDefault { is_ffi: false, consumed: 0 }),
{
}

} // verus!
