use vstd::prelude::*;

verus! {

use vstd::utf8::encode_scalar;
use vstd::utf8::encode_utf8;

/// The mathematical value of a token: its text, its ordinal position among
/// the tokens of one stream, and the half-open byte span
/// `[offset_from, offset_to)` that its source character occupies in the
/// UTF-8 form of the input text.
#[verifier::ext_equal]
pub struct TokenModel {
    pub text: Seq<char>,
    pub position: int,
    pub offset_from: int,
    pub offset_to: int,
}

/// The model of a freshly opened stream's token buffer: empty text, both
/// offsets at zero, and the position one wrapping step before zero, so that
/// the first advance lands on position 0.
pub open spec fn fresh_token_model() -> TokenModel {
    TokenModel {
        text: Seq::empty(),
        position: usize::MAX as int,
        offset_from: 0,
        offset_to: 0,
    }
}

/// One unit of tokenizer output: the phonetic spelling of one source
/// character (empty when the character has none), the token's 0-based
/// ordinal position, and the byte span of the source character in the
/// input text.
#[derive(Clone, Debug)]
pub struct Token {
    pub text: String,
    pub position: usize,
    pub offset_from: usize,
    pub offset_to: usize,
}

impl View for Token {
    type V = TokenModel;

    open spec fn view(&self) -> TokenModel {
        TokenModel {
            text: self.text@,
            position: self.position as int,
            offset_from: self.offset_from as int,
            offset_to: self.offset_to as int,
        }
    }
}

impl Default for Token {
    /// The buffer a fresh stream starts from.
    fn default() -> (t: Token)
        ensures
            t@ == fresh_token_model(),
    {
        Token { text: String::new(), position: usize::MAX, offset_from: 0, offset_to: 0 }
    }
}

impl Token {
    /// A token with the same text, position and span as this one.
    pub fn duplicate(&self) -> (t: Token)
        ensures
            t@ == self@,
    {
        Token {
            text: self.text.clone(),
            position: self.position,
            offset_from: self.offset_from,
            offset_to: self.offset_to,
        }
    }
}

/// The number of bytes of the UTF-8 encoding of one character.
pub open spec fn utf8_len(c: char) -> int {
    encode_scalar(c as u32).len() as int
}

/// The number of bytes that the first `i` characters of `s` occupy in the
/// UTF-8 encoding of `s`.
pub open spec fn prefix_byte_len(s: Seq<char>, i: int) -> int
    decreases i,
{
    if i <= 0 {
        0
    } else {
        prefix_byte_len(s, i - 1) + utf8_len(s[i - 1])
    }
}

/// The number of bytes of the whole character sequence in UTF-8.
pub open spec fn total_byte_len(s: Seq<char>) -> int {
    prefix_byte_len(s, s.len() as int)
}

/// A character encodes to between one and four bytes.
pub proof fn lemma_utf8_len_bounds(c: char)
    ensures
        1 <= utf8_len(c) <= 4,
{
}

/// Byte prefixes grow with the character index.
pub proof fn lemma_prefix_byte_len_mono(s: Seq<char>, i: int, j: int)
    requires
        0 <= i <= j <= s.len(),
    ensures
        prefix_byte_len(s, i) <= prefix_byte_len(s, j),
    decreases j - i,
{
    if i < j {
        lemma_prefix_byte_len_mono(s, i, j - 1);
        lemma_utf8_len_bounds(s[j - 1]);
    }
}

proof fn lemma_prefix_byte_len_drop_first(s: Seq<char>, i: int)
    requires
        1 <= i <= s.len(),
    ensures
        prefix_byte_len(s, i) == utf8_len(s[0]) + prefix_byte_len(s.drop_first(), i - 1),
    decreases i,
{
    if i == 1 {
        assert(prefix_byte_len(s, 0) == 0);
        assert(prefix_byte_len(s, 1) == utf8_len(s[0]));
        assert(prefix_byte_len(s.drop_first(), 0) == 0);
    } else {
        lemma_prefix_byte_len_drop_first(s, i - 1);
        assert(s.drop_first()[i - 2] == s[i - 1]);
        assert(prefix_byte_len(s.drop_first(), i - 1) == prefix_byte_len(s.drop_first(), i - 2)
            + utf8_len(s.drop_first()[i - 2]));
    }
}

/// `total_byte_len` agrees with the length of the canonical UTF-8 encoding
/// of the sequence.
pub proof fn lemma_total_byte_len_is_encoding(s: Seq<char>)
    ensures
        total_byte_len(s) == encode_utf8(s).len(),
    decreases s.len(),
{
    if s.len() > 0 {
        lemma_prefix_byte_len_drop_first(s, s.len() as int);
        lemma_total_byte_len_is_encoding(s.drop_first());
    }
}

} // verus!
