use vstd::prelude::*;

verus! {

use crate::oracle::pinyin_of;
use crate::oracle::pinyin_text;
use crate::oracle::transliterate;
use crate::stream::TokenStream;
use crate::token::Token;
use crate::token::TokenModel;
use crate::token::lemma_prefix_byte_len_mono;
use crate::token::lemma_total_byte_len_is_encoding;
use crate::token::prefix_byte_len;
use crate::token::total_byte_len;
use crate::token::utf8_len;
use vstd::string::StrSliceExecFns;
use vstd::utf8::encode_utf8;

/// The token that character `i` of `text` produces: the character's plain
/// phonetic spelling (empty on a transliteration miss), position `i`, and
/// the byte span the character occupies in the UTF-8 form of `text`.
pub open spec fn token_model_at(text: Seq<char>, i: int) -> TokenModel {
    TokenModel {
        text: pinyin_text(text[i]),
        position: i,
        offset_from: prefix_byte_len(text, i),
        offset_to: prefix_byte_len(text, i + 1),
    }
}

/// All tokens of `text`: exactly one per character, in text order.
pub open spec fn tokens_of(text: Seq<char>) -> Seq<TokenModel> {
    Seq::new(text.len(), |i: int| token_model_at(text, i))
}

/// Factory that binds an input text to a fresh token stream. Stateless;
/// any text, including the empty one, is accepted.
#[derive(Clone)]
pub struct PinyinTokenizer;

/// A forward-only cursor over one input text, yielding one token per
/// character. It keeps the index of the next character, the running byte
/// offset, and a token buffer that is rewritten in place on each step.
///
/// The buffered position counter moves on every step, including the final
/// one that finds the text exhausted and produces nothing; no emitted
/// token is affected, since the buffer is not to be read after that step.
pub struct PinyinTokenStream<'a> {
    text: &'a str,
    chars: usize,
    next: usize,
    offset: usize,
    token: Token,
}

/// Relies on `str::len`: the byte length of a string slice, which equals
/// the length of the UTF-8 encoding of its characters.
#[verifier::external_body]
fn byte_len(s: &str) -> (n: usize)
    ensures
        n as int == encode_utf8(s@).len(),
{
    s.len()
}

/// The number of bytes `c` occupies in UTF-8, computed from its scalar
/// value.
fn char_utf8_len(c: char) -> (n: usize)
    ensures
        n as int == utf8_len(c),
{
    proof {
        vstd::utf8::char_is_scalar(c);
    }
    let u = c as u32;
    if u < 0x80 {
        1
    } else if u < 0x800 {
        2
    } else if u < 0x10000 {
        3
    } else {
        4
    }
}

impl PinyinTokenizer {
    /// Opens a fresh stream over `text`; the stream yields `tokens_of(text@)`.
    pub fn token_stream<'a>(&self, text: &'a str) -> (stream: PinyinTokenStream<'a>)
        ensures
            stream.wf(),
            stream.stream() == tokens_of(text@),
            stream.produced() == 0,
    {
        // An allocated string's UTF-8 byte length fits in usize; the bound
        // keeps the stream's running-offset arithmetic from overflowing.
        let _total = byte_len(text);
        proof {
            lemma_total_byte_len_is_encoding(text@);
        }
        PinyinTokenStream {
            text,
            chars: text.unicode_len(),
            next: 0,
            offset: 0,
            token: Token::default(),
        }
    }
}

impl<'a> TokenStream for PinyinTokenStream<'a> {
    closed spec fn wf(&self) -> bool {
        &&& self.chars as int == self.text@.len()
        &&& self.next <= self.chars
        &&& self.offset as int == prefix_byte_len(self.text@, self.next as int)
        &&& total_byte_len(self.text@) <= usize::MAX
        &&& self.next < self.chars ==> self.token.position as int == (
        if self.next == 0 {
            usize::MAX as int
        } else {
            self.next - 1
        })
    }

    closed spec fn stream(&self) -> Seq<TokenModel> {
        tokens_of(self.text@)
    }

    closed spec fn produced(&self) -> nat {
        self.next as nat
    }

    closed spec fn cur(&self) -> TokenModel {
        self.token@
    }

    proof fn produced_in_bounds(&self) {
    }

    fn advance(&mut self) -> (produced_one: bool) {
        let ghost t = self.text@;
        let ghost p = self.next as int;
        self.token.text = String::new();
        self.token.position = self.token.position.wrapping_add(1);
        if self.next < self.chars {
            let c = self.text.get_char(self.next);
            proof {
                assert(prefix_byte_len(t, p + 1) == prefix_byte_len(t, p) + utf8_len(t[p]));
                lemma_prefix_byte_len_mono(t, p + 1, t.len() as int);
            }
            let len = char_utf8_len(c);
            let offset_to = self.offset + len;
            self.token.offset_from = self.offset;
            self.token.offset_to = offset_to;
            self.offset = offset_to;
            self.next = self.next + 1;
            match transliterate(c) {
                Some(spelling) => {
                    self.token.text = spelling;
                },
                None => {},
            }
            proof {
                assert(self.cur() =~= self.stream()[p]);
            }
            true
        } else {
            false
        }
    }

    fn token(&self) -> (t: &Token) {
        &self.token
    }
}

impl<'a> PinyinTokenStream<'a> {
    /// Mutable access to the buffered token, so that a host's later filter
    /// stages can adjust it in place. The stream keeps working as long as
    /// the caller leaves the token's position alone.
    pub fn token_mut(&mut self) -> (t: &mut Token)
        requires
            old(self).wf(),
        ensures
            (*t)@ == old(self).cur(),
            final(self).stream() == old(self).stream(),
            final(self).produced() == old(self).produced(),
            final(self).cur() == (*final(t))@,
            (*final(t))@.position == old(self).cur().position ==> final(self).wf(),
    {
        &mut self.token
    }
}

/// Opens a stream over `text`, drives it to exhaustion and collects every
/// token it yields: one per character of `text`, in order.
pub fn tokenize(text: &str) -> (tokens: Vec<Token>)
    ensures
        tokens@.len() == text@.len(),
        forall|i: int| 0 <= i < tokens@.len() ==> tokens@[i]@ == tokens_of(text@)[i],
{
    let mut stream = PinyinTokenizer.token_stream(text);
    let mut tokens: Vec<Token> = Vec::new();
    loop
        invariant
            stream.wf(),
            stream.stream() == tokens_of(text@),
            stream.produced() == tokens@.len(),
            tokens@.len() <= text@.len(),
            forall|i: int| 0 <= i < tokens@.len() ==> tokens@[i]@ == tokens_of(text@)[i],
        ensures
            tokens@.len() == text@.len(),
            forall|i: int| 0 <= i < tokens@.len() ==> tokens@[i]@ == tokens_of(text@)[i],
        decreases text@.len() - stream.produced(),
    {
        let produced_one = stream.advance();
        if !produced_one {
            break;
        }
        let t = stream.token();
        tokens.push(t.duplicate());
    }
    tokens
}

/// One token per character: a text of `n` characters yields exactly `n`
/// tokens; none is skipped and none is merged.
pub proof fn lemma_one_token_per_char(text: Seq<char>)
    ensures
        tokens_of(text).len() == text.len(),
{
}

/// Token spans tile the input: adjacent spans abut, the first span starts
/// at byte 0, and the last span ends at the byte length of the input.
pub proof fn lemma_offsets_contiguous(text: Seq<char>)
    ensures
        forall|i: int|
            0 <= i && i + 1 < text.len() ==> (#[trigger] tokens_of(text)[i]).offset_to == tokens_of(
                text,
            )[i + 1].offset_from,
        text.len() > 0 ==> tokens_of(text)[0].offset_from == 0,
        text.len() > 0 ==> tokens_of(text)[text.len() - 1].offset_to == total_byte_len(text),
{
}

/// Positions are sequential and gapless: the i-th token carries position i.
pub proof fn lemma_positions_sequential(text: Seq<char>)
    ensures
        forall|i: int| 0 <= i < text.len() ==> (#[trigger] tokens_of(text)[i]).position == i,
{
}

/// A transliteration miss still consumes a position and a span: the token's
/// text is empty while its span covers exactly the character's bytes.
pub proof fn lemma_miss_keeps_span(text: Seq<char>, i: int)
    requires
        0 <= i < text.len(),
        pinyin_of(text[i]) is None,
    ensures
        tokens_of(text)[i].text == Seq::<char>::empty(),
        tokens_of(text)[i].offset_to - tokens_of(text)[i].offset_from == utf8_len(text[i]),
{
}

/// Re-opening a stream on the same text yields the identical token
/// sequence: the tokens are a function of the text alone, with no hidden
/// state.
pub proof fn lemma_reopen_identical(t1: Seq<char>, t2: Seq<char>)
    requires
        t1 == t2,
    ensures
        tokens_of(t1) == tokens_of(t2),
{
}

} // verus!
