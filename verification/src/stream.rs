use vstd::prelude::*;

verus! {

use crate::token::Token;
use crate::token::TokenModel;
use crate::token::fresh_token_model;

/// The capability set a host indexing or query engine drives tokenization
/// through: open a stream, advance it one step, and read the token it
/// buffered. A stream yields the token sequence `stream()`, one token per
/// successful `advance`, in order.
pub trait TokenStream {
    /// The stream's internal state is consistent.
    spec fn wf(&self) -> bool;

    /// Every token this stream yields over its lifetime, in order.
    spec fn stream(&self) -> Seq<TokenModel>;

    /// How many tokens the stream has produced so far.
    spec fn produced(&self) -> nat;

    /// The value of the buffered current token.
    spec fn cur(&self) -> TokenModel;

    /// A stream never claims to have produced more tokens than it yields.
    proof fn produced_in_bounds(&self)
        requires
            self.wf(),
        ensures
            self.produced() <= self.stream().len(),
    ;

    /// One step: produce the next token of `stream()` into the buffer and
    /// report success, or report exhaustion and leave the count unchanged.
    fn advance(&mut self) -> (produced_one: bool)
        requires
            old(self).wf(),
        ensures
            final(self).wf(),
            final(self).stream() == old(self).stream(),
            produced_one == (old(self).produced() < old(self).stream().len()),
            produced_one ==> final(self).produced() == old(self).produced() + 1
                && final(self).cur() == old(self).stream()[old(self).produced() as int],
            !produced_one ==> final(self).produced() == old(self).produced(),
    ;

    /// The buffered token; meaningful only after a successful `advance`.
    fn token(&self) -> (t: &Token)
        requires
            self.wf(),
            self.produced() > 0,
        ensures
            t@ == self.cur(),
    ;
}

/// A stream over tokens that were produced ahead of time, by whatever
/// tokenizer the host ran. It lets an already-tokenized text, such as a
/// pre-tokenized field of a document, be driven through a filter stage.
pub struct VecTokenStream {
    tokens: Vec<Token>,
    next: usize,
}

impl VecTokenStream {
    /// A fresh stream that yields exactly the given tokens, in order.
    pub fn new(tokens: Vec<Token>) -> (s: VecTokenStream)
        ensures
            s.wf(),
            s.stream() == tokens@.map_values(|t: Token| t@),
            s.produced() == 0,
    {
        VecTokenStream { tokens, next: 0 }
    }
}

impl TokenStream for VecTokenStream {
    closed spec fn wf(&self) -> bool {
        self.next <= self.tokens.len()
    }

    closed spec fn stream(&self) -> Seq<TokenModel> {
        self.tokens@.map_values(|t: Token| t@)
    }

    closed spec fn produced(&self) -> nat {
        self.next as nat
    }

    closed spec fn cur(&self) -> TokenModel {
        if self.next >= 1 {
            self.tokens@[self.next - 1]@
        } else {
            fresh_token_model()
        }
    }

    proof fn produced_in_bounds(&self) {
    }

    fn advance(&mut self) -> (produced_one: bool) {
        if self.next < self.tokens.len() {
            self.next = self.next + 1;
            true
        } else {
            false
        }
    }

    fn token(&self) -> (t: &Token) {
        &self.tokens[self.next - 1]
    }
}

} // verus!
