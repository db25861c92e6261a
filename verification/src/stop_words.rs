use vstd::prelude::*;

verus! {

use crate::stream::TokenStream;
use crate::token::Token;
use crate::token::TokenModel;

/// The tokens that survive filtering by `words`: those whose text is not a
/// member of the set.
pub open spec fn kept_by(words: Set<Seq<char>>) -> spec_fn(TokenModel) -> bool {
    |t: TokenModel| !words.contains(t.text)
}

/// One trailing carriage return is trimmed from a line, so that a list
/// saved with either line-ending convention reads the same.
pub open spec fn trim_cr(line: Seq<char>) -> Seq<char> {
    if line.len() > 0 && line.last() == '\r' {
        line.drop_last()
    } else {
        line
    }
}

/// The index of the first newline in `s`, or `s.len()` if there is none.
pub open spec fn first_newline(s: Seq<char>) -> nat
    decreases s.len(),
{
    if s.len() == 0 {
        0
    } else if s[0] == '\n' {
        0
    } else {
        (1 + first_newline(s.drop_first())) as nat
    }
}

/// The lines of `s`: split on '\n', with one trailing '\r' trimmed from
/// each line. A text without a newline is a single line.
pub open spec fn lines_of(s: Seq<char>) -> Seq<Seq<char>>
    decreases s.len(),
{
    let k = first_newline(s) as int;
    if k >= s.len() {
        seq![trim_cr(s)]
    } else {
        seq![trim_cr(s.take(k))] + lines_of(s.skip(k + 1))
    }
}

proof fn lemma_first_newline_at(s: Seq<char>, k: int)
    requires
        0 <= k <= s.len(),
        forall|j: int| 0 <= j < k ==> s[j] != '\n',
        k < s.len() ==> s[k] == '\n',
    ensures
        first_newline(s) == (if k < s.len() {
            k
        } else {
            s.len() as int
        }),
    decreases k,
{
    if k == 0 {
    } else {
        assert(s[0] != '\n');
        let d = s.drop_first();
        assert(forall|j: int| 0 <= j < k - 1 ==> #[trigger] d[j] == s[j + 1] && d[j] != '\n');
        assert(k - 1 < d.len() ==> d[k - 1] == s[k]);
        lemma_first_newline_at(d, k - 1);
    }
}

/// The line spanning characters `[from, to)` of `text`, with one trailing
/// carriage return trimmed.
fn line_between(text: &str, from: usize, to: usize) -> (line: String)
    requires
        from <= to <= text@.len(),
    ensures
        line@ == trim_cr(text@.subrange(from as int, to as int)),
{
    let end = if to > from {
        if text.get_char(to - 1) == '\r' {
            to - 1
        } else {
            to
        }
    } else {
        to
    };
    proof {
        let sub = text@.subrange(from as int, to as int);
        if to > from && text@[to - 1] == '\r' {
            assert(sub.last() == '\r');
            assert(text@.subrange(from as int, end as int) =~= trim_cr(sub));
        } else {
            assert(text@.subrange(from as int, end as int) =~= trim_cr(sub));
        }
    }
    let s = text.substring_char(from, end);
    s.to_owned()
}

/// Splits `text` into its lines: on '\n', with one trailing '\r' trimmed
/// from each line.
pub fn split_lines(text: &str) -> (lines: Vec<String>)
    ensures
        lines@.map_values(|l: String| l@) == lines_of(text@),
{
    let n = text.unicode_len();
    let mut lines: Vec<String> = Vec::new();
    let mut start: usize = 0;
    let mut i: usize = 0;
    proof {
        assert(text@.skip(0) =~= text@);
        assert(lines@.map_values(|l: String| l@) + lines_of(text@) =~= lines_of(text@));
    }
    while i < n
        invariant
            n == text@.len(),
            start <= i <= n,
            forall|j: int| start <= j < i ==> text@[j] != '\n',
            lines_of(text@) == lines@.map_values(|l: String| l@) + lines_of(
                text@.skip(start as int),
            ),
        decreases n - i,
    {
        let c = text.get_char(i);
        if c == '\n' {
            let line = line_between(text, start, i);
            proof {
                let u = text@.skip(start as int);
                assert(forall|j: int|
                    0 <= j < i - start ==> #[trigger] u[j] == text@[j + start] && u[j] != '\n');
                assert(u[i - start] == text@[i as int]);
                lemma_first_newline_at(u, i - start);
                assert(u.take(i - start) =~= text@.subrange(start as int, i as int));
                assert(u.skip(i - start + 1) =~= text@.skip(i + 1));
                assert(lines_of(u) == seq![trim_cr(u.take(i - start))] + lines_of(
                    text@.skip(i + 1),
                ));
                assert(lines@.push(line).map_values(|l: String| l@) =~= lines@.map_values(
                    |l: String| l@,
                ).push(line@));
                assert(lines@.map_values(|l: String| l@) + (seq![line@] + lines_of(
                    text@.skip(i + 1),
                )) =~= lines@.map_values(|l: String| l@).push(line@) + lines_of(text@.skip(i + 1)));
            }
            lines.push(line);
            start = i + 1;
        }
        i += 1;
    }
    let line = line_between(text, start, n);
    proof {
        let u = text@.skip(start as int);
        assert(forall|j: int|
            0 <= j < u.len() ==> #[trigger] u[j] == text@[j + start] && u[j] != '\n');
        lemma_first_newline_at(u, u.len() as int);
        assert(trim_cr(u) == trim_cr(text@.subrange(start as int, n as int))) by {
            assert(u =~= text@.subrange(start as int, n as int));
        }
        assert(lines_of(u) == seq![line@]);
        assert(lines@.push(line).map_values(|l: String| l@) =~= lines@.map_values(
            |l: String| l@,
        ).push(line@));
        assert(lines@.map_values(|l: String| l@) + seq![line@] =~= lines@.map_values(
            |l: String| l@,
        ).push(line@));
    }
    lines.push(line);
    lines
}

/// An immutable set of words, used only for membership tests against a
/// token's text. Its view is the set of the words' character sequences.
pub struct StopWordFilter {
    words: Vec<String>,
}

impl View for StopWordFilter {
    type V = Set<Seq<char>>;

    closed spec fn view(&self) -> Set<Seq<char>> {
        self.words@.map_values(|w: String| w@).to_set()
    }
}

impl StopWordFilter {
    /// A filter that removes exactly the given words.
    pub fn remove(words: Vec<String>) -> (f: StopWordFilter)
        ensures
            f@ == words@.map_values(|w: String| w@).to_set(),
    {
        StopWordFilter { words }
    }

    /// The word list the filter was built from.
    pub fn words(&self) -> (w: &Vec<String>)
        ensures
            w@.map_values(|s: String| s@).to_set() == self@,
    {
        &self.words
    }

    /// Whether `text` is one of the stop words.
    pub fn is_stop_word(&self, text: &String) -> (r: bool)
        ensures
            r == self@.contains(text@),
    {
        let ghost m = self.words@.map_values(|w: String| w@);
        let mut i: usize = 0;
        while i < self.words.len()
            invariant
                i <= self.words.len(),
                m == self.words@.map_values(|w: String| w@),
                forall|k: int| 0 <= k < i ==> self.words@[k]@ != text@,
            decreases self.words.len() - i,
        {
            if self.words[i] == *text {
                proof {
                    assert(m[i as int] == text@);
                    assert(m.contains(text@));
                }
                return true;
            }
            i += 1;
        }
        proof {
            assert(!self@.contains(text@)) by {
                if m.contains(text@) {
                    let k = choose|k: int| 0 <= k < m.len() && m[k] == text@;
                    assert(self.words@[k]@ == text@);
                }
            }
        }
        false
    }

    /// Wraps an upstream token stream. The wrapped stream yields exactly
    /// the upstream tokens whose text is not a stop word, unchanged and in
    /// upstream order: a suppressed token's position is simply absent from
    /// the output, and the survivors are not renumbered.
    pub fn transform<T: TokenStream>(self, upstream: T) -> (s: StopWordTokenStream<T>)
        requires
            upstream.wf(),
        ensures
            s.wf(),
            s.stream() == upstream.stream().filter(kept_by(self@)),
            s.produced() == upstream.stream().take(upstream.produced() as int).filter(
                kept_by(self@),
            ).len(),
    {
        StopWordTokenStream { words: self, upstream }
    }
}

/// A decorator over an arbitrary token stream that suppresses every token
/// whose text is in the stop-word set.
pub struct StopWordTokenStream<T> {
    words: StopWordFilter,
    upstream: T,
}

proof fn lemma_filter_take_step<A>(s: Seq<A>, pred: spec_fn(A) -> bool, j: int)
    requires
        0 <= j < s.len(),
    ensures
        s.take(j + 1).filter(pred) == (if pred(s[j]) {
            s.take(j).filter(pred).push(s[j])
        } else {
            s.take(j).filter(pred)
        }),
{
    reveal(Seq::filter);
    assert(s.take(j + 1).drop_last() =~= s.take(j));
    assert(s.take(j + 1).last() == s[j]);
}

proof fn lemma_filter_take_len_le<A>(s: Seq<A>, pred: spec_fn(A) -> bool, j: int)
    requires
        0 <= j <= s.len(),
    ensures
        s.take(j).filter(pred).len() <= s.filter(pred).len(),
    decreases s.len() - j,
{
    if j == s.len() {
        assert(s.take(j) =~= s);
    } else {
        lemma_filter_take_step(s, pred, j);
        lemma_filter_take_len_le(s, pred, j + 1);
    }
}

proof fn lemma_filter_take_is_prefix<A>(s: Seq<A>, pred: spec_fn(A) -> bool, j: int)
    requires
        0 <= j <= s.len(),
    ensures
        s.filter(pred).take(s.take(j).filter(pred).len() as int) == s.take(j).filter(pred),
    decreases s.len() - j,
{
    if j == s.len() {
        assert(s.take(j) =~= s);
        assert(s.filter(pred).take(s.filter(pred).len() as int) =~= s.filter(pred));
    } else {
        lemma_filter_take_is_prefix(s, pred, j + 1);
        lemma_filter_take_len_le(s, pred, j + 1);
        lemma_filter_take_step(s, pred, j);
        let fj = s.take(j).filter(pred);
        let fj1 = s.take(j + 1).filter(pred);
        if pred(s[j]) {
            assert(fj1 == fj.push(s[j]));
            assert(s.filter(pred).take(fj1.len() as int) == fj1);
            assert(s.filter(pred).take(fj.len() as int) =~= fj) by {
                assert(forall|k: int|
                    0 <= k < fj.len() ==> s.filter(pred).take(fj.len() as int)[k] == s.filter(
                        pred,
                    ).take(fj1.len() as int)[k]);
            }
        }
    }
}

impl<T: TokenStream> TokenStream for StopWordTokenStream<T> {
    closed spec fn wf(&self) -> bool {
        self.upstream.wf()
    }

    closed spec fn stream(&self) -> Seq<TokenModel> {
        self.upstream.stream().filter(kept_by(self.words@))
    }

    closed spec fn produced(&self) -> nat {
        self.upstream.stream().take(self.upstream.produced() as int).filter(
            kept_by(self.words@),
        ).len()
    }

    closed spec fn cur(&self) -> TokenModel {
        self.upstream.cur()
    }

    proof fn produced_in_bounds(&self) {
        self.upstream.produced_in_bounds();
        lemma_filter_take_len_le(
            self.upstream.stream(),
            kept_by(self.words@),
            self.upstream.produced() as int,
        );
    }

    fn advance(&mut self) -> (produced_one: bool) {
        proof {
            self.upstream.produced_in_bounds();
        }
        loop
            invariant
                self.upstream.wf(),
                self.words == old(self).words,
                self.upstream.stream() == old(self).upstream.stream(),
                self.upstream.produced() <= self.upstream.stream().len(),
                self.upstream.stream().take(self.upstream.produced() as int).filter(
                    kept_by(self.words@),
                ) == old(self).upstream.stream().take(old(self).upstream.produced() as int).filter(
                    kept_by(old(self).words@),
                ),
            decreases self.upstream.stream().len() - self.upstream.produced(),
        {
            let ghost s = self.upstream.stream();
            let ghost w = self.words@;
            let has_more = self.upstream.advance();
            if !has_more {
                proof {
                    assert(s.take(s.len() as int) =~= s);
                }
                return false;
            }
            let ghost j = self.upstream.produced() - 1;
            let t = self.upstream.token();
            let is_stop = self.words.is_stop_word(&t.text);
            proof {
                lemma_filter_take_step(s, kept_by(w), j);
            }
            if !is_stop {
                proof {
                    lemma_filter_take_len_le(s, kept_by(w), j + 1);
                    lemma_filter_take_is_prefix(s, kept_by(w), j + 1);
                    let p_old = old(self).upstream.stream().take(
                        old(self).upstream.produced() as int,
                    ).filter(kept_by(old(self).words@));
                    assert(s.take(j + 1).filter(kept_by(w)) == p_old.push(s[j]));
                    assert(p_old.push(s[j])[p_old.len() as int] == s[j]);
                    assert(s.filter(kept_by(w)).take(p_old.len() as int + 1)[p_old.len() as int]
                        == s.filter(kept_by(w))[p_old.len() as int]);
                }
                return true;
            }
        }
    }

    fn token(&self) -> (t: &Token) {
        proof {
            assert(self.upstream.produced() > 0) by {
                let s = self.upstream.stream();
                if self.upstream.produced() == 0 {
                    reveal(Seq::filter);
                    assert(s.take(0) =~= Seq::<TokenModel>::empty());
                }
            }
        }
        self.upstream.token()
    }
}

/// The newline-delimited Chinese stop-word list embedded in the crate:
/// common function words and particles that carry no search relevance.
/// There is no trailing newline, so the empty string is not a member and
/// empty-text tokens pass the filter.
pub open spec fn chinese_stop_data() -> Seq<char> {
    "的\n了\n和\n是\n就\n都\n而\n及\n与\n着\n或\n之\n也\n在\n我\n你\n他\n她\n它\n们\n这\n那\n有\n只\n个\n不\n很\n吗\n呢\n吧\n啊\n被\n把\n让\n向\n从\n到\n对\n为\n因\n所\n如果\n但是\n可以\n没有\n我们\n你们\n他们\n这个\n那个\n什么\n一个"@
}

fn chinese_stop_data_text() -> (s: &'static str)
    ensures
        s@ == chinese_stop_data(),
{
    "的\n了\n和\n是\n就\n都\n而\n及\n与\n着\n或\n之\n也\n在\n我\n你\n他\n她\n它\n们\n这\n那\n有\n只\n个\n不\n很\n吗\n呢\n吧\n啊\n被\n把\n让\n向\n从\n到\n对\n为\n因\n所\n如果\n但是\n可以\n没有\n我们\n你们\n他们\n这个\n那个\n什么\n一个"
}

/// The exclusion set of the embedded Chinese stop-word list.
pub open spec fn chinese_stop_word_set() -> Set<Seq<char>> {
    lines_of(chinese_stop_data()).to_set()
}

/// The stop-word filter over the embedded Chinese list: it removes exactly
/// the words of that list.
pub fn chinese_stop_words() -> (f: StopWordFilter)
    ensures
        f@ == chinese_stop_word_set(),
{
    let words = split_lines(chinese_stop_data_text());
    StopWordFilter::remove(words)
}

/// A suppressed token is dropped whole, and a surviving token passes
/// through untouched: every token of the filtered sequence has text
/// outside the stop-word set, and every upstream token with text outside
/// the set survives, carrying the position and span its tokenizer gave it.
pub proof fn lemma_filter_keeps_tokens_unchanged(toks: Seq<TokenModel>, words: Set<Seq<char>>)
    ensures
        forall|i: int|
            0 <= i < toks.filter(kept_by(words)).len() ==> !words.contains(
                (#[trigger] toks.filter(kept_by(words))[i]).text,
            ),
        forall|i: int|
            0 <= i < toks.len() && !words.contains(toks[i].text) ==> toks.filter(
                kept_by(words),
            ).contains(#[trigger] toks[i]),
{
    assert forall|i: int| 0 <= i < toks.filter(kept_by(words)).len() implies !words.contains(
        (toks.filter(kept_by(words))[i]).text,
    ) by {
        toks.lemma_filter_pred(kept_by(words), i);
    }
    assert forall|i: int| 0 <= i < toks.len() && !words.contains(toks[i].text) implies toks.filter(
        kept_by(words),
    ).contains(toks[i]) by {
        toks.lemma_filter_contains(kept_by(words), i);
    }
}

} // verus!
