use vstd::prelude::*;

verus! {

use pinyin::ToPinyin;

/// The plain, tone-free phonetic spelling that the transliteration table
/// assigns to a character, if the character has one. The table is static
/// data compiled into the `pinyin` crate, so the result is a function of
/// the character alone.
pub uninterp spec fn pinyin_of(c: char) -> Option<Seq<char>>;

/// The text that a token for character `c` carries: the plain spelling when
/// the table has one, the empty string otherwise.
pub open spec fn pinyin_text(c: char) -> Seq<char> {
    match pinyin_of(c) {
        Some(s) => s,
        None => Seq::empty(),
    }
}

/// Relies on `pinyin::ToPinyin` for `char` and `pinyin::Pinyin::plain`:
/// both read a static table, so they return the plain spelling of the
/// character when the table has an entry for it, and nothing otherwise.
#[verifier::external_body]
pub(crate) fn transliterate(c: char) -> (r: Option<String>)
    ensures
        r is Some <==> pinyin_of(c) is Some,
        r matches Some(s) ==> Some(s@) == pinyin_of(c),
{
    match c.to_pinyin() {
        Some(p) => Some(p.plain().to_string()),
        None => None,
    }
}

} // verus!
