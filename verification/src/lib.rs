//! A transliterating tokenizer for search indexing: it turns a text of
//! Chinese ideographs into a stream of pinyin tokens, one per character,
//! each tagged with its ordinal position and its byte span in the input,
//! together with a stop-word filter that drops tokens whose text is on a
//! fixed exclusion list.

pub mod oracle;
pub mod stop_words;
pub mod stream;
pub mod token;
pub mod tokenizer;

pub use stop_words::StopWordFilter;
pub use stop_words::StopWordTokenStream;
pub use stop_words::chinese_stop_words;
pub use stop_words::split_lines;
pub use stream::TokenStream;
pub use stream::VecTokenStream;
pub use token::Token;
pub use tokenizer::PinyinTokenStream;
pub use tokenizer::PinyinTokenizer;
pub use tokenizer::tokenize;
