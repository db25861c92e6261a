use tantivy_pinyin::{chinese_stop_words, split_lines, Token, TokenStream, VecTokenStream};

/// Splits `text` on spaces the way a simple whitespace tokenizer would:
/// each run of non-space characters becomes one token, tagged with its
/// ordinal position and its byte span in `text`.
fn whitespace_tokens(text: &str) -> Vec<Token> {
    let mut tokens = vec![];
    let mut start: Option<usize> = None;
    for (byte, c) in text.char_indices() {
        if c == ' ' {
            if let Some(from) = start.take() {
                let position = tokens.len();
                tokens.push(Token {
                    text: text[from..byte].to_string(),
                    position,
                    offset_from: from,
                    offset_to: byte,
                });
            }
        } else if start.is_none() {
            start = Some(byte);
        }
    }
    if let Some(from) = start {
        let position = tokens.len();
        tokens.push(Token {
            text: text[from..].to_string(),
            position,
            offset_from: from,
            offset_to: text.len(),
        });
    }
    tokens
}

fn token_stream_helper(text: &str) -> Vec<Token> {
    let upstream = VecTokenStream::new(whitespace_tokens(text));
    let mut stream = chinese_stop_words().transform(upstream);
    let mut tokens: Vec<Token> = vec![];
    while stream.advance() {
        tokens.push(stream.token().clone());
    }
    tokens
}

pub fn assert_token(token: &Token, position: usize, text: &str, from: usize, to: usize) {
    assert_eq!(token.position, position, "expected position {} but {:?}", position, token);
    assert_eq!(token.text, text, "expected text {} but {:?}", text, token);
    assert_eq!(token.offset_from, from, "expected offset_from {} but {:?}", from, token);
    assert_eq!(token.offset_to, to, "expected offset_to {} but {:?}", to, token);
}

#[test]
fn test_stop_word() {
    let tokens = token_stream_helper("我 的 家里 有 只 猫");
    assert_eq!(tokens.len(), 2);
    assert_token(&tokens[0], 2, "家里", 8, 14);
    assert_token(&tokens[1], 5, "猫", 23, 26);
}

#[test]
fn membership_follows_the_list() {
    let filter = chinese_stop_words();
    assert!(filter.is_stop_word(&"我".to_string()));
    assert!(filter.is_stop_word(&"的".to_string()));
    assert!(filter.is_stop_word(&"有".to_string()));
    assert!(filter.is_stop_word(&"只".to_string()));
    assert!(!filter.is_stop_word(&"家里".to_string()));
    assert!(!filter.is_stop_word(&"猫".to_string()));
    assert!(!filter.is_stop_word(&"".to_string()));
}

#[test]
fn split_lines_on_newline() {
    let lines = split_lines("我\n的\n有");
    assert_eq!(lines, vec!["我", "的", "有"]);
}

#[test]
fn split_lines_trims_one_carriage_return() {
    let lines = split_lines("我\r\n的\r\n有\r");
    assert_eq!(lines, vec!["我", "的", "有"]);
}

#[test]
fn split_lines_keeps_empty_lines() {
    assert_eq!(split_lines(""), vec![""]);
    assert_eq!(split_lines("a\n"), vec!["a", ""]);
    assert_eq!(split_lines("a\n\nb"), vec!["a", "", "b"]);
}

#[test]
fn empty_upstream_stays_empty() {
    let upstream = VecTokenStream::new(vec![]);
    let mut stream = chinese_stop_words().transform(upstream);
    assert_eq!(stream.advance(), false);
}

#[test]
fn all_tokens_suppressed() {
    let tokens = token_stream_helper("我 的 有 只");
    assert_eq!(tokens.len(), 0);
}
