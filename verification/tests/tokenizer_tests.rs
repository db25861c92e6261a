use tantivy_pinyin::{tokenize, PinyinTokenizer, Token, TokenStream};

fn token_stream_helper(text: &str) -> Vec<Token> {
    let mut token_stream = PinyinTokenizer.token_stream(text);
    let mut tokens = vec![];
    while token_stream.advance() {
        tokens.push(token_stream.token().clone());
    }
    tokens
}

pub fn assert_token(token: &Token, position: usize, text: &str, from: usize, to: usize) {
    assert_eq!(
        token.position, position,
        "expected position {} but {:?}",
        position, token
    );
    assert_eq!(token.text, text, "expected text {} but {:?}", text, token);
    assert_eq!(
        token.offset_from, from,
        "expected offset_from {} but {:?}",
        from, token
    );
    assert_eq!(
        token.offset_to, to,
        "expected offset_to {} but {:?}",
        to, token
    );
}

#[test]
fn test_pinyin_tokenizer() {
    let tokens = token_stream_helper("大多数知识，不需要我们记住");
    assert_eq!(tokens.len(), 13);

    assert_token(&tokens[0], 0, "da", 0, 3);
    assert_token(&tokens[1], 1, "duo", 3, 6);
    assert_token(&tokens[2], 2, "shu", 6, 9);
    assert_token(&tokens[3], 3, "zhi", 9, 12);
    assert_token(&tokens[4], 4, "shi", 12, 15);

    assert_token(&tokens[5], 5, "", 15, 18);

    assert_token(&tokens[6], 6, "bu", 18, 21);
}

#[test]
fn test_advance() {
    let text = "知识";
    let mut token_stream = PinyinTokenizer.token_stream(text);

    assert_eq!(token_stream.advance(), true);
    assert_eq!(token_stream.advance(), true);
    assert_eq!(token_stream.advance(), false);
}

#[test]
fn one_token_per_character() {
    let text = "中文abc，123 末";
    let tokens = tokenize(text);
    assert_eq!(tokens.len(), text.chars().count());
}

#[test]
fn offsets_tile_the_input() {
    let text = "大多数知识，不需要我们记住";
    let tokens = tokenize(text);
    assert_eq!(tokens[0].offset_from, 0);
    for i in 0..tokens.len() - 1 {
        assert_eq!(tokens[i].offset_to, tokens[i + 1].offset_from);
    }
    assert_eq!(tokens[tokens.len() - 1].offset_to, text.len());
}

#[test]
fn positions_are_sequential() {
    let tokens = tokenize("知识，就是力量");
    for (i, t) in tokens.iter().enumerate() {
        assert_eq!(t.position, i);
    }
}

#[test]
fn miss_keeps_span_with_empty_text() {
    // Neither the fullwidth comma nor Latin letters have a pinyin
    // spelling: the tokens still consume their positions and spans.
    let tokens = tokenize("知，a");
    assert_eq!(tokens.len(), 3);
    assert_eq!(tokens[0].text, "zhi");
    assert_eq!(tokens[1].text, "");
    assert_eq!(tokens[1].offset_from, 3);
    assert_eq!(tokens[1].offset_to, 6);
    assert_eq!(tokens[2].text, "");
    assert_eq!(tokens[2].offset_from, 6);
    assert_eq!(tokens[2].offset_to, 7);
}

#[test]
fn empty_input_is_exhausted_at_once() {
    let mut stream = PinyinTokenizer.token_stream("");
    assert_eq!(stream.advance(), false);
    assert_eq!(tokenize("").len(), 0);
}

#[test]
fn reopening_yields_identical_tokens() {
    let text = "大多数知识，不需要我们记住";
    let first = tokenize(text);
    let second = tokenize(text);
    assert_eq!(first.len(), second.len());
    for (a, b) in first.iter().zip(second.iter()) {
        assert_eq!(a.text, b.text);
        assert_eq!(a.position, b.position);
        assert_eq!(a.offset_from, b.offset_from);
        assert_eq!(a.offset_to, b.offset_to);
    }
}

#[test]
fn token_mut_adjusts_the_buffer() {
    let mut stream = PinyinTokenizer.token_stream("知识");
    assert!(stream.advance());
    stream.token_mut().text = String::from("changed");
    assert_eq!(stream.token().text, "changed");
    assert!(stream.advance());
    assert_eq!(stream.token().text, "shi");
}
