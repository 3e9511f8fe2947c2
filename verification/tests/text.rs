use twitch_client::text::{is_whitespace_char, split_whitespace};

fn std_words(text: &str) -> Vec<String> {
    text.split_whitespace().map(|w| w.to_string()).collect()
}

#[test]
fn whitespace_agrees_with_std_on_every_char() {
    for n in 0u32..=0x10FFFF {
        if let Some(c) = char::from_u32(n) {
            assert_eq!(is_whitespace_char(c), c.is_whitespace(), "U+{:04X}", n);
        }
    }
}

#[test]
fn whitespace_holds_the_known_characters() {
    for c in [' ', '\t', '\n', '\r', '\u{b}', '\u{c}', '\u{85}', '\u{a0}', '\u{1680}', '\u{2000}',
        '\u{200a}', '\u{2028}', '\u{2029}', '\u{202f}', '\u{205f}', '\u{3000}']
    {
        assert!(is_whitespace_char(c));
    }
    for c in ['!', 'a', '0', '\u{8}', '\u{e}', '\u{200b}', '\u{180e}', '\u{feff}', '\u{2060}'] {
        assert!(!is_whitespace_char(c));
    }
}

#[test]
fn split_gives_words_in_order() {
    assert_eq!(split_whitespace("!test hello world"), vec!["!test", "hello", "world"]);
}

#[test]
fn split_of_empty_text_is_empty() {
    assert!(split_whitespace("").is_empty());
}

#[test]
fn split_of_whitespace_only_is_empty() {
    assert!(split_whitespace("   \t \n ").is_empty());
}

#[test]
fn split_of_one_word_is_that_word() {
    assert_eq!(split_whitespace("word"), vec!["word"]);
}

#[test]
fn split_passes_over_runs_of_whitespace() {
    assert_eq!(split_whitespace("  a   b\t\tc \n"), vec!["a", "b", "c"]);
}

#[test]
fn split_knows_whitespace_beyond_ascii() {
    assert_eq!(split_whitespace("a\u{a0}b\u{3000}c\u{2003}d"), vec!["a", "b", "c", "d"]);
}

#[test]
fn split_keeps_characters_that_only_look_like_spaces() {
    assert_eq!(split_whitespace("a\u{200b}b c"), vec!["a\u{200b}b", "c"]);
}

#[test]
fn split_keeps_characters_of_several_bytes() {
    assert_eq!(split_whitespace("héllo wörld ✓"), vec!["héllo", "wörld", "✓"]);
}

#[test]
fn split_agrees_with_std() {
    let texts = [
        "",
        " ",
        "a",
        " a",
        "a ",
        "!test hello world",
        "  leading and trailing  ",
        "tabs\tand\nnewlines\r\nmixed",
        "\u{85}x\u{1680}y\u{2028}z\u{2029}",
        "no-break\u{a0}space and narrow\u{202f}space",
        "emoji 😀 and ideographic\u{3000}space",
        "!",
        "! x",
        "!!x  y",
    ];
    for text in texts {
        assert_eq!(split_whitespace(text), std_words(text), "{:?}", text);
    }
}

#[test]
fn split_agrees_with_std_on_generated_texts() {
    let alphabet = ['a', '!', ' ', '\t', '\u{a0}', 'é', '\u{3000}', 'z'];
    let mut state: u64 = 0x2545F4914F6CDD1D;
    for _ in 0..2000 {
        let mut text = String::new();
        state ^= state << 13;
        state ^= state >> 7;
        state ^= state << 17;
        let len = (state % 12) as usize;
        for _ in 0..len {
            state ^= state << 13;
            state ^= state >> 7;
            state ^= state << 17;
            text.push(alphabet[(state % alphabet.len() as u64) as usize]);
        }
        assert_eq!(split_whitespace(&text), std_words(&text), "{:?}", text);
    }
}
