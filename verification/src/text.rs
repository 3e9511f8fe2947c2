//! Splitting chat text into whitespace-delimited words.
//!
//! A chat line is read as a sequence of words separated by runs of
//! whitespace. `words` says, over `Seq<char>`, what the words of a text are;
//! `split_whitespace` computes them, and the lemmas below relate `words` to
//! concatenation.

use vstd::prelude::*;

verus! {

/// Whether `c` carries the Unicode `White_Space` property.
pub open spec fn is_whitespace(c: char) -> bool {
    let n = c as u32;
    ||| 0x09 <= n <= 0x0D
    ||| n == 0x20
    ||| n == 0x85
    ||| n == 0xA0
    ||| n == 0x1680
    ||| 0x2000 <= n <= 0x200A
    ||| n == 0x2028
    ||| n == 0x2029
    ||| n == 0x202F
    ||| n == 0x205F
    ||| n == 0x3000
}

/// Tells whether `c` is whitespace.
pub fn is_whitespace_char(c: char) -> (r: bool)
    ensures
        r == is_whitespace(c),
{
    let n: u32 = c as u32;
    (0x09 <= n && n <= 0x0D) || n == 0x20 || n == 0x85 || n == 0xA0 || n == 0x1680 || (0x2000 <= n
        && n <= 0x200A) || n == 0x2028 || n == 0x2029 || n == 0x202F || n == 0x205F || n == 0x3000
}

/// A word is a non-empty run of characters none of which is whitespace.
pub open spec fn is_word(w: Seq<char>) -> bool {
    &&& w.len() > 0
    &&& forall|i: int| 0 <= i < w.len() ==> !is_whitespace(#[trigger] w[i])
}

/// Every element of `ws` is a word.
pub open spec fn all_words(ws: Seq<Seq<char>>) -> bool {
    forall|i: int| 0 <= i < ws.len() ==> is_word(#[trigger] ws[i])
}

/// The length of the longest prefix of `s` that holds no whitespace.
pub open spec fn word_len(s: Seq<char>) -> nat
    decreases s.len(),
{
    if s.len() == 0 || is_whitespace(s[0]) {
        0
    } else {
        1 + word_len(s.drop_first())
    }
}

/// The words of `s`, in the order in which they occur: leading whitespace
/// is passed over, the longest whitespace-free prefix is a word, and the
/// rest of the text gives the remaining words.
pub open spec fn words(s: Seq<char>) -> Seq<Seq<char>>
    decreases s.len(),
    via words_decreases
{
    if s.len() == 0 {
        Seq::empty()
    } else if is_whitespace(s[0]) {
        words(s.drop_first())
    } else {
        seq![s.take(word_len(s) as int)] + words(s.skip(word_len(s) as int))
    }
}

#[via_fn]
proof fn words_decreases(s: Seq<char>) {
    lemma_word_len_bounds(s);
}

/// The leading word ends within the text, and is not empty where the text
/// starts with a character that is not whitespace.
pub proof fn lemma_word_len_bounds(s: Seq<char>)
    ensures
        word_len(s) <= s.len(),
        s.len() > 0 && !is_whitespace(s[0]) ==> word_len(s) >= 1,
        forall|i: int| 0 <= i < word_len(s) ==> !is_whitespace(#[trigger] s[i]),
        word_len(s) < s.len() ==> is_whitespace(s[word_len(s) as int]),
    decreases s.len(),
{
    if s.len() == 0 || is_whitespace(s[0]) {
    } else {
        let rest = s.drop_first();
        lemma_word_len_bounds(rest);
        assert forall|i: int| 0 <= i < word_len(s) implies !is_whitespace(#[trigger] s[i]) by {
            if i > 0 {
                assert(s[i] == rest[i - 1]);
            }
        }
    }
}

/// A word followed by nothing, or by whitespace, is the leading word of the
/// text.
pub proof fn lemma_word_len_of_word(w: Seq<char>, rest: Seq<char>)
    requires
        forall|i: int| 0 <= i < w.len() ==> !is_whitespace(#[trigger] w[i]),
        rest.len() == 0 || is_whitespace(rest[0]),
    ensures
        word_len(w + rest) == w.len(),
    decreases w.len(),
{
    if w.len() > 0 {
        assert((w + rest).drop_first() =~= w.drop_first() + rest);
        lemma_word_len_of_word(w.drop_first(), rest);
    }
}

/// The words of a text that starts with a word `w`, followed by nothing or
/// by whitespace, are `w` and then the words of what follows.
pub proof fn lemma_words_after_word(w: Seq<char>, rest: Seq<char>)
    requires
        is_word(w),
        rest.len() == 0 || is_whitespace(rest[0]),
    ensures
        words(w + rest) == seq![w] + words(rest),
{
    let s = w + rest;
    lemma_word_len_of_word(w, rest);
    assert(s.take(w.len() as int) =~= w);
    assert(s.skip(w.len() as int) =~= rest);
}

/// Whitespace in front of a text does not change its words.
pub proof fn lemma_words_after_whitespace(c: char, rest: Seq<char>)
    requires
        is_whitespace(c),
    ensures
        words(seq![c] + rest) == words(rest),
{
    let s = seq![c] + rest;
    assert(s.drop_first() =~= rest);
}

/// Every word of a text is a word: not empty, and free of whitespace.
pub proof fn lemma_words_are_words(s: Seq<char>)
    ensures
        all_words(words(s)),
    decreases s.len(),
{
    if s.len() == 0 {
    } else if is_whitespace(s[0]) {
        lemma_words_are_words(s.drop_first());
    } else {
        lemma_word_len_bounds(s);
        lemma_words_are_words(s.skip(word_len(s) as int));
    }
}

/// The strings of `v` as sequences of characters, in order.
spec fn views(v: Seq<String>) -> Seq<Seq<char>> {
    Seq::new(v.len(), |i: int| v[i]@)
}

/// `String::push` of the standard library appends one character to the end
/// of a string: afterwards the string holds what it held before, followed by
/// `c`. Verus takes this on trust.
pub assume_specification[ String::push ](s: &mut String, c: char)
    ensures
        final(s)@ == old(s)@.push(c),
;

/// Splits `text` into its words.
pub fn split_whitespace(text: &str) -> (tokens: Vec<String>)
    ensures
        tokens.deep_view() == words(text@),
{
    let mut tokens: Vec<String> = Vec::new();
    let mut current = String::new();
    proof {
        assert(current@ + text@.skip(0) =~= text@);
    }
    // The words of the text are the words found so far, followed by the
    // words of the word in progress put in front of what is still unread.
    for c in it: text.chars()
        invariant
            it.seq() == text@,
            forall|i: int| 0 <= i < current@.len() ==> !is_whitespace(#[trigger] current@[i]),
            words(text@) == views(tokens@) + words(current@ + text@.skip(it.index())),
    {
        let ghost rest = text@.skip(it.index() + 1);
        assert(text@.skip(it.index()) =~= seq![c] + rest);
        if is_whitespace_char(c) {
            if current.as_str().is_empty() {
                proof {
                    lemma_words_after_whitespace(c, rest);
                }
            } else {
                proof {
                    lemma_words_after_word(current@, seq![c] + rest);
                    lemma_words_after_whitespace(c, rest);
                }
                tokens.push(current);
                current = String::new();
            }
        } else {
            proof {
                assert(current@.push(c) + rest =~= current@ + (seq![c] + rest));
            }
            current.push(c);
        }
    }
    if !current.as_str().is_empty() {
        proof {
            lemma_words_after_word(current@, Seq::empty());
        }
        tokens.push(current);
    }
    tokens
}

} // verus!
