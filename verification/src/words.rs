//! Characters, whitespace and whitespace-delimited words.

use vstd::prelude::*;

verus! {

/// The text offered where no word list supplies one.
pub const DEFAULT_TEXT: &'static str = "the quick brown fox jumps over the lazy dog";

/// Whether `c` is whitespace: one of the 25 characters that Unicode gives
/// the property `White_Space`. They are the tab, the four line controls
/// after it and the space; the next-line control and the no-break space;
/// the Ogham space mark; the eleven spaces from the en quad to the hair
/// space; the line and paragraph separators; the narrow no-break space, the
/// medium mathematical space and the ideographic space.
pub open spec fn is_whitespace_char(c: char) -> bool {
    let code = c as u32;
    ||| 0x09 <= code <= 0x0D
    ||| code == 0x20
    ||| code == 0x85
    ||| code == 0xA0
    ||| code == 0x1680
    ||| 0x2000 <= code <= 0x200A
    ||| code == 0x2028
    ||| code == 0x2029
    ||| code == 0x202F
    ||| code == 0x205F
    ||| code == 0x3000
}

/// Whether `c` is whitespace.
pub fn is_whitespace(c: char) -> (blank: bool)
    ensures
        blank == is_whitespace_char(c),
{
    let code: u32 = c as u32;
    if code < 0x80 {
        code == 0x20 || (0x09 <= code && code <= 0x0D)
    } else if code < 0x2000 {
        code == 0x85 || code == 0xA0 || code == 0x1680
    } else if code <= 0x200A {
        true
    } else {
        code == 0x2028 || code == 0x2029 || code == 0x202F || code == 0x205F || code == 0x3000
    }
}

/// A word starts at `i` when `s[i]` is not whitespace and is either the
/// first character or preceded by whitespace.
pub open spec fn is_word_start(s: Seq<char>, i: int) -> bool {
    &&& 0 <= i < s.len()
    &&& !is_whitespace_char(s[i])
    &&& (i == 0 || is_whitespace_char(s[i - 1]))
}

/// Number of word starts among the first `n` characters of `s`.
pub open spec fn word_starts(s: Seq<char>, n: nat) -> nat
    decreases n,
{
    if n == 0 {
        0
    } else {
        word_starts(s, (n - 1) as nat) + if is_word_start(s, n - 1) {
            1nat
        } else {
            0nat
        }
    }
}

/// Number of whitespace-delimited words in `s`: maximal runs of
/// non-whitespace characters.
pub open spec fn word_count(s: Seq<char>) -> nat {
    word_starts(s, s.len())
}

/// There are no more word starts than positions.
pub proof fn lemma_word_starts_bounded(s: Seq<char>, n: nat)
    ensures
        word_starts(s, n) <= n,
    decreases n,
{
    if n > 0 {
        lemma_word_starts_bounded(s, (n - 1) as nat);
    }
}

/// Counts the whitespace-delimited words of `text`.
pub fn count_words(text: &Vec<char>) -> (n: usize)
    ensures
        n == word_count(text@),
{
    let mut n: usize = 0;
    let mut in_word: bool = false;
    let mut i: usize = 0;
    while i < text.len()
        invariant
            i <= text.len(),
            n == word_starts(text@, i as nat),
            in_word == (i > 0 && !is_whitespace_char(text@[i - 1])),
        decreases text.len() - i,
    {
        let blank: bool = is_whitespace(text[i]);
        proof {
            lemma_word_starts_bounded(text@, i as nat);
        }
        if !blank && !in_word {
            n = n + 1;
        }
        in_word = !blank;
        i = i + 1;
    }
    n
}

/// The characters of `s`, in order.
pub fn chars_of(s: &str) -> (v: Vec<char>)
    ensures
        v@ == s@,
{
    let mut v: Vec<char> = Vec::new();
    for c in it: s.chars()
        invariant
            it.seq() == s@,
            v@ == it.seq().take(it.index()),
    {
        v.push(c);
    }
    v
}

} // verus!
