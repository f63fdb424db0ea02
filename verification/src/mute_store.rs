//! The record that outlives a mute: the loudness that a device had before it
//! was silenced, written as text. Reading the record back means finding the
//! number in it.

use vstd::prelude::*;
use vstd::string::StrSliceExecFns;
use crate::text::{all_digits, char_is_space, chars_of, is_digit, is_space, slice_of};

verus! {

/// Whether `c` is the letter that is written `small` or `capital`.
pub open spec fn is_letter(c: char, small: char, capital: char) -> bool {
    c == small || c == capital
}

/// Whether `s` spells `inf`, `infinity` or `nan`, in small or capital letters.
pub open spec fn is_special(s: Seq<char>) -> bool {
    ||| {
        &&& s.len() == 3
        &&& is_letter(s[0], 'i', 'I')
        &&& is_letter(s[1], 'n', 'N')
        &&& is_letter(s[2], 'f', 'F')
    }
    ||| {
        &&& s.len() == 8
        &&& is_letter(s[0], 'i', 'I')
        &&& is_letter(s[1], 'n', 'N')
        &&& is_letter(s[2], 'f', 'F')
        &&& is_letter(s[3], 'i', 'I')
        &&& is_letter(s[4], 'n', 'N')
        &&& is_letter(s[5], 'i', 'I')
        &&& is_letter(s[6], 't', 'T')
        &&& is_letter(s[7], 'y', 'Y')
    }
    ||| {
        &&& s.len() == 3
        &&& is_letter(s[0], 'n', 'N')
        &&& is_letter(s[1], 'a', 'A')
        &&& is_letter(s[2], 'n', 'N')
    }
}

/// Whether `s` is the part of a number before its exponent: digits with at
/// most one decimal point among them, and at least one digit.
pub open spec fn is_mantissa(s: Seq<char>) -> bool {
    &&& forall|i: int| 0 <= i < s.len() ==> is_digit(#[trigger] s[i]) || s[i] == '.'
    &&& forall|i: int, j: int|
        0 <= i < s.len() && 0 <= j < s.len() && #[trigger] s[i] == '.' && #[trigger] s[j] == '.'
            ==> i == j
    &&& exists|i: int| 0 <= i < s.len() && is_digit(#[trigger] s[i])
}

/// `s` without one leading sign.
pub open spec fn unsigned(s: Seq<char>) -> Seq<char> {
    if s.len() > 0 && (s[0] == '+' || s[0] == '-') {
        s.drop_first()
    } else {
        s
    }
}

/// Whether `s` is what follows the exponent mark of a number: an optional
/// sign, then one or more digits.
pub open spec fn is_exponent(s: Seq<char>) -> bool {
    unsigned(s).len() > 0 && all_digits(unsigned(s))
}

/// Whether `s` is a decimal number with its first `cut` characters as the
/// mantissa: the rest is empty, or an exponent mark and an exponent.
pub open spec fn is_number_cut_at(s: Seq<char>, cut: int) -> bool {
    &&& 0 <= cut <= s.len()
    &&& is_mantissa(s.subrange(0, cut))
    &&& cut < s.len() ==> is_letter(s[cut], 'e', 'E') && is_exponent(s.subrange(cut + 1, s.len() as int))
}

/// Whether `s` is a decimal number: a mantissa, alone or with an exponent.
pub open spec fn is_number(s: Seq<char>) -> bool {
    exists|cut: int| is_number_cut_at(s, cut)
}

/// Whether `s` is written as a floating-point number: an optional sign, then
/// a decimal number or one of `inf`, `infinity` and `nan`.
pub open spec fn is_float_text(s: Seq<char>) -> bool {
    is_special(unsigned(s)) || is_number(unsigned(s))
}

/// The length of the first word of `s`: the characters before its first
/// white space.
pub open spec fn word_len(s: Seq<char>) -> nat
    decreases s.len(),
{
    if s.len() == 0 || is_space(s[0]) {
        0
    } else {
        1 + word_len(s.drop_first())
    }
}

/// The first word of `s` that is written as a floating-point number. Every
/// white-space character ends a word.
pub open spec fn first_float_word(s: Seq<char>) -> Option<Seq<char>>
    decreases s.len(),
{
    let end = word_len(s) as int;
    if end > s.len() {
        None
    } else if is_float_text(s.subrange(0, end)) {
        Some(s.subrange(0, end))
    } else if end == s.len() {
        None
    } else {
        first_float_word(s.subrange(end + 1, s.len() as int))
    }
}

/// A word is no longer than its text.
proof fn lemma_word_len(s: Seq<char>)
    ensures
        word_len(s) <= s.len(),
        word_len(s) < s.len() ==> is_space(s[word_len(s) as int]),
        forall|i: int| 0 <= i < word_len(s) ==> !is_space(s[i]),
    decreases s.len(),
{
    if s.len() > 0 && !is_space(s[0]) {
        lemma_word_len(s.drop_first());
        assert forall|i: int| 0 <= i < word_len(s) implies !is_space(s[i]) by {
            if i > 0 {
                assert(s[i] == s.drop_first()[i - 1]);
            }
        }
    }
}

/// A text whose first `k` characters are no white space, and which ends
/// there or goes on with white space, has a first word of `k` characters.
proof fn lemma_word_ends(s: Seq<char>, k: int)
    requires
        0 <= k <= s.len(),
        forall|i: int| 0 <= i < k ==> !is_space(s[i]),
        k < s.len() ==> is_space(s[k]),
    ensures
        word_len(s) == k,
    decreases k,
{
    if k > 0 {
        lemma_word_ends(s.drop_first(), k - 1);
    }
}

/// Tells whether `c` is a decimal digit.
fn char_is_digit(c: char) -> (b: bool)
    ensures
        b == is_digit(c),
{
    let code: u32 = c as u32;
    48 <= code && code <= 57
}

/// Tells whether `word[from..]` is made of digits only.
fn digits_from(word: &Vec<char>, from: usize) -> (b: bool)
    requires
        from <= word.len(),
    ensures
        b == all_digits(word@.subrange(from as int, word.len() as int)),
{
    let n: usize = word.len();
    let ghost rest = word@.subrange(from as int, n as int);
    let mut i: usize = from;
    while i < n
        invariant
            n == word.len(),
            from <= i <= n,
            rest == word@.subrange(from as int, n as int),
            forall|j: int| 0 <= j < i - from ==> is_digit(#[trigger] rest[j]),
        decreases n - i,
    {
        if !char_is_digit(word[i]) {
            assert(!is_digit(rest[i - from]));
            return false;
        }
        i += 1;
    }
    true
}

/// Tells whether `word[from..]` is an exponent.
fn exponent_from(word: &Vec<char>, from: usize) -> (b: bool)
    requires
        from <= word.len(),
    ensures
        b == is_exponent(word@.subrange(from as int, word.len() as int)),
{
    let n: usize = word.len();
    let ghost rest = word@.subrange(from as int, n as int);
    let start: usize = if from < n && (word[from] == '+' || word[from] == '-') {
        from + 1
    } else {
        from
    };
    assert(unsigned(rest) == word@.subrange(start as int, n as int));
    start < n && digits_from(word, start)
}

/// Tells whether `word[from..]` spells `inf`, `infinity` or `nan`.
fn special_from(word: &Vec<char>, from: usize) -> (b: bool)
    requires
        from <= word.len(),
    ensures
        b == is_special(word@.subrange(from as int, word.len() as int)),
{
    let n: usize = word.len();
    let ghost rest = word@.subrange(from as int, n as int);
    if n - from == 3 {
        let a: char = word[from];
        let b: char = word[from + 1];
        let c: char = word[from + 2];
        assert(rest[0] == a && rest[1] == b && rest[2] == c);
        ((a == 'i' || a == 'I') && (b == 'n' || b == 'N') && (c == 'f' || c == 'F')) || ((a == 'n'
            || a == 'N') && (b == 'a' || b == 'A') && (c == 'n' || c == 'N'))
    } else if n - from == 8 {
        let a: char = word[from];
        let b: char = word[from + 1];
        let c: char = word[from + 2];
        let d: char = word[from + 3];
        let e: char = word[from + 4];
        let f: char = word[from + 5];
        let g: char = word[from + 6];
        let h: char = word[from + 7];
        assert(rest[0] == a && rest[1] == b && rest[2] == c && rest[3] == d && rest[4] == e
            && rest[5] == f && rest[6] == g && rest[7] == h);
        (a == 'i' || a == 'I') && (b == 'n' || b == 'N') && (c == 'f' || c == 'F') && (d == 'i'
            || d == 'I') && (e == 'n' || e == 'N') && (f == 'i' || f == 'I') && (g == 't' || g
            == 'T') && (h == 'y' || h == 'Y')
    } else {
        false
    }
}

/// Tells whether `word[from..]` is a decimal number.
fn number_from(word: &Vec<char>, from: usize) -> (b: bool)
    requires
        from <= word.len(),
    ensures
        b == is_number(word@.subrange(from as int, word.len() as int)),
{
    let n: usize = word.len();
    let ghost body = word@.subrange(from as int, n as int);
    let mut i: usize = from;
    let mut seen_digit: bool = false;
    let mut seen_point: bool = false;
    while i < n && (char_is_digit(word[i]) || (word[i] == '.' && !seen_point))
        invariant
            n == word.len(),
            from <= i <= n,
            body == word@.subrange(from as int, n as int),
            forall|j: int| 0 <= j < i - from ==> is_digit(#[trigger] body[j]) || body[j] == '.',
            forall|j: int, k: int|
                0 <= j < i - from && 0 <= k < i - from && #[trigger] body[j] == '.'
                    && #[trigger] body[k] == '.' ==> j == k,
            seen_digit <==> exists|j: int| 0 <= j < i - from && is_digit(#[trigger] body[j]),
            seen_point <==> exists|j: int| 0 <= j < i - from && #[trigger] body[j] == '.',
        decreases n - i,
    {
        let ghost at = i - from;
        assert(body[at] == word[i as int]);
        if word[i] == '.' {
            seen_point = true;
            assert(!is_digit('.'));
        } else {
            seen_digit = true;
        }
        i += 1;
    }
    let ghost cut = i - from;
    let ghost mantissa = body.subrange(0, cut);
    assert(forall|j: int| 0 <= j < cut ==> mantissa[j] == body[j]);
    // Any other place to cut lies inside the mantissa or beyond its end.
    assert forall|other: int| is_number_cut_at(body, other) implies other == cut by {
        if other < cut {
            assert(is_digit(body[other]) || body[other] == '.');
            assert(!is_digit('e') && !is_digit('E'));
        } else if other > cut {
            let longer = body.subrange(0, other);
            assert(longer[cut] == body[cut]);
            assert(is_digit(longer[cut]) || longer[cut] == '.');
            assert(body[cut] == word[i as int]);
            let first = choose|j: int| 0 <= j < cut && body[j] == '.';
            assert(longer[first] == '.');
        }
    }
    if !seen_digit {
        assert(!is_mantissa(mantissa)) by {
            if is_mantissa(mantissa) {
                let j = choose|j: int| 0 <= j < mantissa.len() && is_digit(#[trigger] mantissa[j]);
                assert(is_digit(body[j]));
            }
        }
        return false;
    }
    assert(is_mantissa(mantissa)) by {
        let j = choose|j: int| 0 <= j < cut && is_digit(#[trigger] body[j]);
        assert(is_digit(mantissa[j]));
    }
    if i == n {
        assert(is_number_cut_at(body, cut));
        return true;
    }
    assert(body[cut] == word[i as int]);
    if word[i] == 'e' || word[i] == 'E' {
        assert(body.subrange(cut + 1, body.len() as int) == word@.subrange(i + 1, n as int));
        let b: bool = exponent_from(word, i + 1);
        if b {
            assert(is_number_cut_at(body, cut));
        }
        b
    } else {
        false
    }
}

/// Tells whether `word` is written as a floating-point number.
pub fn is_float_word(word: &Vec<char>) -> (b: bool)
    ensures
        b == is_float_text(word@),
{
    let n: usize = word.len();
    let start: usize = if n > 0 && (word[0] == '+' || word[0] == '-') {
        1
    } else {
        0
    };
    assert(unsigned(word@) == word@.subrange(start as int, n as int));
    special_from(word, start) || number_from(word, start)
}

/// Finds the loudness in what the record holds: the first word that is
/// written as a floating-point number. A record without such a word holds
/// no loudness.
pub fn read_tmp_vol(content: &str) -> (loudness: Option<&str>)
    ensures
        loudness is Some <==> first_float_word(content@) is Some,
        loudness matches Some(word) ==> first_float_word(content@) == Some(word@),
{
    let text: Vec<char> = chars_of(content);
    let n: usize = text.len();
    let mut start: usize = 0;
    assert(text@.subrange(0, n as int) == text@);
    loop
        invariant
            n == text.len(),
            text@ == content@,
            start <= n,
            first_float_word(text@) == first_float_word(text@.subrange(start as int, n as int)),
        decreases n - start,
    {
        let ghost rest = text@.subrange(start as int, n as int);
        let mut end: usize = start;
        while end < n && !char_is_space(text[end])
            invariant
                n == text.len(),
                start <= end <= n,
                rest == text@.subrange(start as int, n as int),
                forall|i: int| 0 <= i < end - start ==> !is_space(#[trigger] rest[i]),
            decreases n - end,
        {
            end += 1;
        }
        proof {
            lemma_word_ends(rest, end - start);
            assert(rest.subrange(0, end - start) == text@.subrange(start as int, end as int));
        }
        let word: Vec<char> = slice_of(&text, start, end);
        if is_float_word(&word) {
            return Some(content.substring_char(start, end));
        }
        if end == n {
            return None;
        }
        proof {
            assert(rest.subrange(end - start + 1, rest.len() as int) == text@.subrange(
                end + 1,
                n as int,
            ));
        }
        start = end + 1;
    }
}

} // verus!
