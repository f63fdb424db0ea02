//! Character-level text handling: splitting, trimming and decimal numbers.

use vstd::prelude::*;
use vstd::string::StringExecFns;

verus! {

/// Whether `c` is white space as Unicode defines it (`White_Space`).
pub open spec fn is_space(c: char) -> bool {
    let n = c as u32;
    ||| 0x09 <= n <= 0x0D
    ||| n == 0x20
    ||| n == 0x85
    ||| n == 0xA0
    ||| n == 0x1680
    ||| 0x2000 <= n <= 0x200A
    ||| n == 0x2028
    ||| n == 0x2029
    ||| n == 0x202F
    ||| n == 0x205F
    ||| n == 0x3000
}

/// `s` without its leading white space.
pub open spec fn trim_start(s: Seq<char>) -> Seq<char>
    decreases s.len(),
{
    if s.len() > 0 && is_space(s[0]) {
        trim_start(s.drop_first())
    } else {
        s
    }
}

/// `s` without its trailing white space.
pub open spec fn trim_end(s: Seq<char>) -> Seq<char>
    decreases s.len(),
{
    if s.len() > 0 && is_space(s.last()) {
        trim_end(s.drop_last())
    } else {
        s
    }
}

/// `s` without leading and trailing white space.
pub open spec fn trim(s: Seq<char>) -> Seq<char> {
    trim_end(trim_start(s))
}

/// Tells whether `c` is white space.
pub fn char_is_space(c: char) -> (b: bool)
    ensures
        b == is_space(c),
{
    let n: u32 = c as u32;
    (0x09 <= n && n <= 0x0D) || n == 0x20 || n == 0x85 || n == 0xA0 || n == 0x1680 || (0x2000
        <= n && n <= 0x200A) || n == 0x2028 || n == 0x2029 || n == 0x202F || n == 0x205F || n
        == 0x3000
}

/// Copies `text[from..to]` into a vector of its own.
pub fn slice_of(text: &Vec<char>, from: usize, to: usize) -> (out: Vec<char>)
    requires
        from <= to <= text.len(),
    ensures
        out@ == text@.subrange(from as int, to as int),
{
    let mut out: Vec<char> = Vec::new();
    let mut i: usize = from;
    while i < to
        invariant
            from <= i <= to <= text.len(),
            out@ == text@.subrange(from as int, i as int),
        decreases to - i,
    {
        out.push(text[i]);
        i += 1;
    }
    out
}

/// Removes leading and trailing white space.
pub fn trimmed(text: &Vec<char>) -> (out: Vec<char>)
    ensures
        out@ == trim(text@),
{
    let n: usize = text.len();
    let mut lo: usize = 0;
    assert(text@.subrange(0, n as int) == text@);
    while lo < n && char_is_space(text[lo])
        invariant
            n == text.len(),
            lo <= n,
            trim_start(text@) == trim_start(text@.subrange(lo as int, n as int)),
        decreases n - lo,
    {
        assert(text@.subrange(lo as int, n as int).drop_first() == text@.subrange(
            lo + 1,
            n as int,
        ));
        lo += 1;
    }
    let mut hi: usize = n;
    while hi > lo && char_is_space(text[hi - 1])
        invariant
            n == text.len(),
            lo <= hi <= n,
            trim(text@) == trim_end(text@.subrange(lo as int, hi as int)),
        decreases hi - lo,
    {
        assert(text@.subrange(lo as int, hi as int).drop_last() == text@.subrange(
            lo as int,
            hi - 1,
        ));
        hi -= 1;
    }
    slice_of(text, lo, hi)
}

/// Trimming removes white space in front of a text that begins and ends
/// with other characters, and nothing else.
pub proof fn lemma_trim_padded(pad: Seq<char>, core: Seq<char>)
    requires
        forall|i: int| 0 <= i < pad.len() ==> is_space(pad[i]),
        core.len() > 0,
        !is_space(core[0]),
        !is_space(core.last()),
    ensures
        trim(pad + core) == core,
    decreases pad.len(),
{
    if pad.len() > 0 {
        lemma_trim_padded(pad.drop_first(), core);
        assert((pad + core).drop_first() == pad.drop_first() + core);
    } else {
        assert(pad + core == core);
    }
}

/// The pieces of `s` between occurrences of `sep`, in order. A text with `n`
/// separators has `n + 1` pieces, some of which may be empty.
pub open spec fn split(s: Seq<char>, sep: char) -> Seq<Seq<char>>
    decreases s.len(),
{
    if s.len() == 0 {
        seq![Seq::<char>::empty()]
    } else {
        let before = split(s.drop_last(), sep);
        if s.last() == sep {
            before.push(Seq::<char>::empty())
        } else {
            before.update(before.len() - 1, before.last().push(s.last()))
        }
    }
}

/// The texts that a vector of character vectors holds.
pub open spec fn texts(pieces: Seq<Vec<char>>) -> Seq<Seq<char>> {
    Seq::new(pieces.len(), |i: int| pieces[i]@)
}

/// The characters of `s` as a vector.
pub fn chars_of(s: &str) -> (chars: Vec<char>)
    ensures
        chars@ == s@,
{
    let mut chars: Vec<char> = Vec::new();
    for c in it: s.chars()
        invariant
            it.seq() == s@,
            chars@ == s@.subrange(0, it.index() as int),
    {
        chars.push(c);
    }
    assert(s@.subrange(0, s@.len() as int) == s@);
    chars
}

/// Cuts `text` at every occurrence of `sep`.
pub fn split_on(text: &Vec<char>, sep: char) -> (pieces: Vec<Vec<char>>)
    ensures
        texts(pieces@) == split(text@, sep),
{
    let n: usize = text.len();
    let mut pieces: Vec<Vec<char>> = Vec::new();
    let mut piece: Vec<char> = Vec::new();
    let mut i: usize = 0;
    while i < n
        invariant
            n == text.len(),
            i <= n,
            texts(pieces@).push(piece@) == split(text@.subrange(0, i as int), sep),
        decreases n - i,
    {
        let c: char = text[i];
        proof {
            let upto = text@.subrange(0, i + 1);
            assert(upto.drop_last() == text@.subrange(0, i as int));
            assert(upto.last() == c);
        }
        if c == sep {
            let ghost before = texts(pieces@);
            pieces.push(piece);
            assert(texts(pieces@) == before.push(piece@));
            piece = Vec::new();
        } else {
            let ghost before = piece@;
            piece.push(c);
            assert(texts(pieces@).push(before).update(
                pieces.len() as int,
                before.push(c),
            ) == texts(pieces@).push(piece@));
        }
        i += 1;
    }
    assert(text@.subrange(0, n as int) == text@);
    let ghost before = texts(pieces@);
    pieces.push(piece);
    assert(texts(pieces@) == before.push(piece@));
    pieces
}

/// A text without `sep` is one piece, and a `sep` at the end of a text
/// starts a new, empty piece.
pub proof fn lemma_split_one_piece(s: Seq<char>, sep: char)
    requires
        forall|i: int| 0 <= i < s.len() ==> s[i] != sep,
    ensures
        split(s, sep) == seq![s],
        split(s.push(sep), sep) == seq![s, Seq::<char>::empty()],
    decreases s.len(),
{
    if s.len() > 0 {
        let front = s.drop_last();
        lemma_split_one_piece(front, sep);
        assert(front.push(s.last()) == s);
        assert(seq![front].update(0, s) =~= seq![s]);
    } else {
        assert(s == Seq::<char>::empty());
    }
    let ended = s.push(sep);
    assert(ended.drop_last() == s);
    assert(ended.last() == sep);
    assert(split(ended, sep) == split(s, sep).push(Seq::<char>::empty()));
    assert(seq![s].push(Seq::<char>::empty()) =~= seq![s, Seq::<char>::empty()]);
}

/// Whether `c` is one of the ten decimal digits.
pub open spec fn is_digit(c: char) -> bool {
    '0' as u32 <= c as u32 <= '9' as u32
}

/// The value of the digit `c`.
pub open spec fn digit_value(c: char) -> nat {
    (c as u32 - '0' as u32) as nat
}

/// Whether every character of `s` is a decimal digit.
pub open spec fn all_digits(s: Seq<char>) -> bool {
    forall|i: int| 0 <= i < s.len() ==> is_digit(#[trigger] s[i])
}

/// The number that the digit string `s` writes in base ten.
pub open spec fn decimal_value(s: Seq<char>) -> nat
    decreases s.len(),
{
    if s.len() == 0 {
        0
    } else {
        decimal_value(s.drop_last()) * 10 + digit_value(s.last())
    }
}

/// The digits of a number text: the text itself, without one leading `+`.
pub open spec fn unsigned_digits(s: Seq<char>) -> Seq<char> {
    if s.len() > 0 && s[0] == '+' {
        s.drop_first()
    } else {
        s
    }
}

/// What `s` reads as an 8-bit unsigned number: an optional `+`, then one or
/// more decimal digits whose value is at most 255. Anything else is no number.
pub open spec fn parse_u8(s: Seq<char>) -> Option<u8> {
    let digits = unsigned_digits(s);
    if digits.len() > 0 && all_digits(digits) && decimal_value(digits) <= 255 {
        Some(decimal_value(digits) as u8)
    } else {
        None
    }
}

/// A prefix of a digit string writes no larger a number than the whole.
proof fn lemma_decimal_prefix(s: Seq<char>, k: int)
    requires
        0 <= k <= s.len(),
    ensures
        decimal_value(s.subrange(0, k)) <= decimal_value(s),
    decreases s.len() - k,
{
    if k == s.len() {
        assert(s.subrange(0, k) == s);
    } else {
        lemma_decimal_prefix(s, k + 1);
        assert(s.subrange(0, k + 1).drop_last() == s.subrange(0, k));
    }
}

/// Reads `text` as an 8-bit unsigned decimal number.
pub fn parse_u8_chars(text: &Vec<char>) -> (value: Option<u8>)
    ensures
        value == parse_u8(text@),
{
    let n: usize = text.len();
    let start: usize = if n > 0 && text[0] == '+' {
        1
    } else {
        0
    };
    let ghost digits = unsigned_digits(text@);
    assert(digits == text@.subrange(start as int, n as int));
    if start == n {
        return None;
    }
    let mut acc: u32 = 0;
    let mut i: usize = start;
    while i < n
        invariant
            n == text.len(),
            start <= i <= n,
            digits == unsigned_digits(text@),
            digits == text@.subrange(start as int, n as int),
            all_digits(digits.subrange(0, i - start)),
            acc == decimal_value(digits.subrange(0, i - start)),
            acc <= 255,
        decreases n - i,
    {
        let c: char = text[i];
        let code: u32 = c as u32;
        assert(c == digits[i - start]);
        if code < 48 || code > 57 {
            assert(!is_digit(digits[i - start]));
            return None;
        }
        proof {
            let upto = digits.subrange(0, i - start + 1);
            assert(upto.drop_last() == digits.subrange(0, i - start));
            assert(upto.last() == text[i as int]);
            assert forall|j: int| 0 <= j < upto.len() implies is_digit(#[trigger] upto[j]) by {
                if j < i - start {
                    assert(upto[j] == digits.subrange(0, i - start)[j]);
                }
            }
        }
        acc = acc * 10 + (code - 48);
        if acc > 255 {
            proof {
                lemma_decimal_prefix(digits, i - start + 1);
            }
            return None;
        }
        i += 1;
    }
    assert(digits.subrange(0, n - start) == digits);
    Some(acc as u8)
}

/// The character that writes the digit `d`.
pub open spec fn digit_char(d: nat) -> char {
    if d == 0 {
        '0'
    } else if d == 1 {
        '1'
    } else if d == 2 {
        '2'
    } else if d == 3 {
        '3'
    } else if d == 4 {
        '4'
    } else if d == 5 {
        '5'
    } else if d == 6 {
        '6'
    } else if d == 7 {
        '7'
    } else if d == 8 {
        '8'
    } else {
        '9'
    }
}

/// `n` written in base ten, without leading zeros.
pub open spec fn decimal_digits(n: nat) -> Seq<char>
    decreases n,
{
    if n < 10 {
        seq![digit_char(n)]
    } else {
        decimal_digits(n / 10).push(digit_char(n % 10))
    }
}

/// The whole number `n` written in base ten, with `-` before a negative one.
pub open spec fn signed_digits(n: int) -> Seq<char> {
    if n < 0 {
        seq!['-'] + decimal_digits((-n) as nat)
    } else {
        decimal_digits(n as nat)
    }
}

/// The text of one decimal digit.
fn digit_text(d: u32) -> (text: &'static str)
    requires
        d < 10,
    ensures
        text@ == seq![digit_char(d as nat)],
{
    proof {
        reveal_strlit("0");
        reveal_strlit("1");
        reveal_strlit("2");
        reveal_strlit("3");
        reveal_strlit("4");
        reveal_strlit("5");
        reveal_strlit("6");
        reveal_strlit("7");
        reveal_strlit("8");
        reveal_strlit("9");
    }
    if d == 0 {
        "0"
    } else if d == 1 {
        "1"
    } else if d == 2 {
        "2"
    } else if d == 3 {
        "3"
    } else if d == 4 {
        "4"
    } else if d == 5 {
        "5"
    } else if d == 6 {
        "6"
    } else if d == 7 {
        "7"
    } else if d == 8 {
        "8"
    } else {
        "9"
    }
}

/// Appends `n`, written in base ten, to `out`.
pub fn push_decimal(out: &mut String, n: u32)
    ensures
        final(out)@ == old(out)@ + decimal_digits(n as nat),
    decreases n,
{
    if n >= 10 {
        push_decimal(out, n / 10);
    }
    out.append(digit_text(n % 10));
}

/// Appends `n`, written in base ten, to `out`.
pub fn push_signed_decimal(out: &mut String, n: i32)
    ensures
        final(out)@ == old(out)@ + signed_digits(n as int),
{
    if n < 0 {
        proof {
            reveal_strlit("-");
        }
        out.append("-");
        let size: u32 = if n == i32::MIN {
            2147483648
        } else {
            (-n) as u32
        };
        push_decimal(out, size);
        assert(out@ == old(out)@ + (seq!['-'] + decimal_digits((-n) as nat)));
    } else {
        push_decimal(out, n as u32);
    }
}

/// Ten to the power `e`.
spec fn pow10(e: nat) -> nat
    decreases e,
{
    if e == 0 {
        1
    } else {
        10 * pow10((e - 1) as nat)
    }
}

/// The number of digits that `n` takes in base ten.
pub fn decimal_width(n: u32) -> (width: usize)
    ensures
        width == decimal_digits(n as nat).len(),
        1 <= width <= 10,
{
    let mut width: usize = 1;
    let mut rest: u32 = n;
    let ghost mut room: nat = 9;
    assert(rest < pow10(10)) by {
        reveal_with_fuel(pow10, 11);
    }
    while rest >= 10
        invariant
            1 <= width,
            width + decimal_digits(rest as nat).len() == decimal_digits(n as nat).len() + 1,
            width + room == 10,
            rest < pow10(room + 1),
        decreases rest,
    {
        proof {
            assert(pow10(room + 1) == 10 * pow10(room));
            assert(pow10(0) == 1);
            room = (room - 1) as nat;
        }
        rest = rest / 10;
        width += 1;
    }
    width
}

/// A number that is written in base ten reads back as itself: its text is
/// made of digits, and their value is the number.
pub proof fn lemma_decimal_reads_back(n: nat)
    ensures
        decimal_digits(n).len() > 0,
        all_digits(decimal_digits(n)),
        decimal_value(decimal_digits(n)) == n,
        n <= 255 ==> parse_u8(decimal_digits(n)) == Some(n as u8),
    decreases n,
{
    let text = decimal_digits(n);
    if n < 10 {
        assert(text.drop_last() == Seq::<char>::empty());
        assert(decimal_value(text.drop_last()) == 0);
    } else {
        lemma_decimal_reads_back(n / 10);
        assert(text.drop_last() == decimal_digits(n / 10));
        assert forall|i: int| 0 <= i < text.len() implies is_digit(#[trigger] text[i]) by {
            if i < text.len() - 1 {
                assert(text[i] == decimal_digits(n / 10)[i]);
            }
        }
    }
    assert(is_digit(text[0]));
    assert(unsigned_digits(text) == text);
}

} // verus!
