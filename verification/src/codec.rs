//! The percentage scale: how a rendered volume reads as a percentage, and
//! where an adjustment on that scale is headed.

use vstd::prelude::*;
use crate::text::{
    chars_of,
    decimal_digits,
    is_space,
    lemma_decimal_reads_back,
    lemma_split_one_piece,
    lemma_trim_padded,
    parse_u8,
    parse_u8_chars,
    split,
    split_on,
    texts,
    trim,
    trimmed,
};

verus! {

/// The highest percentage an adjustment reaches without boost.
pub const MAX_VOLUME: u8 = 100;

/// The highest percentage an adjustment reaches with boost.
pub const MAX_VOLUME_BOOSTED: u8 = 120;

/// The loudness of one step, in decibels: about one percent of the scale.
pub const APPROX_ONE_PCT: i32 = -120;

/// Stands for "no percentage could be read". It is no volume.
pub const UNKNOWN_VOLUME: u8 = 255;

/// The first number among `pieces`, each read without its surrounding white
/// space; `None` where no piece is a number.
pub open spec fn first_number(pieces: Seq<Seq<char>>) -> Option<u8>
    decreases pieces.len(),
{
    if pieces.len() == 0 {
        None
    } else {
        match parse_u8(trim(pieces[0])) {
            Some(value) => Some(value),
            None => first_number(pieces.drop_first()),
        }
    }
}

/// The percentage that a rendered volume shows: the rendering is cut at each
/// `%`, and the first piece that is a number counts. A rendering without such
/// a piece reads as `UNKNOWN_VOLUME`.
pub open spec fn percent_of(rendering: Seq<char>) -> u8 {
    match first_number(split(rendering, '%')) {
        Some(value) => value,
        None => UNKNOWN_VOLUME,
    }
}

/// Reads the percentage off a rendered volume.
pub fn read_volume_as_pct(rendering: &str) -> (pct: u8)
    ensures
        pct == percent_of(rendering@),
{
    let chars: Vec<char> = chars_of(rendering);
    let pieces: Vec<Vec<char>> = split_on(&chars, '%');
    let n: usize = pieces.len();
    let mut i: usize = 0;
    assert(texts(pieces@).subrange(0, n as int) == texts(pieces@));
    while i < n
        invariant
            n == pieces.len(),
            i <= n,
            texts(pieces@) == split(rendering@, '%'),
            first_number(texts(pieces@)) == first_number(
                texts(pieces@).subrange(i as int, n as int),
            ),
        decreases n - i,
    {
        let piece: Vec<char> = trimmed(&pieces[i]);
        proof {
            let rest = texts(pieces@).subrange(i as int, n as int);
            assert(rest[0] == pieces[i as int]@);
            assert(rest.drop_first() == texts(pieces@).subrange(i + 1, n as int));
        }
        match parse_u8_chars(&piece) {
            Some(value) => {
                return value;
            },
            None => {},
        }
        i += 1;
    }
    UNKNOWN_VOLUME
}

/// A rendering in the server's manner, a percentage in base ten after any
/// white space and before a `%`, reads as that percentage.
pub proof fn lemma_reads_rendered_percentage(pad: Seq<char>, pct: u8)
    requires
        forall|i: int| 0 <= i < pad.len() ==> is_space(pad[i]),
    ensures
        percent_of((pad + decimal_digits(pct as nat)).push('%')) == pct,
{
    let number = decimal_digits(pct as nat);
    let shown = pad + number;
    lemma_decimal_reads_back(pct as nat);
    assert forall|i: int| 0 <= i < shown.len() implies shown[i] != '%' by {
        if i >= pad.len() {
            assert(shown[i] == number[i - pad.len()]);
        }
    }
    lemma_split_one_piece(shown, '%');
    lemma_trim_padded(pad, number);
    assert(split(shown.push('%'), '%')[0] == shown);
}

/// The ceiling of the scale: `MAX_VOLUME_BOOSTED` with boost, `MAX_VOLUME` without.
pub open spec fn ceiling(boost: bool) -> u8 {
    if boost {
        MAX_VOLUME_BOOSTED
    } else {
        MAX_VOLUME
    }
}

/// Where raising `current` by `inc` is headed: their sum, held at the ceiling.
pub open spec fn raised_target(current: u8, inc: u8, boost: bool) -> u8 {
    if current + inc > ceiling(boost) {
        ceiling(boost)
    } else {
        (current + inc) as u8
    }
}

/// Where lowering `current` by `dec` is headed: their difference, held at zero.
pub open spec fn lowered_target(current: u8, dec: u8) -> u8 {
    if dec > current {
        0
    } else {
        (current - dec) as u8
    }
}

} // verus!
