//! The two textual forms of an identifier, as functions on sequences.
//!
//! The canonical form has 36 characters: 32 lowercase hexadecimal digits in
//! groups of 8, 4, 4, 4 and 12, with a hyphen between two groups. The simple
//! form is the 32 digits alone. Reading accepts digits of either case.

use vstd::prelude::*;
use crate::error::ParseReason;
use crate::hex::{hex_digit, hex_value, lemma_hex_value_of_digit};

verus! {

/// The positions of the canonical form that hold a hyphen.
pub open spec fn is_hyphen_position(i: int) -> bool {
    i == 8 || i == 13 || i == 18 || i == 23
}

/// The number of the digit, counted from 0, that stands at position `i` of
/// the canonical form, where `i` is no hyphen position.
pub open spec fn digit_index(i: int) -> int {
    if i < 8 {
        i
    } else if i < 13 {
        i - 1
    } else if i < 18 {
        i - 2
    } else if i < 23 {
        i - 3
    } else {
        i - 4
    }
}

/// The position in the canonical form of digit number `k`, for `0 <= k < 32`.
pub open spec fn digit_position(k: int) -> int {
    if k < 8 {
        k
    } else if k < 12 {
        k + 1
    } else if k < 16 {
        k + 2
    } else if k < 20 {
        k + 3
    } else {
        k + 4
    }
}

/// Half-byte number `k` of `bytes`: the high half of byte `k / 2` where `k` is
/// even, its low half where `k` is odd.
pub open spec fn nibble(bytes: Seq<u8>, k: int) -> int {
    if k % 2 == 0 {
        bytes[k / 2] as int / 16
    } else {
        bytes[k / 2] as int % 16
    }
}

/// The simple form of 16 bytes: 32 lowercase digits.
pub open spec fn simple_text(bytes: Seq<u8>) -> Seq<char> {
    Seq::new(32, |k: int| hex_digit(nibble(bytes, k)))
}

/// The character at position `i` of the canonical form of 16 bytes.
pub open spec fn canonical_char(bytes: Seq<u8>, i: int) -> char {
    if is_hyphen_position(i) {
        '-'
    } else {
        hex_digit(nibble(bytes, digit_index(i)))
    }
}

/// The canonical form of 16 bytes.
pub open spec fn canonical_text(bytes: Seq<u8>) -> Seq<char> {
    Seq::new(36, |i: int| canonical_char(bytes, i))
}

/// Whether the character at position `i` of `s` is what the canonical form
/// has there: a hyphen, or a hexadecimal digit of either case.
pub open spec fn position_ok(s: Seq<char>, i: int) -> bool {
    if is_hyphen_position(i) {
        s[i] == '-'
    } else {
        hex_value(s[i]) is Some
    }
}

/// Whether `s` has the shape of the canonical form.
pub open spec fn is_canonical_form(s: Seq<char>) -> bool {
    s.len() == 36 && forall|i: int| 0 <= i < 36 ==> position_ok(s, i)
}

/// The first position from `from` on at which `s` departs from the canonical
/// shape, and 36 where there is none.
pub open spec fn first_mismatch(s: Seq<char>, from: int) -> int
    decreases 36 - from,
{
    if from >= 36 {
        36
    } else if !position_ok(s, from) {
        from
    } else {
        first_mismatch(s, from + 1)
    }
}

/// Byte number `j` that a text of canonical shape stands for.
pub open spec fn decoded_byte(s: Seq<char>, j: int) -> u8 {
    (hex_value(s[digit_position(2 * j)]).unwrap() * 16 + hex_value(
        s[digit_position(2 * j + 1)],
    ).unwrap()) as u8
}

/// The 16 bytes that a text of canonical shape stands for.
pub open spec fn decoded_bytes(s: Seq<char>) -> Seq<u8> {
    Seq::new(16, |j: int| decoded_byte(s, j))
}

/// What reading `s` gives: the 16 bytes, or the reason why `s` is not in
/// canonical form. A wrong length is reported before any character is looked
/// at; otherwise the first offending position decides.
pub open spec fn parse_outcome(s: Seq<char>) -> Result<Seq<u8>, ParseReason> {
    if s.len() != 36 {
        Err(ParseReason::WrongLength { found: s.len() as usize })
    } else {
        let i = first_mismatch(s, 0);
        if i >= 36 {
            Ok(decoded_bytes(s))
        } else if is_hyphen_position(i) {
            Err(ParseReason::MissingHyphen { position: i as usize })
        } else {
            Err(ParseReason::InvalidCharacter { position: i as usize })
        }
    }
}

/// `first_mismatch` is the least offending position at or after `from`.
pub proof fn lemma_first_mismatch(s: Seq<char>, from: int)
    requires
        0 <= from <= 36,
    ensures
        from <= first_mismatch(s, from) <= 36,
        first_mismatch(s, from) < 36 ==> !position_ok(s, first_mismatch(s, from)),
        forall|i: int| from <= i < first_mismatch(s, from) ==> position_ok(s, i),
    decreases 36 - from,
{
    if from < 36 && position_ok(s, from) {
        lemma_first_mismatch(s, from + 1);
    }
}

/// Reading succeeds on the texts of canonical shape and on no others.
pub proof fn lemma_parse_accepts_canonical_form(s: Seq<char>)
    ensures
        parse_outcome(s) is Ok <==> is_canonical_form(s),
        parse_outcome(s) is Ok ==> parse_outcome(s) == Ok::<Seq<u8>, ParseReason>(
            decoded_bytes(s),
        ),
{
    lemma_first_mismatch(s, 0);
}

/// Reading the canonical form of 16 bytes gives the 16 bytes back.
pub proof fn lemma_parse_canonical_text(bytes: Seq<u8>)
    requires
        bytes.len() == 16,
    ensures
        is_canonical_form(canonical_text(bytes)),
        parse_outcome(canonical_text(bytes)) == Ok::<Seq<u8>, ParseReason>(bytes),
{
    let s = canonical_text(bytes);
    assert forall|i: int| 0 <= i < 36 implies position_ok(s, i) by {
        if !is_hyphen_position(i) {
            lemma_hex_value_of_digit(nibble(bytes, digit_index(i)));
        }
    }
    lemma_parse_accepts_canonical_form(s);
    assert forall|j: int| 0 <= j < 16 implies decoded_byte(s, j) == bytes[j] by {
        lemma_hex_value_of_digit(nibble(bytes, 2 * j));
        lemma_hex_value_of_digit(nibble(bytes, 2 * j + 1));
        assert(digit_index(digit_position(2 * j)) == 2 * j);
        assert(digit_index(digit_position(2 * j + 1)) == 2 * j + 1);
        assert(!is_hyphen_position(digit_position(2 * j)));
        assert(!is_hyphen_position(digit_position(2 * j + 1)));
    }
    assert(decoded_bytes(s) =~= bytes);
}

} // verus!
