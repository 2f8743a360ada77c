//! The identifier itself: 16 bytes, their textual forms and their fields.

use vstd::prelude::*;
use vstd::string::*;
use crate::error::{ParseError, ParseReason};
use crate::hex::{hex_char_value, hex_digit_str};
use crate::text::{
    canonical_char, canonical_text, decoded_byte, decoded_bytes, digit_index, digit_position,
    first_mismatch, is_hyphen_position, lemma_first_mismatch, nibble, parse_outcome, position_ok,
    simple_text,
};

verus! {

/// The version number that 16 bytes carry: the high half of byte 6.
pub open spec fn version_of(bytes: Seq<u8>) -> int {
    bytes[6] as int / 16
}

/// Whether the two high bits of byte 8 are `10`, the variant of RFC 4122.
pub open spec fn has_rfc4122_variant(bytes: Seq<u8>) -> bool {
    bytes[8] as int / 64 == 2
}

/// The 16 bytes that have `version` in the version field, `10` in the variant
/// field, and everywhere else the bits of `bytes`.
pub open spec fn stamped(bytes: Seq<u8>, version: int) -> Seq<u8> {
    Seq::new(
        16,
        |i: int|
            if i == 6 {
                (version * 16 + bytes[6] as int % 16) as u8
            } else if i == 8 {
                (128 + bytes[8] as int % 64) as u8
            } else {
                bytes[i]
            },
    )
}

/// The algorithm by which an identifier was made.
#[derive(Clone, Copy, Debug, PartialEq, Eq)]
pub enum Version {
    /// Version 1: a timestamp and a node identifier.
    TimeBased,
    /// Version 3: the MD5 hash of a namespace and a name.
    NameMd5,
    /// Version 4: random bits.
    Random,
    /// Version 5: the SHA-1 hash of a namespace and a name.
    NameSha1,
}

impl Version {
    /// The number that stands in the version field.
    pub open spec fn number_spec(self) -> int {
        match self {
            Version::TimeBased => 1,
            Version::NameMd5 => 3,
            Version::Random => 4,
            Version::NameSha1 => 5,
        }
    }

    /// The number that stands in the version field.
    pub fn number(self) -> (n: u8)
        ensures
            n == self.number_spec(),
    {
        match self {
            Version::TimeBased => 1,
            Version::NameMd5 => 3,
            Version::Random => 4,
            Version::NameSha1 => 5,
        }
    }
}

/// A universally unique identifier: 16 bytes in the order of RFC 4122
/// (time-low, time-mid, time-high-and-version, clock-seq-and-variant,
/// clock-seq-low, node).
#[derive(Clone, Copy, Debug, PartialEq, Eq, Hash)]
pub struct UuidValue {
    pub bytes: [u8; 16],
}

impl View for UuidValue {
    type V = Seq<u8>;

    open spec fn view(&self) -> Seq<u8> {
        self.bytes@
    }
}

/// The position of the canonical form at which digit number `k` stands.
fn position_of_digit(k: usize) -> (p: usize)
    requires
        k < 32,
    ensures
        p == digit_position(k as int),
        p < 36,
        !is_hyphen_position(p as int),
        digit_index(p as int) == k,
{
    if k < 8 {
        k
    } else if k < 12 {
        k + 1
    } else if k < 16 {
        k + 2
    } else if k < 20 {
        k + 3
    } else {
        k + 4
    }
}

/// Half-byte number `k` of the 16 bytes.
fn nibble_at(bytes: &[u8; 16], k: usize) -> (n: u8)
    requires
        k < 32,
    ensures
        n == nibble(bytes@, k as int),
        n < 16,
{
    let b: u8 = bytes[k / 2];
    if k % 2 == 0 {
        b / 16
    } else {
        b % 16
    }
}

impl UuidValue {
    /// The version number that the identifier carries, from 0 to 15.
    pub open spec fn version_spec(&self) -> int {
        version_of(self@)
    }

    /// What holds of every identifier that this library generates: the
    /// variant is that of RFC 4122, and the version is 1, 3, 4 or 5.
    pub open spec fn is_well_formed(&self) -> bool {
        &&& has_rfc4122_variant(self@)
        &&& (self.version_spec() == 1 || self.version_spec() == 3 || self.version_spec() == 4
            || self.version_spec() == 5)
    }

    /// The identifier that consists of the given bytes, whatever they are.
    pub fn from_bytes(bytes: [u8; 16]) -> (value: UuidValue)
        ensures
            value.bytes == bytes,
    {
        UuidValue { bytes }
    }

    /// The identifier of the given version whose other bits are those of
    /// `bytes`: the version field is overwritten with the version's number and
    /// the variant field with `10`.
    pub fn with_version(bytes: [u8; 16], version: Version) -> (value: UuidValue)
        ensures
            value@ == stamped(bytes@, version.number_spec()),
            value.version_spec() == version.number_spec(),
            value.is_well_formed(),
    {
        let mut out: [u8; 16] = bytes;
        out[6] = version.number() * 16 + bytes[6] % 16;
        out[8] = 128 + bytes[8] % 64;
        assert(out@ =~= stamped(bytes@, version.number_spec()));
        UuidValue { bytes: out }
    }

    /// Reads the canonical form: 36 characters, hyphens at positions 8, 13, 18
    /// and 23, hexadecimal digits of either case everywhere else. Every other
    /// text is refused, with the reason and the text itself.
    pub fn parse(text: &str) -> (result: Result<UuidValue, ParseError>)
        ensures
            match result {
                Ok(value) => parse_outcome(text@) == Ok::<Seq<u8>, ParseReason>(value@),
                Err(e) => parse_outcome(text@) == Err::<Seq<u8>, ParseReason>(e.reason)
                    && e.offending_input@ == text@,
            },
    {
        let len: usize = text.unicode_len();
        if len != 36 {
            return Err(
                ParseError {
                    reason: ParseReason::WrongLength { found: len },
                    offending_input: text.to_owned(),
                },
            );
        }
        let mut i: usize = 0;
        while i < 36
            invariant
                i <= 36,
                text@.len() == 36,
                first_mismatch(text@, 0) == first_mismatch(text@, i as int),
            decreases 36 - i,
        {
            let c: char = text.get_char(i);
            if i == 8 || i == 13 || i == 18 || i == 23 {
                if c != '-' {
                    return Err(
                        ParseError {
                            reason: ParseReason::MissingHyphen { position: i },
                            offending_input: text.to_owned(),
                        },
                    );
                }
            } else if hex_char_value(c).is_none() {
                return Err(
                    ParseError {
                        reason: ParseReason::InvalidCharacter { position: i },
                        offending_input: text.to_owned(),
                    },
                );
            }
            i += 1;
        }
        proof {
            lemma_first_mismatch(text@, 0);
        }
        let mut bytes: [u8; 16] = [0u8; 16];
        let mut j: usize = 0;
        while j < 16
            invariant
                j <= 16,
                text@.len() == 36,
                forall|p: int| 0 <= p < 36 ==> position_ok(text@, p),
                forall|k: int| 0 <= k < j ==> bytes@[k] == decoded_byte(text@, k),
            decreases 16 - j,
        {
            let high_at: usize = position_of_digit(2 * j);
            let low_at: usize = position_of_digit(2 * j + 1);
            assert(position_ok(text@, high_at as int));
            assert(position_ok(text@, low_at as int));
            let high: u8 = hex_char_value(text.get_char(high_at)).unwrap();
            let low: u8 = hex_char_value(text.get_char(low_at)).unwrap();
            bytes[j] = high * 16 + low;
            j += 1;
        }
        assert(bytes@ =~= decoded_bytes(text@));
        Ok(UuidValue { bytes })
    }

    /// The canonical form: 36 characters, lowercase, hyphenated.
    pub fn to_canonical_string(&self) -> (text: String)
        ensures
            text@ == canonical_text(self@),
    {
        let mut text: String = String::new();
        let mut i: usize = 0;
        while i < 36
            invariant
                i <= 36,
                text@.len() == i,
                forall|p: int| 0 <= p < i ==> text@[p] == canonical_char(self@, p),
            decreases 36 - i,
        {
            if i == 8 || i == 13 || i == 18 || i == 23 {
                proof {
                    reveal_strlit("-");
                }
                text.append("-");
            } else {
                let k: usize = if i < 8 {
                    i
                } else if i < 13 {
                    i - 1
                } else if i < 18 {
                    i - 2
                } else if i < 23 {
                    i - 3
                } else {
                    i - 4
                };
                text.append(hex_digit_str(nibble_at(&self.bytes, k)));
            }
            i += 1;
        }
        assert(text@ =~= canonical_text(self@));
        text
    }

    /// The simple form: 32 lowercase hexadecimal digits and no hyphen.
    pub fn to_simple_hex(&self) -> (text: String)
        ensures
            text@ == simple_text(self@),
    {
        let mut text: String = String::new();
        let mut k: usize = 0;
        while k < 32
            invariant
                k <= 32,
                text@.len() == k,
                forall|p: int| 0 <= p < k ==> text@[p] == simple_text(self@)[p],
            decreases 32 - k,
        {
            text.append(hex_digit_str(nibble_at(&self.bytes, k)));
            k += 1;
        }
        assert(text@ =~= simple_text(self@));
        text
    }

    /// The 16 bytes as they are stored.
    pub fn raw_bytes(&self) -> (bytes: Vec<u8>)
        ensures
            bytes@ == self@,
    {
        let mut bytes: Vec<u8> = Vec::new();
        let mut j: usize = 0;
        while j < 16
            invariant
                j <= 16,
                bytes@.len() == j,
                forall|k: int| 0 <= k < j ==> bytes@[k] == self@[k],
            decreases 16 - j,
        {
            bytes.push(self.bytes[j]);
            j += 1;
        }
        assert(bytes@ =~= self@);
        bytes
    }

    /// The version number: the high half of byte 6, whatever it holds.
    pub fn version_number(&self) -> (n: usize)
        ensures
            n == self.version_spec(),
            n < 16,
    {
        (self.bytes[6] / 16) as usize
    }
}

} // verus!
