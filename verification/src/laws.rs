//! What holds of the library as a whole, proved from the definitions that
//! the contracts of its functions are stated in.

use vstd::prelude::*;
use crate::clock::{gregorian_ticks, UnixTime};
use crate::error::ParseReason;
use crate::generate::{v3_outcome, v5_outcome};
use crate::hex::{hex_digit, hex_value};
use crate::layout::{
    clock_sequence_of, lemma_fields_of_v1_bytes, node_of, timestamp_of, v1_bytes,
};
use crate::namespace::{
    resolve_outcome, well_known_bytes, well_known_namespace, NAMESPACE_DNS, NAMESPACE_OID,
    NAMESPACE_URL, NAMESPACE_X500,
};
use crate::text::{
    canonical_text, decoded_byte, decoded_bytes, digit_index, digit_position, is_canonical_form,
    is_hyphen_position, lemma_first_mismatch, lemma_parse_accepts_canonical_form,
    lemma_parse_canonical_text, parse_outcome, position_ok, simple_text,
};
use crate::value::{has_rfc4122_variant, stamped, version_of, UuidValue};

verus! {

/// Writing an identifier in canonical form and reading the text again gives
/// the identifier back, byte for byte.
pub proof fn law_round_trip(value: UuidValue)
    ensures
        parse_outcome(canonical_text(value@)) == Ok::<Seq<u8>, ParseReason>(value@),
{
    lemma_parse_canonical_text(value@);
}

/// Two identifiers have the same canonical form only if they are the same.
pub proof fn law_canonical_form_is_unique(a: UuidValue, b: UuidValue)
    requires
        canonical_text(a@) == canonical_text(b@),
    ensures
        a == b,
{
    lemma_parse_canonical_text(a@);
    lemma_parse_canonical_text(b@);
    assert(a.bytes =~= b.bytes);
}

/// The canonical form has 36 characters: a hyphen at each of the positions 8,
/// 13, 18 and 23, and a digit or a lowercase letter from `a` to `f` at every
/// other.
pub proof fn law_canonical_form_shape(value: UuidValue)
    ensures
        canonical_text(value@).len() == 36,
        forall|i: int|
            0 <= i < 36 ==> {
                let c = #[trigger] canonical_text(value@)[i];
                if is_hyphen_position(i) {
                    c == '-'
                } else {
                    ('0' <= c && c <= '9') || ('a' <= c && c <= 'f')
                }
            },
{
}

/// The simple form is the canonical form without its hyphens: 32 characters,
/// digit for digit the same.
pub proof fn law_simple_form_drops_hyphens(value: UuidValue)
    ensures
        simple_text(value@).len() == 32,
        forall|k: int|
            0 <= k < 32 ==> #[trigger] simple_text(value@)[k] == canonical_text(
                value@,
            )[digit_position(k)],
{
    assert forall|k: int| 0 <= k < 32 implies #[trigger] simple_text(value@)[k] == canonical_text(
        value@,
    )[digit_position(k)] by {
        assert(digit_index(digit_position(k)) == k);
        assert(!is_hyphen_position(digit_position(k)));
    }
}

/// Reading a text of canonical shape that holds no capital letter and
/// writing the result gives the text back.
pub proof fn law_writing_inverts_reading(text: Seq<char>)
    requires
        is_canonical_form(text),
        forall|i: int| 0 <= i < 36 ==> !('A' <= #[trigger] text[i] && text[i] <= 'F'),
    ensures
        parse_outcome(text) == Ok::<Seq<u8>, ParseReason>(decoded_bytes(text)),
        canonical_text(decoded_bytes(text)) == text,
{
    lemma_parse_accepts_canonical_form(text);
    let bytes = decoded_bytes(text);
    assert forall|i: int| 0 <= i < 36 implies canonical_text(bytes)[i] == text[i] by {
        assert(position_ok(text, i));
        if !is_hyphen_position(i) {
            let k = digit_index(i);
            let j = k / 2;
            assert(position_ok(text, digit_position(2 * j)));
            assert(position_ok(text, digit_position(2 * j + 1)));
            assert(digit_position(k) == i);
            assert(bytes[j] == decoded_byte(text, j));
            assert(hex_digit(hex_value(text[i]).unwrap()) == text[i]);
        }
    }
    assert(canonical_text(bytes) =~= text);
}

/// Reading succeeds on the texts of canonical shape and on no others: a text
/// of another length, one without a hyphen where a hyphen belongs, and one
/// with anything but a hexadecimal digit where a digit belongs are refused.
pub proof fn law_reading_refuses_malformed_text(text: Seq<char>)
    ensures
        parse_outcome(text) is Ok <==> is_canonical_form(text),
        text.len() != 36 ==> parse_outcome(text) == Err::<Seq<u8>, ParseReason>(
            ParseReason::WrongLength { found: text.len() as usize },
        ),
        forall|i: int|
            0 <= i < 36 && is_hyphen_position(i) && #[trigger] text[i] != '-' ==> parse_outcome(
                text,
            ) is Err,
        forall|i: int|
            0 <= i < 36 && !is_hyphen_position(i) && hex_value(#[trigger] text[i]) is None
                ==> parse_outcome(text) is Err,
{
    lemma_parse_accepts_canonical_form(text);
    assert forall|i: int|
        0 <= i < 36 && is_hyphen_position(i) && #[trigger] text[i] != '-' implies parse_outcome(
        text,
    ) is Err by {
        assert(!position_ok(text, i));
    }
    assert forall|i: int|
        0 <= i < 36 && !is_hyphen_position(i) && hex_value(
            #[trigger] text[i],
        ) is None implies parse_outcome(text) is Err by {
        assert(!position_ok(text, i));
    }
}

/// The reason that reading gives names the first offending position, and
/// says what belongs there.
pub proof fn law_reason_names_first_offence(text: Seq<char>)
    requires
        text.len() == 36,
        !is_canonical_form(text),
    ensures
        match parse_outcome(text) {
            Ok(_) => false,
            Err(ParseReason::WrongLength { .. }) => false,
            Err(ParseReason::MissingHyphen { position }) => {
                &&& position < 36
                &&& is_hyphen_position(position as int)
                &&& text[position as int] != '-'
                &&& forall|i: int| 0 <= i < position ==> position_ok(text, i)
            },
            Err(ParseReason::InvalidCharacter { position }) => {
                &&& position < 36
                &&& !is_hyphen_position(position as int)
                &&& hex_value(text[position as int]) is None
                &&& forall|i: int| 0 <= i < position ==> position_ok(text, i)
            },
        },
{
    lemma_first_mismatch(text, 0);
}

/// Overwriting the version and variant fields gives the version asked for
/// and the variant of RFC 4122, and keeps the timestamp's 60 bits, the clock
/// sequence's 14 bits and the node.
pub proof fn law_stamped_fields(bytes: Seq<u8>, version: int)
    requires
        bytes.len() == 16,
        0 <= version < 16,
    ensures
        stamped(bytes, version).len() == 16,
        version_of(stamped(bytes, version)) == version,
        has_rfc4122_variant(stamped(bytes, version)),
        timestamp_of(stamped(bytes, version)) == timestamp_of(bytes),
        clock_sequence_of(stamped(bytes, version)) == clock_sequence_of(bytes),
        node_of(stamped(bytes, version)) == node_of(bytes),
        forall|i: int| 0 <= i < 16 && i != 6 && i != 8 ==> stamped(bytes, version)[i] == bytes[i],
{
    assert(node_of(stamped(bytes, version)) =~= node_of(bytes));
}

/// Of the version 1 identifier of a point in time: the version is 1, the
/// variant that of RFC 4122, the timestamp field holds the 60 low bits of the
/// time in ticks since 1582-10-15, the clock sequence field the 14 low bits of
/// the clock sequence, and the node field the node.
pub proof fn law_v1_fields(time: UnixTime, clock_seq: u16, node: Seq<u8>)
    requires
        node.len() == 6,
    ensures
        ({
            let bytes = v1_bytes(
                gregorian_ticks(time) % 0x1000_0000_0000_0000,
                clock_seq as int % 0x4000,
                node,
            );
            &&& version_of(bytes) == 1
            &&& has_rfc4122_variant(bytes)
            &&& timestamp_of(bytes) == gregorian_ticks(time) % 0x1000_0000_0000_0000
            &&& clock_sequence_of(bytes) == clock_seq as int % 0x4000
            &&& node_of(bytes) == node
        }),
{
    lemma_fields_of_v1_bytes(
        gregorian_ticks(time) % 0x1000_0000_0000_0000,
        clock_seq as int % 0x4000,
        node,
    );
}

/// Each well-known name resolves to the identifier that its exported
/// canonical form reads as.
pub proof fn law_well_known_names()
    ensures
        resolve_outcome("NAMESPACE_DNS"@) == Ok::<Seq<u8>, ParseReason>(well_known_bytes(0x10)),
        resolve_outcome("NAMESPACE_URL"@) == Ok::<Seq<u8>, ParseReason>(well_known_bytes(0x11)),
        resolve_outcome("NAMESPACE_OID"@) == Ok::<Seq<u8>, ParseReason>(well_known_bytes(0x12)),
        resolve_outcome("NAMESPACE_X500"@) == Ok::<Seq<u8>, ParseReason>(well_known_bytes(0x14)),
        parse_outcome(NAMESPACE_DNS@) == resolve_outcome("NAMESPACE_DNS"@),
        parse_outcome(NAMESPACE_URL@) == resolve_outcome("NAMESPACE_URL"@),
        parse_outcome(NAMESPACE_OID@) == resolve_outcome("NAMESPACE_OID"@),
        parse_outcome(NAMESPACE_X500@) == resolve_outcome("NAMESPACE_X500"@),
{
    reveal_strlit("NAMESPACE_DNS");
    reveal_strlit("NAMESPACE_URL");
    reveal_strlit("NAMESPACE_OID");
    reveal_strlit("NAMESPACE_X500");
    reveal_strlit("6ba7b810-9dad-11d1-80b4-00c04fd430c8");
    reveal_strlit("6ba7b811-9dad-11d1-80b4-00c04fd430c8");
    reveal_strlit("6ba7b812-9dad-11d1-80b4-00c04fd430c8");
    reveal_strlit("6ba7b814-9dad-11d1-80b4-00c04fd430c8");
    assert("NAMESPACE_DNS"@[10] == 'D');
    assert("NAMESPACE_URL"@[10] == 'U');
    assert("NAMESPACE_OID"@[10] == 'O');
    assert("NAMESPACE_X500"@.len() == 14);
    assert(canonical_text(well_known_bytes(0x10)) =~= NAMESPACE_DNS@);
    assert(canonical_text(well_known_bytes(0x11)) =~= NAMESPACE_URL@);
    assert(canonical_text(well_known_bytes(0x12)) =~= NAMESPACE_OID@);
    assert(canonical_text(well_known_bytes(0x14)) =~= NAMESPACE_X500@);
    lemma_parse_canonical_text(well_known_bytes(0x10));
    lemma_parse_canonical_text(well_known_bytes(0x11));
    lemma_parse_canonical_text(well_known_bytes(0x12));
    lemma_parse_canonical_text(well_known_bytes(0x14));
}

/// A namespace argument is refused exactly where it is neither a well-known
/// name nor a text of canonical shape.
pub proof fn law_namespace_refused(token: Seq<char>)
    ensures
        resolve_outcome(token) is Err <==> well_known_namespace(token) is None
            && !is_canonical_form(token),
{
    lemma_parse_accepts_canonical_form(token);
}

/// Where the namespace resolves, the version 3 and the version 5 identifier
/// of one name in it differ.
pub proof fn law_name_based_versions_differ(namespace: Seq<char>, name: Seq<char>)
    requires
        resolve_outcome(namespace) is Ok,
    ensures
        v3_outcome(namespace, name) is Ok,
        v5_outcome(namespace, name) is Ok,
        v3_outcome(namespace, name) != v5_outcome(namespace, name),
{
    let third = v3_outcome(namespace, name)->Ok_0;
    let fifth = v5_outcome(namespace, name)->Ok_0;
    assert(version_of(third) == 3);
    assert(version_of(fifth) == 5);
}

/// Two identifiers that version 3 gives for the same arguments are the same.
pub proof fn law_v3_is_deterministic(
    namespace: Seq<char>,
    name: Seq<char>,
    first: UuidValue,
    second: UuidValue,
)
    requires
        v3_outcome(namespace, name) == Ok::<Seq<u8>, ParseReason>(first@),
        v3_outcome(namespace, name) == Ok::<Seq<u8>, ParseReason>(second@),
    ensures
        first == second,
{
    assert(first.bytes =~= second.bytes);
}

/// Two identifiers that version 5 gives for the same arguments are the same.
pub proof fn law_v5_is_deterministic(
    namespace: Seq<char>,
    name: Seq<char>,
    first: UuidValue,
    second: UuidValue,
)
    requires
        v5_outcome(namespace, name) == Ok::<Seq<u8>, ParseReason>(first@),
        v5_outcome(namespace, name) == Ok::<Seq<u8>, ParseReason>(second@),
    ensures
        first == second,
{
    assert(first.bytes =~= second.bytes);
}

} // verus!
