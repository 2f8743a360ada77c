//! The fields of a version 1 identifier: a timestamp of 60 bits, a clock
//! sequence of 14 bits and a node of 6 bytes. With the version and the
//! variant they fill the 16 bytes.

use vstd::prelude::*;
use vstd::arithmetic::div_mod::lemma_div_denominator;
use crate::value::{has_rfc4122_variant, version_of};

verus! {

/// The 60-bit timestamp field: time-low in bytes 0 to 3, time-mid in bytes 4
/// and 5, time-high in the low half of byte 6 and in byte 7, each with its
/// most significant byte first.
pub open spec fn timestamp_of(bytes: Seq<u8>) -> int {
    bytes[3] as int + bytes[2] as int * 0x100 + bytes[1] as int * 0x1_0000 + bytes[0] as int
        * 0x100_0000 + bytes[5] as int * 0x1_0000_0000 + bytes[4] as int * 0x100_0000_0000
        + bytes[7] as int * 0x1_0000_0000_0000 + (bytes[6] as int % 16) * 0x100_0000_0000_0000
}

/// The 14-bit clock sequence: the six low bits of byte 8, then byte 9.
pub open spec fn clock_sequence_of(bytes: Seq<u8>) -> int {
    (bytes[8] as int % 64) * 0x100 + bytes[9] as int
}

/// The node field: bytes 10 to 15.
pub open spec fn node_of(bytes: Seq<u8>) -> Seq<u8> {
    bytes.subrange(10, 16)
}

/// The 16 bytes of the version 1 identifier with the given timestamp, of
/// which the 60 low bits count, the given clock sequence, of which the 14 low
/// bits count, and the given node of 6 bytes.
pub open spec fn v1_bytes(timestamp: int, clock_seq: int, node: Seq<u8>) -> Seq<u8> {
    seq![
        (timestamp / 0x100_0000 % 0x100) as u8,
        (timestamp / 0x1_0000 % 0x100) as u8,
        (timestamp / 0x100 % 0x100) as u8,
        (timestamp % 0x100) as u8,
        (timestamp / 0x100_0000_0000 % 0x100) as u8,
        (timestamp / 0x1_0000_0000 % 0x100) as u8,
        (0x10 + timestamp / 0x100_0000_0000_0000 % 0x10) as u8,
        (timestamp / 0x1_0000_0000_0000 % 0x100) as u8,
        (0x80 + clock_seq / 0x100 % 0x40) as u8,
        (clock_seq % 0x100) as u8,
        node[0],
        node[1],
        node[2],
        node[3],
        node[4],
        node[5],
    ]
}

/// One step of reading a number byte by byte: where `x / d` is `low + 256 *
/// high`, the byte of `x` at `d` is `low`, and `high` is what is left above.
proof fn lemma_peel(x: int, d: int, rest: int, low: int, high: int)
    requires
        0 <= x,
        0 < d,
        x / d == rest,
        rest == low + 0x100 * high,
        0 <= low < 0x100,
    ensures
        x / d % 0x100 == low,
        x / (d * 0x100) == high,
{
    lemma_div_denominator(x, d, 0x100);
}

/// The bytes of the timestamp field are the base-256 digits of the
/// timestamp.
pub proof fn lemma_timestamp_digits(bytes: Seq<u8>)
    requires
        bytes.len() == 16,
    ensures
        0 <= timestamp_of(bytes) < 0x1000_0000_0000_0000,
        timestamp_of(bytes) % 0x100 == bytes[3],
        timestamp_of(bytes) / 0x100 % 0x100 == bytes[2],
        timestamp_of(bytes) / 0x1_0000 % 0x100 == bytes[1],
        timestamp_of(bytes) / 0x100_0000 % 0x100 == bytes[0],
        timestamp_of(bytes) / 0x1_0000_0000 % 0x100 == bytes[5],
        timestamp_of(bytes) / 0x100_0000_0000 % 0x100 == bytes[4],
        timestamp_of(bytes) / 0x1_0000_0000_0000 % 0x100 == bytes[7],
        timestamp_of(bytes) / 0x100_0000_0000_0000 == bytes[6] as int % 16,
{
    let t = timestamp_of(bytes);
    let b3 = bytes[3] as int;
    let b2 = bytes[2] as int;
    let b1 = bytes[1] as int;
    let b0 = bytes[0] as int;
    let b5 = bytes[5] as int;
    let b4 = bytes[4] as int;
    let b7 = bytes[7] as int;
    let r7 = bytes[6] as int % 16;
    let r6 = b7 + 0x100 * r7;
    let r5 = b4 + 0x100 * r6;
    let r4 = b5 + 0x100 * r5;
    let r3 = b0 + 0x100 * r4;
    let r2 = b1 + 0x100 * r3;
    let r1 = b2 + 0x100 * r2;
    let r0 = b3 + 0x100 * r1;
    assert(t / 1 == r0);
    lemma_peel(t, 1, r0, b3, r1);
    lemma_peel(t, 0x100, r1, b2, r2);
    lemma_peel(t, 0x1_0000, r2, b1, r3);
    lemma_peel(t, 0x100_0000, r3, b0, r4);
    lemma_peel(t, 0x1_0000_0000, r4, b5, r5);
    lemma_peel(t, 0x100_0000_0000, r5, b4, r6);
    lemma_peel(t, 0x1_0000_0000_0000, r6, b7, r7);
}

/// A number is the sum of its base-256 digits, each times its weight.
proof fn lemma_digits_sum(t: int)
    requires
        0 <= t,
    ensures
        t == t % 0x100 + (t / 0x100 % 0x100) * 0x100 + (t / 0x1_0000 % 0x100) * 0x1_0000 + (t
            / 0x100_0000 % 0x100) * 0x100_0000 + (t / 0x1_0000_0000 % 0x100) * 0x1_0000_0000 + (t
            / 0x100_0000_0000 % 0x100) * 0x100_0000_0000 + (t / 0x1_0000_0000_0000 % 0x100)
            * 0x1_0000_0000_0000 + (t / 0x100_0000_0000_0000) * 0x100_0000_0000_0000,
{
    lemma_div_denominator(t, 0x100, 0x100);
    lemma_div_denominator(t, 0x1_0000, 0x100);
    lemma_div_denominator(t, 0x100_0000, 0x100);
    lemma_div_denominator(t, 0x1_0000_0000, 0x100);
    lemma_div_denominator(t, 0x100_0000_0000, 0x100);
    lemma_div_denominator(t, 0x1_0000_0000_0000, 0x100);
    let q1 = t / 0x100;
    let q2 = t / 0x1_0000;
    let q3 = t / 0x100_0000;
    let q4 = t / 0x1_0000_0000;
    let q5 = t / 0x100_0000_0000;
    let q6 = t / 0x1_0000_0000_0000;
    let q7 = t / 0x100_0000_0000_0000;
    assert(t == t % 0x100 + 0x100 * q1);
    assert(q1 == q1 % 0x100 + 0x100 * q2);
    assert(q2 == q2 % 0x100 + 0x100 * q3);
    assert(q3 == q3 % 0x100 + 0x100 * q4);
    assert(q4 == q4 % 0x100 + 0x100 * q5);
    assert(q5 == q5 % 0x100 + 0x100 * q6);
    assert(q6 == q6 % 0x100 + 0x100 * q7);
}

/// The three fields of the bytes that `v1_bytes` lays out are the ones they
/// were laid out from, and the version is 1 with the variant of RFC 4122.
pub proof fn lemma_fields_of_v1_bytes(timestamp: int, clock_seq: int, node: Seq<u8>)
    requires
        0 <= timestamp < 0x1000_0000_0000_0000,
        0 <= clock_seq < 0x4000,
        node.len() == 6,
    ensures
        v1_bytes(timestamp, clock_seq, node).len() == 16,
        version_of(v1_bytes(timestamp, clock_seq, node)) == 1,
        has_rfc4122_variant(v1_bytes(timestamp, clock_seq, node)),
        timestamp_of(v1_bytes(timestamp, clock_seq, node)) == timestamp,
        clock_sequence_of(v1_bytes(timestamp, clock_seq, node)) == clock_seq,
        node_of(v1_bytes(timestamp, clock_seq, node)) == node,
{
    let bytes = v1_bytes(timestamp, clock_seq, node);
    lemma_digits_sum(timestamp);
    assert(timestamp / 0x100_0000_0000_0000 < 0x10);
    assert(bytes[6] as int % 16 == timestamp / 0x100_0000_0000_0000);
    assert(timestamp_of(bytes) == timestamp);
    assert(clock_seq / 0x100 < 0x40);
    assert(node_of(bytes) =~= node);
}

/// A version 1 identifier with the variant of RFC 4122 is fixed by its three
/// fields.
pub proof fn lemma_fields_fix_bytes(bytes: Seq<u8>)
    requires
        bytes.len() == 16,
        version_of(bytes) == 1,
        has_rfc4122_variant(bytes),
    ensures
        bytes == v1_bytes(timestamp_of(bytes), clock_sequence_of(bytes), node_of(bytes)),
{
    lemma_timestamp_digits(bytes);
    let c = clock_sequence_of(bytes);
    assert(c % 0x100 == bytes[9]);
    assert(c / 0x100 == bytes[8] as int % 64);
    assert(bytes =~= v1_bytes(timestamp_of(bytes), clock_sequence_of(bytes), node_of(bytes)));
}

} // verus!
