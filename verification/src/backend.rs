//! What the library takes on trust: the calls into the `uuid` crate, which
//! hashes, draws random bits and lays out timestamps, and the reading of the
//! system clock. Verus believes the contracts in this file without proof.

use vstd::prelude::*;
use core::time::Duration;
use crate::clock::{gregorian_ticks, UnixTime};
use crate::layout::{clock_sequence_of, node_of, timestamp_of};

verus! {

/// The 16 bytes of `uuid::Uuid::new_v3` for a namespace of 16 bytes and a
/// name: those of the MD5 hash of the namespace followed by the name, with the
/// version and variant fields set.
pub uninterp spec fn md5_name_bytes(namespace: Seq<u8>, name: Seq<u8>) -> Seq<u8>;

/// The 16 bytes of `uuid::Uuid::new_v5` for a namespace of 16 bytes and a
/// name: the first 16 of the SHA-1 hash of the namespace followed by the
/// name, with the version and variant fields set.
pub uninterp spec fn sha1_name_bytes(namespace: Seq<u8>, name: Seq<u8>) -> Seq<u8>;

/// Calls `uuid::Uuid::new_v3`. The claim: the result depends on the bytes of
/// the namespace and of the name alone.
#[verifier::external_body]
pub(crate) fn hash_name_md5(namespace: &[u8; 16], name: &[u8]) -> (out: [u8; 16])
    ensures
        out@ == md5_name_bytes(namespace@, name@),
{
    uuid::Uuid::new_v3(&uuid::Uuid::from_bytes(*namespace), name).into_bytes()
}

/// Calls `uuid::Uuid::new_v5`. The claim: the result depends on the bytes of
/// the namespace and of the name alone.
#[verifier::external_body]
pub(crate) fn hash_name_sha1(namespace: &[u8; 16], name: &[u8]) -> (out: [u8; 16])
    ensures
        out@ == sha1_name_bytes(namespace@, name@),
{
    uuid::Uuid::new_v5(&uuid::Uuid::from_bytes(*namespace), name).into_bytes()
}

/// Calls `uuid::Uuid::new_v4`, which draws 128 bits from the operating
/// system's random source. Nothing is claimed of the result: the caller sets
/// the version and variant fields itself.
#[verifier::external_body]
pub(crate) fn random_bytes() -> (out: [u8; 16]) {
    uuid::Uuid::new_v4().into_bytes()
}

/// Calls `uuid::Uuid::new_v1` on the timestamp that `uuid::Timestamp::from_unix`
/// makes of the time and of a `uuid::ContextV1` that starts at `clock_seq`.
/// The claim: the timestamp field holds the low 60 bits of the time in ticks,
/// the clock sequence field the low 14 bits of `clock_seq`, and the node field
/// the node.
#[verifier::external_body]
pub(crate) fn time_based_bytes(time: &UnixTime, clock_seq: u16, node: &[u8; 6]) -> (out: [u8; 16])
    ensures
        timestamp_of(out@) == gregorian_ticks(*time) % 0x1000_0000_0000_0000,
        clock_sequence_of(out@) == clock_seq as int % 0x4000,
        node_of(out@) == node@,
{
    let context = uuid::ContextV1::new(clock_seq);
    let timestamp = uuid::Timestamp::from_unix(&context, time.secs, time.nanos);
    uuid::Uuid::new_v1(timestamp, node).into_bytes()
}

/// Calls `uuid::ContextV1::new_random` and takes the first value of its
/// counter, which starts at a random number. Nothing is claimed of the
/// result: the caller keeps its 14 low bits.
#[verifier::external_body]
pub(crate) fn random_clock_sequence() -> (clock_seq: u16) {
    uuid::ClockSequence::generate_sequence(&uuid::ContextV1::new_random(), 0, 0)
}

/// Calls `std::time::SystemTime::elapsed` on the Unix epoch: the time that
/// the system clock shows, and `None` where it stands before the epoch.
#[verifier::external_body]
pub(crate) fn elapsed_since_unix_epoch() -> (elapsed: Option<Duration>) {
    match std::time::UNIX_EPOCH.elapsed() {
        Ok(elapsed) => Some(elapsed),
        Err(_) => None,
    }
}

/// `Duration::as_secs`: the whole seconds of a duration.
pub assume_specification[ Duration::as_secs ](duration: &Duration) -> (secs: u64);

/// `Duration::subsec_nanos`: the part of a duration below one second, in
/// nanoseconds, which is less than one billion.
pub assume_specification[ Duration::subsec_nanos ](duration: &Duration) -> (nanos: u32)
    ensures
        nanos < 1_000_000_000,
;

} // verus!
