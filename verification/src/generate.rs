//! The generators, one for each version, and beside each the function that
//! gives the identifier in its canonical form.

use vstd::prelude::*;
use vstd::utf8::encode_utf8;
use crate::backend::{
    hash_name_md5, hash_name_sha1, md5_name_bytes, random_bytes, random_clock_sequence,
    sha1_name_bytes, time_based_bytes,
};
use crate::clock::{gregorian_ticks, read_clock, UnixTime};
use crate::error::{ClockError, NamespaceError, ParseError, ParseReason};
use crate::namespace::{resolve_namespace, resolve_outcome};
use crate::node::{is_marked, NodeId};
use crate::text::{canonical_text, lemma_parse_canonical_text, parse_outcome};
use crate::layout::{lemma_fields_fix_bytes, node_of, v1_bytes};
use crate::value::{has_rfc4122_variant, stamped, version_of, UuidValue, Version};

verus! {

/// The bytes of the version 3 identifier of a name in a namespace: the hash
/// that MD5 gives, with the version and variant fields overwritten.
pub open spec fn v3_bytes(namespace: Seq<u8>, name: Seq<u8>) -> Seq<u8> {
    stamped(md5_name_bytes(namespace, name), 3)
}

/// The bytes of the version 5 identifier of a name in a namespace: the hash
/// that SHA-1 gives, with the version and variant fields overwritten.
pub open spec fn v5_bytes(namespace: Seq<u8>, name: Seq<u8>) -> Seq<u8> {
    stamped(sha1_name_bytes(namespace, name), 5)
}

/// What version 3 gives for a namespace argument and a name: the identifier
/// of the name's UTF-8 bytes in the namespace that the argument resolves to,
/// or the reason why the argument resolves to none.
pub open spec fn v3_outcome(namespace: Seq<char>, name: Seq<char>) -> Result<Seq<u8>, ParseReason> {
    match resolve_outcome(namespace) {
        Ok(resolved) => Ok(v3_bytes(resolved, encode_utf8(name))),
        Err(reason) => Err(reason),
    }
}

/// What version 5 gives for a namespace argument and a name.
pub open spec fn v5_outcome(namespace: Seq<char>, name: Seq<char>) -> Result<Seq<u8>, ParseReason> {
    match resolve_outcome(namespace) {
        Ok(resolved) => Ok(v5_bytes(resolved, encode_utf8(name))),
        Err(reason) => Err(reason),
    }
}

/// Whether `text` is the canonical form of an identifier of the given
/// version with the variant of RFC 4122.
pub open spec fn is_text_of_version(text: Seq<char>, version: int) -> bool {
    parse_outcome(text) matches Ok(bytes) && text == canonical_text(bytes) && version_of(bytes)
        == version && has_rfc4122_variant(bytes)
}

/// The version 1 identifier of a point in time, a clock sequence and a node.
/// The timestamp field holds the time in ticks as far as its 60 bits go, the
/// clock sequence field the 14 low bits of `clock_seq`.
pub fn generate_v1_at(time: &UnixTime, clock_seq: u16, node: &NodeId) -> (value: UuidValue)
    ensures
        value@ == v1_bytes(
            gregorian_ticks(*time) % 0x1000_0000_0000_0000,
            clock_seq as int % 0x4000,
            node@,
        ),
        value.version_spec() == 1,
        value.is_well_formed(),
        node_of(value@) == node@,
        is_marked(node_of(value@)),
{
    let octets: [u8; 6] = node.octets();
    let laid_out: [u8; 16] = time_based_bytes(time, clock_seq, &octets);
    let value = UuidValue::with_version(laid_out, Version::TimeBased);
    proof {
        assert(node_of(value@) =~= node_of(laid_out@));
        lemma_fields_fix_bytes(value@);
    }
    value
}

/// What version 1 gives for a reading of the clock, a clock sequence and a
/// node: the identifier of the time that was read, or the failure of the
/// clock.
pub open spec fn v1_outcome(
    reading: Result<UnixTime, ClockError>,
    clock_seq: u16,
    node: Seq<u8>,
) -> Result<Seq<u8>, ClockError> {
    match reading {
        Ok(time) => Ok(
            v1_bytes(gregorian_ticks(time) % 0x1000_0000_0000_0000, clock_seq as int % 0x4000, node),
        ),
        Err(e) => Err(e),
    }
}

/// The version 1 identifier of a reading of the clock, a clock sequence and a
/// node. A reading that failed gives its failure and no identifier.
pub fn generate_v1_from(
    reading: Result<UnixTime, ClockError>,
    clock_seq: u16,
    node: &NodeId,
) -> (result: Result<UuidValue, ClockError>)
    ensures
        match result {
            Ok(value) => v1_outcome(reading, clock_seq, node@) == Ok::<Seq<u8>, ClockError>(value@)
                && value.version_spec() == 1 && value.is_well_formed() && node_of(value@) == node@
                && is_marked(node_of(value@)),
            Err(e) => v1_outcome(reading, clock_seq, node@) == Err::<Seq<u8>, ClockError>(e),
        },
{
    match reading {
        Ok(time) => Ok(generate_v1_at(&time, clock_seq, node)),
        Err(e) => Err(e),
    }
}

/// A version 1 identifier of the current time, a random clock sequence and
/// the given node. Fails where the system clock cannot be read.
pub fn generate_v1(node: &NodeId) -> (result: Result<UuidValue, ClockError>)
    ensures
        result matches Ok(value) ==> {
            &&& value.version_spec() == 1
            &&& value.is_well_formed()
            &&& node_of(value@) == node@
            &&& is_marked(node_of(value@))
        },
{
    generate_v1_from(read_clock(), random_clock_sequence(), node)
}

/// The version 3 identifier of a name in a namespace.
pub fn generate_v3_in(namespace: &UuidValue, name: &[u8]) -> (value: UuidValue)
    ensures
        value@ == v3_bytes(namespace@, name@),
        value.version_spec() == 3,
        value.is_well_formed(),
{
    UuidValue::with_version(hash_name_md5(&namespace.bytes, name), Version::NameMd5)
}

/// The version 5 identifier of a name in a namespace.
pub fn generate_v5_in(namespace: &UuidValue, name: &[u8]) -> (value: UuidValue)
    ensures
        value@ == v5_bytes(namespace@, name@),
        value.version_spec() == 5,
        value.is_well_formed(),
{
    UuidValue::with_version(hash_name_sha1(&namespace.bytes, name), Version::NameSha1)
}

/// The version 3 identifier of a name in the namespace that `namespace`
/// resolves to. The same arguments always give the same identifier.
pub fn generate_v3(namespace: &str, name: &str) -> (result: Result<UuidValue, NamespaceError>)
    ensures
        match result {
            Ok(value) => v3_outcome(namespace@, name@) == Ok::<Seq<u8>, ParseReason>(value@)
                && value.version_spec() == 3 && value.is_well_formed(),
            Err(e) => v3_outcome(namespace@, name@) == Err::<Seq<u8>, ParseReason>(e.reason)
                && e.token@ == namespace@,
        },
{
    match resolve_namespace(namespace) {
        Ok(resolved) => Ok(generate_v3_in(&resolved, name.as_bytes())),
        Err(e) => Err(e),
    }
}

/// The version 5 identifier of a name in the namespace that `namespace`
/// resolves to. The same arguments always give the same identifier.
pub fn generate_v5(namespace: &str, name: &str) -> (result: Result<UuidValue, NamespaceError>)
    ensures
        match result {
            Ok(value) => v5_outcome(namespace@, name@) == Ok::<Seq<u8>, ParseReason>(value@)
                && value.version_spec() == 5 && value.is_well_formed(),
            Err(e) => v5_outcome(namespace@, name@) == Err::<Seq<u8>, ParseReason>(e.reason)
                && e.token@ == namespace@,
        },
{
    match resolve_namespace(namespace) {
        Ok(resolved) => Ok(generate_v5_in(&resolved, name.as_bytes())),
        Err(e) => Err(e),
    }
}

/// A version 4 identifier: random bits, with the version and variant fields
/// overwritten.
pub fn generate_v4() -> (value: UuidValue)
    ensures
        value.version_spec() == 4,
        value.is_well_formed(),
{
    UuidValue::with_version(random_bytes(), Version::Random)
}

/// `count` version 4 identifiers, each drawn on its own.
pub fn generate_v4_batch(count: usize) -> (values: Vec<UuidValue>)
    ensures
        values.len() == count,
        forall|i: int|
            0 <= i < count ==> (#[trigger] values[i]).version_spec() == 4
                && values[i].is_well_formed(),
{
    let mut values: Vec<UuidValue> = Vec::new();
    let mut done: usize = 0;
    while done < count
        invariant
            done <= count,
            values.len() == done,
            forall|i: int|
                0 <= i < done ==> (#[trigger] values[i]).version_spec() == 4
                    && values[i].is_well_formed(),
        decreases count - done,
    {
        values.push(generate_v4());
        done += 1;
    }
    values
}

impl UuidValue {
    /// The identifier that a text reads as, or where no text is given, a new
    /// version 4 identifier.
    pub fn new(text: Option<&str>) -> (result: Result<UuidValue, ParseError>)
        ensures
            match text {
                Some(given) => match result {
                    Ok(value) => parse_outcome(given@) == Ok::<Seq<u8>, ParseReason>(value@),
                    Err(e) => parse_outcome(given@) == Err::<Seq<u8>, ParseReason>(e.reason)
                        && e.offending_input@ == given@,
                },
                None => result matches Ok(value) && value.version_spec() == 4
                    && value.is_well_formed(),
            },
    {
        match text {
            Some(given) => UuidValue::parse(given),
            None => Ok(generate_v4()),
        }
    }
}

/// The canonical form of the version 1 identifier of a reading of the clock,
/// a clock sequence and a node, or the failure of the clock.
pub fn uuid1_from(
    reading: Result<UnixTime, ClockError>,
    clock_seq: u16,
    node: &NodeId,
) -> (result: Result<String, ClockError>)
    ensures
        match result {
            Ok(text) => {
                &&& v1_outcome(reading, clock_seq, node@) matches Ok(bytes)
                &&& text@ == canonical_text(bytes)
                &&& parse_outcome(text@) == Ok::<Seq<u8>, ParseReason>(bytes)
                &&& is_text_of_version(text@, 1)
                &&& node_of(bytes) == node@
            },
            Err(e) => v1_outcome(reading, clock_seq, node@) == Err::<Seq<u8>, ClockError>(e),
        },
{
    match generate_v1_from(reading, clock_seq, node) {
        Ok(value) => {
            proof {
                lemma_parse_canonical_text(value@);
            }
            Ok(value.to_canonical_string())
        },
        Err(e) => Err(e),
    }
}

/// The canonical form of a new version 1 identifier of the given node.
pub fn uuid1(node: &NodeId) -> (result: Result<String, ClockError>)
    ensures
        result matches Ok(text) ==> {
            &&& is_text_of_version(text@, 1)
            &&& parse_outcome(text@) matches Ok(bytes)
            &&& node_of(bytes) == node@
        },
{
    uuid1_from(read_clock(), random_clock_sequence(), node)
}

/// The canonical form of the version 3 identifier of a name in a namespace.
pub fn uuid3(namespace: &str, name: &str) -> (result: Result<String, NamespaceError>)
    ensures
        match result {
            Ok(text) => v3_outcome(namespace@, name@) matches Ok(bytes) && text@
                == canonical_text(bytes) && is_text_of_version(text@, 3),
            Err(e) => v3_outcome(namespace@, name@) == Err::<Seq<u8>, ParseReason>(e.reason)
                && e.token@ == namespace@,
        },
{
    match generate_v3(namespace, name) {
        Ok(value) => {
            proof {
                lemma_parse_canonical_text(value@);
            }
            Ok(value.to_canonical_string())
        },
        Err(e) => Err(e),
    }
}

/// The canonical form of a new version 4 identifier.
pub fn uuid4() -> (text: String)
    ensures
        is_text_of_version(text@, 4),
{
    let value = generate_v4();
    proof {
        lemma_parse_canonical_text(value@);
    }
    value.to_canonical_string()
}

/// The canonical form of the version 5 identifier of a name in a namespace.
pub fn uuid5(namespace: &str, name: &str) -> (result: Result<String, NamespaceError>)
    ensures
        match result {
            Ok(text) => v5_outcome(namespace@, name@) matches Ok(bytes) && text@
                == canonical_text(bytes) && is_text_of_version(text@, 5),
            Err(e) => v5_outcome(namespace@, name@) == Err::<Seq<u8>, ParseReason>(e.reason)
                && e.token@ == namespace@,
        },
{
    match generate_v5(namespace, name) {
        Ok(value) => {
            proof {
                lemma_parse_canonical_text(value@);
            }
            Ok(value.to_canonical_string())
        },
        Err(e) => Err(e),
    }
}

/// The canonical forms of `count` new version 4 identifiers.
pub fn uuid4_batch(count: usize) -> (texts: Vec<String>)
    ensures
        texts.len() == count,
        forall|i: int| 0 <= i < count ==> is_text_of_version((#[trigger] texts[i])@, 4),
{
    let mut texts: Vec<String> = Vec::new();
    let mut done: usize = 0;
    while done < count
        invariant
            done <= count,
            texts.len() == done,
            forall|i: int| 0 <= i < done ==> is_text_of_version((#[trigger] texts[i])@, 4),
        decreases count - done,
    {
        texts.push(uuid4());
        done += 1;
    }
    texts
}

} // verus!
