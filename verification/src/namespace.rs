//! The namespaces of the name-based versions: four well-known ones, each with
//! a name, and beside them every identifier in canonical form.

use vstd::prelude::*;
use vstd::utf8::{encode_utf8, encode_utf8_decode_utf8};
use crate::error::{NamespaceError, ParseReason};
use crate::text::{canonical_text, parse_outcome};
use crate::value::UuidValue;

verus! {

/// The canonical form of the namespace for fully qualified domain names.
pub const NAMESPACE_DNS: &'static str = "6ba7b810-9dad-11d1-80b4-00c04fd430c8";

/// The canonical form of the namespace for URLs.
pub const NAMESPACE_URL: &'static str = "6ba7b811-9dad-11d1-80b4-00c04fd430c8";

/// The canonical form of the namespace for ISO object identifiers.
pub const NAMESPACE_OID: &'static str = "6ba7b812-9dad-11d1-80b4-00c04fd430c8";

/// The canonical form of the namespace for X.500 distinguished names.
pub const NAMESPACE_X500: &'static str = "6ba7b814-9dad-11d1-80b4-00c04fd430c8";

/// The bytes that the four well-known namespaces share but for byte 3, which
/// is given.
pub open spec fn well_known_bytes(fourth: u8) -> Seq<u8> {
    seq![
        0x6b,
        0xa7,
        0xb8,
        fourth,
        0x9d,
        0xad,
        0x11,
        0xd1,
        0x80,
        0xb4,
        0x00,
        0xc0,
        0x4f,
        0xd4,
        0x30,
        0xc8,
    ]
}

/// The namespace that a well-known name stands for, and `None` for every
/// other token. The names are told apart by case.
pub open spec fn well_known_namespace(token: Seq<char>) -> Option<Seq<u8>> {
    if token == "NAMESPACE_DNS"@ {
        Some(well_known_bytes(0x10))
    } else if token == "NAMESPACE_URL"@ {
        Some(well_known_bytes(0x11))
    } else if token == "NAMESPACE_OID"@ {
        Some(well_known_bytes(0x12))
    } else if token == "NAMESPACE_X500"@ {
        Some(well_known_bytes(0x14))
    } else {
        None
    }
}

/// What a namespace argument resolves to: the namespace of a well-known name,
/// else what reading the token as an identifier gives.
pub open spec fn resolve_outcome(token: Seq<char>) -> Result<Seq<u8>, ParseReason> {
    match well_known_namespace(token) {
        Some(bytes) => Ok(bytes),
        None => parse_outcome(token),
    }
}

/// Whether two texts are the same, character by character.
fn same_text(a: &str, b: &str) -> (same: bool)
    ensures
        same == (a@ == b@),
{
    let left: &[u8] = a.as_bytes();
    let right: &[u8] = b.as_bytes();
    proof {
        encode_utf8_decode_utf8(a@);
        encode_utf8_decode_utf8(b@);
    }
    if left.len() != right.len() {
        return false;
    }
    let mut i: usize = 0;
    while i < left.len()
        invariant
            i <= left.len(),
            left.len() == right.len(),
            left@ == encode_utf8(a@),
            right@ == encode_utf8(b@),
            forall|k: int| 0 <= k < i ==> left@[k] == right@[k],
        decreases left.len() - i,
    {
        if left[i] != right[i] {
            return false;
        }
        i += 1;
    }
    assert(left@ =~= right@);
    true
}

/// One of the four well-known namespaces, by its byte 3.
fn well_known(fourth: u8) -> (value: UuidValue)
    ensures
        value@ == well_known_bytes(fourth),
{
    let value = UuidValue {
        bytes: [
            0x6b,
            0xa7,
            0xb8,
            fourth,
            0x9d,
            0xad,
            0x11,
            0xd1,
            0x80,
            0xb4,
            0x00,
            0xc0,
            0x4f,
            0xd4,
            0x30,
            0xc8,
        ],
    };
    assert(value@ =~= well_known_bytes(fourth));
    value
}

/// The namespace for fully qualified domain names.
pub fn namespace_dns() -> (value: UuidValue)
    ensures
        value@ == well_known_bytes(0x10),
        canonical_text(value@) == NAMESPACE_DNS@,
{
    proof {
        reveal_strlit("6ba7b810-9dad-11d1-80b4-00c04fd430c8");
        assert(canonical_text(well_known_bytes(0x10)) =~= NAMESPACE_DNS@);
    }
    well_known(0x10)
}

/// The namespace for URLs.
pub fn namespace_url() -> (value: UuidValue)
    ensures
        value@ == well_known_bytes(0x11),
        canonical_text(value@) == NAMESPACE_URL@,
{
    proof {
        reveal_strlit("6ba7b811-9dad-11d1-80b4-00c04fd430c8");
        assert(canonical_text(well_known_bytes(0x11)) =~= NAMESPACE_URL@);
    }
    well_known(0x11)
}

/// The namespace for ISO object identifiers.
pub fn namespace_oid() -> (value: UuidValue)
    ensures
        value@ == well_known_bytes(0x12),
        canonical_text(value@) == NAMESPACE_OID@,
{
    proof {
        reveal_strlit("6ba7b812-9dad-11d1-80b4-00c04fd430c8");
        assert(canonical_text(well_known_bytes(0x12)) =~= NAMESPACE_OID@);
    }
    well_known(0x12)
}

/// The namespace for X.500 distinguished names.
pub fn namespace_x500() -> (value: UuidValue)
    ensures
        value@ == well_known_bytes(0x14),
        canonical_text(value@) == NAMESPACE_X500@,
{
    proof {
        reveal_strlit("6ba7b814-9dad-11d1-80b4-00c04fd430c8");
        assert(canonical_text(well_known_bytes(0x14)) =~= NAMESPACE_X500@);
    }
    well_known(0x14)
}

/// Resolves a namespace argument. The token is first compared with the four
/// well-known names; a token that is none of them is read as an identifier
/// in canonical form.
pub fn resolve_namespace(token: &str) -> (result: Result<UuidValue, NamespaceError>)
    ensures
        match result {
            Ok(value) => resolve_outcome(token@) == Ok::<Seq<u8>, ParseReason>(value@),
            Err(e) => resolve_outcome(token@) == Err::<Seq<u8>, ParseReason>(e.reason)
                && e.token@ == token@,
        },
{
    if same_text(token, "NAMESPACE_DNS") {
        Ok(namespace_dns())
    } else if same_text(token, "NAMESPACE_URL") {
        Ok(namespace_url())
    } else if same_text(token, "NAMESPACE_OID") {
        Ok(namespace_oid())
    } else if same_text(token, "NAMESPACE_X500") {
        Ok(namespace_x500())
    } else {
        match UuidValue::parse(token) {
            Ok(value) => Ok(value),
            Err(e) => Err(NamespaceError { reason: e.reason, token: e.offending_input }),
        }
    }
}

} // verus!
