use rust_uuid::error::ParseReason;
use rust_uuid::namespace::{
    namespace_dns, namespace_oid, namespace_url, namespace_x500, resolve_namespace, NAMESPACE_DNS,
    NAMESPACE_OID, NAMESPACE_URL, NAMESPACE_X500,
};
use rust_uuid::value::UuidValue;

#[test]
fn namespace_constants_are_the_rfc_values() {
    assert_eq!(NAMESPACE_DNS, "6ba7b810-9dad-11d1-80b4-00c04fd430c8");
    assert_eq!(NAMESPACE_URL, "6ba7b811-9dad-11d1-80b4-00c04fd430c8");
    assert_eq!(NAMESPACE_OID, "6ba7b812-9dad-11d1-80b4-00c04fd430c8");
    assert_eq!(NAMESPACE_X500, "6ba7b814-9dad-11d1-80b4-00c04fd430c8");
}

#[test]
fn namespace_values_have_the_exported_canonical_forms() {
    assert_eq!(namespace_dns().to_canonical_string(), NAMESPACE_DNS);
    assert_eq!(namespace_url().to_canonical_string(), NAMESPACE_URL);
    assert_eq!(namespace_oid().to_canonical_string(), NAMESPACE_OID);
    assert_eq!(namespace_x500().to_canonical_string(), NAMESPACE_X500);
}

#[test]
fn resolve_url_name_equals_parsing_its_literal() {
    let by_name = resolve_namespace("NAMESPACE_URL").unwrap();
    let by_text = UuidValue::parse("6ba7b811-9dad-11d1-80b4-00c04fd430c8").unwrap();
    assert_eq!(by_name, by_text);
}

#[test]
fn resolve_each_well_known_name() {
    assert_eq!(resolve_namespace("NAMESPACE_DNS"), Ok(namespace_dns()));
    assert_eq!(resolve_namespace("NAMESPACE_URL"), Ok(namespace_url()));
    assert_eq!(resolve_namespace("NAMESPACE_OID"), Ok(namespace_oid()));
    assert_eq!(resolve_namespace("NAMESPACE_X500"), Ok(namespace_x500()));
    assert_eq!(resolve_namespace(NAMESPACE_X500), Ok(namespace_x500()));
}

#[test]
fn resolve_reads_any_canonical_text() {
    let value = resolve_namespace("A1A2A3A4-B1B2-C1C2-D1D2-D3D4D5D6D7D8").unwrap();
    assert_eq!(value.to_canonical_string(), "a1a2a3a4-b1b2-c1c2-d1d2-d3d4d5d6d7d8");
}

#[test]
fn resolve_tells_names_apart_by_case() {
    let refused = resolve_namespace("namespace_dns").unwrap_err();
    assert_eq!(refused.token, "namespace_dns");
    assert_eq!(refused.reason, ParseReason::WrongLength { found: 13 });
    assert!(resolve_namespace("NAMESPACE_DNS ").is_err());
    assert!(resolve_namespace("NAMESPACE_").is_err());
    assert!(resolve_namespace("").is_err());
}

#[test]
fn resolve_refuses_what_is_neither_name_nor_identifier() {
    let refused = resolve_namespace("not-a-namespace").unwrap_err();
    assert_eq!(refused.token, "not-a-namespace");
    assert_eq!(refused.reason, ParseReason::WrongLength { found: 15 });
    let refused = resolve_namespace("6ba7b811-9dad-11d1-80b4-00c04fd430cx").unwrap_err();
    assert_eq!(refused.token, "6ba7b811-9dad-11d1-80b4-00c04fd430cx");
    assert_eq!(refused.reason, ParseReason::InvalidCharacter { position: 35 });
    let refused = resolve_namespace("6ba7b8119dad11d180b400c04fd430c8").unwrap_err();
    assert_eq!(refused.reason, ParseReason::WrongLength { found: 32 });
}
