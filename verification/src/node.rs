//! The node identifier of version 1: six bytes that stand where a network
//! card's address would, marked as no real address.

use vstd::prelude::*;
use vstd::bytes::{spec_u32_to_le_bytes, u32_to_le_bytes};
use vstd::std_specs::hash::DefaultHasherAdditionalSpecFns;
use core::hash::Hasher;
use std::collections::hash_map::DefaultHasher;

verus! {

/// Whether six bytes carry the mark of a node identifier that is no hardware
/// address: the high bit of the last byte is set.
pub open spec fn is_marked(node: Seq<u8>) -> bool {
    node.len() == 6 && node[5] >= 128
}

/// The byte with its high bit set and its other bits kept.
pub open spec fn with_mark(byte: u8) -> u8 {
    (128 + byte as int % 128) as u8
}

/// The node identifier made of a 64-bit hash: its six low bytes, the lowest
/// first, the last of them marked.
pub open spec fn node_of_hash(hash: u64) -> Seq<u8> {
    seq![
        (hash as int % 0x100) as u8,
        (hash as int / 0x100 % 0x100) as u8,
        (hash as int / 0x1_0000 % 0x100) as u8,
        (hash as int / 0x100_0000 % 0x100) as u8,
        (hash as int / 0x1_0000_0000 % 0x100) as u8,
        with_mark((hash as int / 0x100_0000_0000 % 0x100) as u8),
    ]
}

/// The hash of a process number: that of the standard library's default
/// hasher over the four bytes of the number, the lowest first.
pub open spec fn process_hash(pid: u32) -> u64 {
    DefaultHasher::spec_finish(seq![spec_u32_to_le_bytes(pid)])
}

/// A node identifier. Every value carries the mark.
#[derive(Clone, Copy, Debug, PartialEq, Eq)]
pub struct NodeId {
    bytes: [u8; 6],
}

impl View for NodeId {
    type V = Seq<u8>;

    closed spec fn view(&self) -> Seq<u8> {
        self.bytes@
    }
}

impl NodeId {
    #[verifier::type_invariant]
    spec fn marked(self) -> bool {
        self.bytes[5] >= 128
    }

    /// The node identifier that consists of the given bytes, the last of them
    /// marked.
    pub fn from_bytes(bytes: [u8; 6]) -> (node: NodeId)
        ensures
            node@ == bytes@.update(5, with_mark(bytes[5])),
            is_marked(node@),
    {
        let mut out: [u8; 6] = bytes;
        out[5] = 128 + bytes[5] % 128;
        NodeId { bytes: out }
    }

    /// The node identifier made of a 64-bit hash.
    pub fn from_hash(hash: u64) -> (node: NodeId)
        ensures
            node@ == node_of_hash(hash),
            is_marked(node@),
    {
        let bytes: [u8; 6] = [
            (hash % 0x100) as u8,
            (hash / 0x100 % 0x100) as u8,
            (hash / 0x1_0000 % 0x100) as u8,
            (hash / 0x100_0000 % 0x100) as u8,
            (hash / 0x1_0000_0000 % 0x100) as u8,
            128 + (hash / 0x100_0000_0000 % 0x100) as u8 % 128,
        ];
        assert(bytes@ =~= node_of_hash(hash));
        NodeId { bytes }
    }

    /// The node identifier of a process: made of the hash of its number, so
    /// that it is the same for the whole life of the process.
    pub fn from_process_id(pid: u32) -> (node: NodeId)
        ensures
            node@ == node_of_hash(process_hash(pid)),
            is_marked(node@),
    {
        let mut hasher: DefaultHasher = DefaultHasher::new();
        let number: Vec<u8> = u32_to_le_bytes(pid);
        hasher.write(number.as_slice());
        assert(hasher@ =~= seq![spec_u32_to_le_bytes(pid)]);
        NodeId::from_hash(hasher.finish())
    }

    /// The six bytes.
    pub fn octets(&self) -> (bytes: [u8; 6])
        ensures
            bytes@ == self@,
            is_marked(bytes@),
    {
        proof {
            use_type_invariant(self);
        }
        self.bytes
    }
}

} // verus!
