//! Universally unique identifiers of RFC 4122, versions 1, 3, 4 and 5: the
//! 16 bytes of an identifier, their canonical and simple textual forms, the
//! generators of the four versions, and the namespaces of the name-based ones.
//!
//! `value` holds the identifier and `text` the definition of its textual
//! forms; `generate` holds the generators, `namespace` the resolution of a
//! namespace argument, `node` and `clock` what version 1 is made of, and
//! `layout` the fields of a version 1 identifier. `backend` holds the calls
//! that are taken on trust, `laws` what is proved of the whole.

pub mod backend;
pub mod clock;
pub mod error;
pub mod generate;
pub mod hex;
pub mod laws;
pub mod layout;
pub mod namespace;
pub mod node;
pub mod text;
pub mod value;
