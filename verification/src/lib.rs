//! Client-side protocol layer for a cryptographic service reached over an
//! inter-process channel.
//!
//! The crate covers three tightly coupled pieces:
//! - the catalogue of supported operations, each kind tagged with a stable
//!   opcode, together with the key-policy validators;
//! - the wire codec that converts native operations and results to and from
//!   their protobuf wire encoding, including the recursive algorithm
//!   descriptors;
//! - the response-header framing protocol, with its magic number, size and
//!   version checks.
//!
//! All conversions are bit-exact and reject malformed or version-mismatched
//! input defensively; the round-trip and rejection guarantees are stated as
//! contracts and proved.

pub mod operations;
pub mod operations_protobuf;
pub mod psa_algorithm;
pub mod psa_key_attributes;
pub mod requests;
pub mod secret;
