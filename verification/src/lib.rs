//! Candidates and candidate pairs for Interactive Connectivity Establishment.
//!
//! A candidate is one transport address that an agent offers to its peer.
//! This crate holds what is decided about candidates: the network type of a
//! transport token and an address, the priority and the foundation of a
//! candidate, the text of a candidate on the signaling channel and what such a
//! text says, and priority and identity of a pair of candidates.
//!
//! Everything here works on plain values. An address is text; what the text
//! reads as, an [`network_type::IpAddress`] or nothing, is handed in by the
//! caller wherever it matters. Times are nanoseconds since the epoch. A
//! candidate is a record that its owner changes through `&mut`; sharing it
//! between tasks is left to the owner.
//!
//! - [`network_type`]: transport and IP version, and their classification.
//! - [`tcp_type`]: the role of a TCP candidate.
//! - [`candidate`]: the candidate record, the construction configs, the pair,
//!   and reading and writing a candidate's text.
//! - [`foundation`]: the foundation derived from type, network type and
//!   address.
//! - [`candidate_id`]: identifiers for candidates that were given none.
//! - [`decimal`], [`words`]: numbers and words of a text.
//! - [`error`]: the failures.

pub mod candidate;
pub mod candidate_id;
pub mod decimal;
pub mod error;
pub mod foundation;
pub mod network_type;
pub mod tcp_type;
pub mod words;
