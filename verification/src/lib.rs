//! Transactional core of a two-party token-escrow protocol.
//!
//! The crate decodes an instruction byte-string into a typed command,
//! lays out and validates the persistent escrow record byte-for-byte,
//! and performs the initialization transition: it validates a set of
//! account preconditions, writes the record into the escrow storage
//! slot, and prepares the custody-authority change that hands control
//! of the escrowed tokens to a program-derived authority.

pub mod error;
pub mod host;
pub mod instruction;
pub mod processor;
pub mod state;
