//! Reduces the completion payloads of several model providers to one plain
//! text result.
//!
//! Each provider's response is held in a record of its own shape
//! (`schemas`), and `extract` reduces such a record to the canonical text,
//! failing with a typed error where the provider returned nothing.

pub mod message;
pub mod schemas;
pub mod extract;
