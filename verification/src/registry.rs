//! The full registry: entries under a write gate, with a fee for adding,
//! verification by the authority, rewriting by the creator, and schemas.

pub mod config;
pub mod entry;
pub mod instruction;
pub mod laws;
pub mod processor;
pub mod request;
pub mod seeds;
