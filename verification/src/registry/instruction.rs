//! Requests: what a client hands in with each operation, and the cells and
//! identities that the operation names.
//!
//! An identity named as a signer has signed the request; checking the
//! signature is the business of whoever delivers the request.

use crate::address::Address;
use vstd::prelude::*;

verus! {

/// The inputs for initialising a registry.
#[derive(Debug)]
pub struct InitIx {
    /// The bump of the configuration cell.
    pub bump: u8,
    /// The namespace under which the addresses of entries are derived.
    pub entry_seed: String,
    /// Whether anybody may add entries, or the authority alone.
    pub permissionless_add: bool,
    /// What adding an entry costs; 0 for no fee.
    pub add_fee: u64,
}

/// The inputs for adding an entry.
#[derive(Debug)]
pub struct AddEntryIx {
    /// The bump of the cell of the entry.
    pub bump: u8,
    /// The key to register.
    pub primary_key: Vec<u8>,
    /// The schema that the payload follows.
    pub schema_version: u8,
    /// The payload.
    pub data: Vec<u8>,
}

/// The inputs for rewriting the payload of an entry.
#[derive(Debug)]
pub struct UpdateEntryIx {
    /// The schema that the new payload follows.
    pub schema_version: u8,
    /// The new payload.
    pub data: Vec<u8>,
}

/// The inputs for adding a schema.
#[derive(Debug)]
pub struct AddSchemaIx {
    /// The bump of the cell of the schema.
    pub bump: u8,
    /// The definition.
    pub data: Vec<u8>,
}

/// What initialising a registry names.
#[derive(Clone, Copy, Debug)]
pub struct Init {
    /// The cell that is to hold the configuration.
    pub registry_config: Address,
    /// The signer, who becomes the authority.
    pub authority: Address,
}

/// What handing a registry over names.
#[derive(Clone, Copy, Debug)]
pub struct TransferAuthority {
    /// The cell of the configuration.
    pub registry_config: Address,
    /// The signer, who must be the authority.
    pub authority: Address,
    /// The co-signer, who becomes the authority.
    pub new_authority: Address,
}

/// What adding an entry names.
#[derive(Clone, Copy, Debug)]
pub struct AddEntry {
    /// The cell of the configuration.
    pub registry_config: Address,
    /// The cell that is to hold the entry.
    pub entry: Address,
    /// The signer, who creates the entry and pays the fee.
    pub creator: Address,
    /// Who receives the fee: the authority of the registry.
    pub authority: Address,
}

/// What rewriting an entry names.
#[derive(Clone, Copy, Debug)]
pub struct UpdateEntry {
    /// The cell of the configuration.
    pub registry_config: Address,
    /// The cell of the entry.
    pub entry: Address,
    /// The signer, who must have created the entry.
    pub creator: Address,
}

/// What verifying an entry names.
#[derive(Clone, Copy, Debug)]
pub struct VerifyEntry {
    /// The cell of the configuration.
    pub registry_config: Address,
    /// The cell of the entry.
    pub entry: Address,
    /// The signer, who must be the authority.
    pub authority: Address,
}

/// What withdrawing the verification of an entry names.
#[derive(Clone, Copy, Debug)]
pub struct UnverifyEntry {
    /// The cell of the configuration.
    pub registry_config: Address,
    /// The cell of the entry.
    pub entry: Address,
    /// The signer, who must be the authority.
    pub authority: Address,
}

/// What removing an entry names.
#[derive(Clone, Copy, Debug)]
pub struct RemoveEntry {
    /// The cell of the configuration.
    pub registry_config: Address,
    /// The cell of the entry.
    pub entry: Address,
    /// The signer, who must be the authority or the creator of the entry.
    pub authority: Address,
}

/// What adding a schema names.
#[derive(Clone, Copy, Debug)]
pub struct AddSchema {
    /// The cell of the configuration.
    pub registry_config: Address,
    /// The cell that is to hold the schema.
    pub schema: Address,
    /// The signer, who must be the authority.
    pub creator: Address,
}

/// What removing a schema names.
#[derive(Clone, Copy, Debug)]
pub struct RemoveSchema {
    /// The cell of the configuration.
    pub registry_config: Address,
    /// The cell of the schema.
    pub schema: Address,
    /// The signer, who must be the authority.
    pub authority: Address,
}

} // verus!
