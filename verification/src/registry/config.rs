//! The configuration of a registry: who its authority is and how it admits
//! entries.

use crate::address::Address;
use vstd::prelude::*;
use vstd::utf8::encode_utf8;

verus! {

/// Bytes reserved for the cell that holds the configuration.
pub const CONFIG_SPACE: usize = 128;

/// Bytes that a stored configuration takes besides its entry seed: a tag of
/// 8, the authority, the length prefix of the seed, two one-byte fields and
/// the fee.
pub const CONFIG_FIXED_LEN: usize = 54;

/// The one control record of a registry.
#[derive(Debug)]
pub struct RegistryConfig {
    /// Who may perform the privileged operations.
    pub authority: Address,
    /// The namespace under which the addresses of entries are derived.
    pub entry_seed: String,
    /// Whether anybody may add entries, or the authority alone.
    pub permissionless_add: bool,
    /// How many schemas have been added so far.
    pub schema_version: u8,
    /// What adding an entry costs, paid to the authority.
    pub add_fee: u64,
}

/// A configuration as a mathematical value.
pub struct RegistryConfigView {
    pub authority: Address,
    pub entry_seed: Seq<char>,
    pub permissionless_add: bool,
    pub schema_version: u8,
    pub add_fee: u64,
}

impl View for RegistryConfig {
    type V = RegistryConfigView;

    open spec fn view(&self) -> RegistryConfigView {
        RegistryConfigView {
            authority: self.authority,
            entry_seed: self.entry_seed@,
            permissionless_add: self.permissionless_add,
            schema_version: self.schema_version,
            add_fee: self.add_fee,
        }
    }
}

impl RegistryConfigView {
    /// The configuration that a fresh registry starts with: no schema yet.
    pub open spec fn initial(
        authority: Address,
        entry_seed: Seq<char>,
        permissionless_add: bool,
        add_fee: u64,
    ) -> RegistryConfigView {
        RegistryConfigView { authority, entry_seed, permissionless_add, schema_version: 0, add_fee }
    }

    /// The namespace as the bytes that enter the derivation.
    pub open spec fn namespace(self) -> Seq<u8> {
        encode_utf8(self.entry_seed)
    }

    /// How many bytes the stored configuration takes.
    pub open spec fn encoded_len(self) -> nat {
        CONFIG_FIXED_LEN as nat + self.namespace().len()
    }

    /// Whether the configuration fits into its cell.
    pub open spec fn fits(self) -> bool {
        self.encoded_len() <= CONFIG_SPACE
    }

    /// Whether `signer` is the authority.
    pub open spec fn is_authority(self, signer: Address) -> bool {
        signer == self.authority
    }

    /// The write gate: whether `signer` may add an entry.
    pub open spec fn may_add(self, signer: Address) -> bool {
        self.permissionless_add || signer == self.authority
    }

    /// The version that the next schema gets, if the counter can still grow.
    pub open spec fn next_schema_version(self) -> Option<u8> {
        if self.schema_version < u8::MAX {
            Some((self.schema_version + 1) as u8)
        } else {
            None
        }
    }

    /// The configuration under a new authority.
    pub open spec fn with_authority(self, authority: Address) -> RegistryConfigView {
        RegistryConfigView { authority, ..self }
    }

    /// The configuration after one more schema was added.
    pub open spec fn with_schema_version(self, schema_version: u8) -> RegistryConfigView {
        RegistryConfigView { schema_version, ..self }
    }
}

impl RegistryConfig {
    /// The configuration of a fresh registry.
    pub fn new(
        authority: Address,
        entry_seed: String,
        permissionless_add: bool,
        add_fee: u64,
    ) -> (config:
        RegistryConfig)
        ensures
            config@ == RegistryConfigView::initial(
                authority,
                entry_seed@,
                permissionless_add,
                add_fee,
            ),
    {
        RegistryConfig { authority, entry_seed, permissionless_add, schema_version: 0, add_fee }
    }

    /// Whether the configuration fits into its cell.
    pub fn fits(&self) -> (r: bool)
        ensures
            r == self@.fits(),
    {
        self.entry_seed.as_str().as_bytes().len() <= CONFIG_SPACE - CONFIG_FIXED_LEN
    }

    /// Whether `signer` is the authority.
    pub fn is_authority(&self, signer: &Address) -> (r: bool)
        ensures
            r == self@.is_authority(*signer),
    {
        *signer == self.authority
    }

    /// The write gate: whether `signer` may add an entry.
    pub fn may_add(&self, signer: &Address) -> (r: bool)
        ensures
            r == self@.may_add(*signer),
    {
        self.permissionless_add || *signer == self.authority
    }

    /// The version that the next schema gets, if the counter can still grow.
    pub fn next_schema_version(&self) -> (r: Option<u8>)
        ensures
            r == self@.next_schema_version(),
    {
        if self.schema_version < u8::MAX {
            Some(self.schema_version + 1)
        } else {
            None
        }
    }
}

} // verus!
