//! Entries: the records that a registry keeps, one for each key.

use crate::address::Address;
use crate::registry::config::RegistryConfig;
use crate::registry::config::RegistryConfigView;
use vstd::prelude::*;

verus! {

/// Bytes reserved for the cell of an entry.
pub const ENTRY_SPACE: usize = 1024;

/// Bytes that a stored entry takes besides its key and its payload: a tag of
/// 8, the creator, three timestamps, two one-byte fields and the two length
/// prefixes.
pub const ENTRY_FIXED_LEN: usize = 74;

/// One registered record.
#[derive(Debug)]
pub struct EntryData {
    /// The key that the entry was registered under.
    pub primary_key: Vec<u8>,
    /// Who created the entry.
    pub creator: Address,
    /// When the entry was created, in seconds.
    pub created_at: i64,
    /// When the payload was last written, in seconds.
    pub updated_at: i64,
    /// Whether the authority vouches for the entry.
    pub is_verified: bool,
    /// When the entry was last verified, in seconds.
    pub verified_at: i64,
    /// The schema that the payload follows.
    pub schema_version: u8,
    /// The payload.
    pub data: Vec<u8>,
}

/// An entry as a mathematical value.
pub struct EntryDataView {
    pub primary_key: Seq<u8>,
    pub creator: Address,
    pub created_at: i64,
    pub updated_at: i64,
    pub is_verified: bool,
    pub verified_at: i64,
    pub schema_version: u8,
    pub data: Seq<u8>,
}

impl View for EntryData {
    type V = EntryDataView;

    open spec fn view(&self) -> EntryDataView {
        EntryDataView {
            primary_key: self.primary_key@,
            creator: self.creator,
            created_at: self.created_at,
            updated_at: self.updated_at,
            is_verified: self.is_verified,
            verified_at: self.verified_at,
            schema_version: self.schema_version,
            data: self.data@,
        }
    }
}

impl EntryDataView {
    /// The entry as it is created: unverified, never verified before, written
    /// at the time of its creation.
    pub open spec fn created(
        primary_key: Seq<u8>,
        creator: Address,
        schema_version: u8,
        data: Seq<u8>,
        now: i64,
    ) -> EntryDataView {
        EntryDataView {
            primary_key,
            creator,
            created_at: now,
            updated_at: now,
            is_verified: false,
            verified_at: 0,
            schema_version,
            data,
        }
    }

    /// The entry with a new payload. Whether it is verified does not change.
    pub open spec fn updated(self, schema_version: u8, data: Seq<u8>, now: i64) -> EntryDataView {
        EntryDataView { schema_version, data, updated_at: now, ..self }
    }

    /// The entry once the authority has vouched for it.
    pub open spec fn verified(self, now: i64) -> EntryDataView {
        EntryDataView { is_verified: true, verified_at: now, ..self }
    }

    /// The entry once the authority has withdrawn its word. The time of the
    /// last verification stays.
    pub open spec fn unverified(self) -> EntryDataView {
        EntryDataView { is_verified: false, ..self }
    }

    /// How many bytes the stored entry takes.
    pub open spec fn encoded_len(self) -> nat {
        ENTRY_FIXED_LEN as nat + self.primary_key.len() + self.data.len()
    }

    /// Whether the entry fits into its cell.
    pub open spec fn fits(self) -> bool {
        self.encoded_len() <= ENTRY_SPACE
    }

    /// Whether `signer` may rewrite the payload: the creator alone.
    pub open spec fn may_update(self, signer: Address) -> bool {
        signer == self.creator
    }

    /// Whether `signer` may remove the entry: its creator, or the authority of
    /// the registry.
    pub open spec fn may_remove(self, config: RegistryConfigView, signer: Address) -> bool {
        signer == config.authority || signer == self.creator
    }
}

impl EntryData {
    /// A new entry, created at `now` by `creator`.
    pub fn new(
        primary_key: Vec<u8>,
        creator: Address,
        schema_version: u8,
        data: Vec<u8>,
        now: i64,
    ) -> (entry: EntryData)
        ensures
            entry@ == EntryDataView::created(primary_key@, creator, schema_version, data@, now),
    {
        EntryData {
            primary_key,
            creator,
            created_at: now,
            updated_at: now,
            is_verified: false,
            verified_at: 0,
            schema_version,
            data,
        }
    }

    /// Overwrites the payload and its schema version at `now`.
    pub fn update(&mut self, schema_version: u8, data: Vec<u8>, now: i64)
        ensures
            final(self)@ == old(self)@.updated(schema_version, data@, now),
    {
        self.schema_version = schema_version;
        self.data = data;
        self.updated_at = now;
    }

    /// Marks the entry as verified at `now`.
    pub fn verify(&mut self, now: i64)
        ensures
            final(self)@ == old(self)@.verified(now),
    {
        self.is_verified = true;
        self.verified_at = now;
    }

    /// Marks the entry as not verified.
    pub fn unverify(&mut self)
        ensures
            final(self)@ == old(self)@.unverified(),
    {
        self.is_verified = false;
    }

    /// Whether an entry with such a key and payload fits into its cell.
    pub fn payload_fits(key_len: usize, data_len: usize) -> (r: bool)
        ensures
            r == (ENTRY_FIXED_LEN + key_len + data_len <= ENTRY_SPACE),
    {
        key_len <= ENTRY_SPACE - ENTRY_FIXED_LEN && data_len <= ENTRY_SPACE - ENTRY_FIXED_LEN
            - key_len
    }

    /// Whether the entry fits into its cell.
    pub fn fits(&self) -> (r: bool)
        ensures
            r == self@.fits(),
    {
        Self::payload_fits(self.primary_key.len(), self.data.len())
    }

    /// Whether `signer` may rewrite the payload.
    pub fn may_update(&self, signer: &Address) -> (r: bool)
        ensures
            r == self@.may_update(*signer),
    {
        *signer == self.creator
    }

    /// Whether `signer` may remove the entry.
    pub fn may_remove(&self, config: &RegistryConfig, signer: &Address) -> (r: bool)
        ensures
            r == self@.may_remove(config@, *signer),
    {
        *signer == config.authority || *signer == self.creator
    }
}

} // verus!
