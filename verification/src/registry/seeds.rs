//! The seeds from which the cells of the registry are derived.

use crate::address::Address;
use crate::derivation::cell_view;
use crate::derivation::derived;
use crate::derivation::one_seed;
use crate::derivation::two_seeds;
use vstd::prelude::*;
use vstd::string::StringSliceAdditionalSpecFns;

verus! {

/// The seed of the cell that holds the configuration: the bytes of
/// `registry-config`.
pub const CONFIG_SEED: [u8; 15] = [
    114, 101, 103, 105, 115, 116, 114, 121, 45, 99, 111, 110, 102, 105, 103,
];

/// The first seed of every schema cell: the bytes of `schema`.
pub const SCHEMA_SEED: [u8; 6] = [115, 99, 104, 101, 109, 97];

/// The seeds of the cell that holds the configuration of a registry.
pub open spec fn config_seeds() -> Seq<Seq<u8>> {
    seq![CONFIG_SEED@]
}

/// The seeds of the cell of an entry: the namespace of the registry, then
/// the key of the entry.
pub open spec fn entry_seeds(namespace: Seq<u8>, key: Seq<u8>) -> Seq<Seq<u8>> {
    seq![namespace, key]
}

/// The seeds of the cell of a schema: the schema seed, then the version as
/// one byte.
pub open spec fn schema_seeds(version: u8) -> Seq<Seq<u8>> {
    seq![SCHEMA_SEED@, seq![version]]
}

/// Builds the seeds of the configuration cell.
pub fn config_seed_list() -> (seeds: Vec<Vec<u8>>)
    ensures
        seeds.deep_view() == config_seeds(),
{
    one_seed(CONFIG_SEED.as_slice())
}

/// Builds the seeds of the cell of an entry.
pub fn entry_seed_list(namespace: &str, key: &Vec<u8>) -> (seeds: Vec<Vec<u8>>)
    ensures
        seeds.deep_view() == entry_seeds(namespace.spec_bytes(), key@),
{
    two_seeds(namespace.as_bytes(), key.as_slice())
}

/// Builds the seeds of the cell of a schema.
pub fn schema_seed_list(version: u8) -> (seeds: Vec<Vec<u8>>)
    ensures
        seeds.deep_view() == schema_seeds(version),
{
    let number: [u8; 1] = [version];
    assert(number@ =~= seq![version]);
    two_seeds(SCHEMA_SEED.as_slice(), number.as_slice())
}

/// The canonical address and bump of the configuration cell of a program.
pub fn config_address(program_id: &Address) -> (r: Option<(Address, u8)>)
    ensures
        cell_view(r) == derived(config_seeds(), program_id@),
{
    crate::derivation::derive(config_seed_list(), program_id)
}

/// The canonical address and bump of the cell for the entry with the given
/// key, in the registry with the given namespace.
pub fn entry_address(program_id: &Address, namespace: &str, key: &Vec<u8>) -> (r: Option<
    (Address, u8),
>)
    ensures
        cell_view(r) == derived(entry_seeds(namespace.spec_bytes(), key@), program_id@),
{
    crate::derivation::derive(entry_seed_list(namespace, key), program_id)
}

/// The canonical address and bump of the cell for the schema with the given
/// version.
pub fn schema_address(program_id: &Address, version: u8) -> (r: Option<(Address, u8)>)
    ensures
        cell_view(r) == derived(schema_seeds(version), program_id@),
{
    crate::derivation::derive(schema_seed_list(version), program_id)
}

} // verus!
