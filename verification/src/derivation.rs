//! Address derivation: from a list of seeds to the address of a storage cell.
//!
//! A cell address is derived from the program that owns the cell and from a
//! list of byte seeds, closed by a one-byte bump. Not every bump yields an
//! address: the derivation rejects a result that could also be somebody's
//! public key, so that no signer controls a derived address. The canonical
//! bump is the largest one that yields an address; a request is accepted only
//! with the canonical bump and the address it gives.

use crate::address::Address;
use anchor_lang::prelude::Pubkey;
use vstd::prelude::*;
use vstd::slice::slice_to_vec;

verus! {

/// Most seeds a derivation takes, the bump seed among them.
pub const MAX_SEEDS: usize = 16;

/// Most bytes a single seed may hold.
pub const MAX_SEED_LEN: usize = 32;

/// Whether a seed list is short enough, and each seed in it, to be derived from.
pub open spec fn seeds_within_limits(seeds: Seq<Seq<u8>>) -> bool {
    &&& seeds.len() <= MAX_SEEDS
    &&& forall|i: int| 0 <= i < seeds.len() ==> (#[trigger] seeds[i]).len() <= MAX_SEED_LEN
}

/// What `Pubkey::create_program_address` computes from seeds within the limits
/// and a program id: the derived address, or `None` where the digest of the
/// seeds happens to be a point of the curve that public keys lie on.
pub uninterp spec fn program_address(seeds: Seq<Seq<u8>>, program_id: Seq<u8>) -> Option<Seq<u8>>;

/// Calls `Pubkey::create_program_address` of solana-program.
///
/// Trusted: a seed list over the limits is refused; otherwise the outcome is
/// the one named `program_address`, a function of the seeds and the program id
/// alone. The two errors of the outside function both come back as `None`;
/// which of them it was follows from the limits.
#[verifier::external_body]
fn create_program_address(seeds: &Vec<Vec<u8>>, program_id: &Address) -> (r: Option<Address>)
    ensures
        !seeds_within_limits(seeds.deep_view()) ==> r is None,
        seeds_within_limits(seeds.deep_view()) ==> match r {
            Some(address) => program_address(seeds.deep_view(), program_id@) == Some(address@),
            None => program_address(seeds.deep_view(), program_id@) is None,
        },
{
    let slices: Vec<&[u8]> = seeds.iter().map(|seed| seed.as_slice()).collect();
    match Pubkey::create_program_address(&slices, &Pubkey::new_from_array(program_id.bytes)) {
        Ok(key) => Some(Address { bytes: key.to_bytes() }),
        Err(_) => None,
    }
}

/// The seeds followed by the bump seed.
pub open spec fn with_bump(seeds: Seq<Seq<u8>>, bump: u8) -> Seq<Seq<u8>> {
    seeds.push(seq![bump])
}

/// The address that the seeds give with one particular bump, if any.
pub open spec fn bumped_address(seeds: Seq<Seq<u8>>, program_id: Seq<u8>, bump: u8) -> Option<
    Seq<u8>,
> {
    if seeds_within_limits(with_bump(seeds, bump)) {
        program_address(with_bump(seeds, bump), program_id)
    } else {
        None
    }
}

/// Whether `bump` is the canonical bump of the seeds: it is at least 1, it
/// gives an address, and no larger bump does.
pub open spec fn is_canonical_bump(seeds: Seq<Seq<u8>>, program_id: Seq<u8>, bump: u8) -> bool {
    &&& bump >= 1
    &&& bumped_address(seeds, program_id, bump) is Some
    &&& forall|larger: u8| bump < larger ==> bumped_address(seeds, program_id, larger) is None
}

/// The canonical address of the seeds together with the canonical bump, or
/// `None` where no bump from 255 down to 1 gives an address.
pub open spec fn derived(seeds: Seq<Seq<u8>>, program_id: Seq<u8>) -> Option<(Seq<u8>, u8)> {
    if exists|bump: u8| is_canonical_bump(seeds, program_id, bump) {
        let bump = choose|bump: u8| is_canonical_bump(seeds, program_id, bump);
        Some((bumped_address(seeds, program_id, bump)->0, bump))
    } else {
        None
    }
}

/// The canonical address alone.
pub open spec fn derived_address(seeds: Seq<Seq<u8>>, program_id: Seq<u8>) -> Option<Seq<u8>> {
    match derived(seeds, program_id) {
        Some((address, _)) => Some(address),
        None => None,
    }
}

/// At most one bump is canonical.
pub proof fn lemma_canonical_bump_unique(
    seeds: Seq<Seq<u8>>,
    program_id: Seq<u8>,
    first: u8,
    second: u8,
)
    requires
        is_canonical_bump(seeds, program_id, first),
        is_canonical_bump(seeds, program_id, second),
    ensures
        first == second,
{
    if first < second {
        assert(bumped_address(seeds, program_id, second) is None);
    }
    if second < first {
        assert(bumped_address(seeds, program_id, first) is None);
    }
}

/// Derives the canonical address and bump of a seed list under a program.
///
/// Tries the bumps from 255 down to 1 and stops at the first that gives an
/// address. `None` means that the seeds cannot be derived from: there are
/// more than 15 of them, one is longer than 32 bytes, or no bump gives an
/// address.
pub fn derive(seeds: Vec<Vec<u8>>, program_id: &Address) -> (r: Option<(Address, u8)>)
    ensures
        cell_view(r) == derived(seeds.deep_view(), program_id@),
{
    let ghost base = seeds.deep_view();
    let mut trial = seeds;
    let mut bump: u8 = 255;
    while bump >= 1
        invariant
            base == seeds.deep_view(),
            trial.deep_view() == base,
            forall|larger: u8| bump < larger ==> bumped_address(base, program_id@, larger) is None,
        decreases bump,
    {
        let ghost before = trial;
        let mut bump_seed: Vec<u8> = Vec::new();
        bump_seed.push(bump);
        assert(bump_seed.deep_view() =~= seq![bump]);
        trial.push(bump_seed);
        assert(trial.deep_view() =~= with_bump(base, bump)) by {
            assert forall|i: int| 0 <= i < trial@.len() implies trial.deep_view()[i] == with_bump(
                base,
                bump,
            )[i] by {
                if i < before@.len() {
                    assert(trial@[i] == before@[i]);
                    assert(before.deep_view()[i] == before@[i].deep_view());
                }
            }
        }
        let found = create_program_address(&trial, program_id);
        trial.pop();
        assert(trial.deep_view() =~= base) by {
            assert(trial@ =~= before@);
        }
        if let Some(address) = found {
            proof {
                assert(is_canonical_bump(base, program_id@, bump));
                let chosen = choose|b: u8| is_canonical_bump(base, program_id@, b);
                lemma_canonical_bump_unique(base, program_id@, bump, chosen);
            }
            return Some((address, bump));
        }
        bump -= 1;
    }
    assert forall|b: u8| !is_canonical_bump(base, program_id@, b) by {
        if b >= 1 {
            assert(bumped_address(base, program_id@, b) is None);
        }
    }
    None
}

/// A derived cell as a mathematical value: the bytes of its address, and its
/// bump.
pub open spec fn cell_view(cell: Option<(Address, u8)>) -> Option<(Seq<u8>, u8)> {
    match cell {
        Some((address, bump)) => Some((address@, bump)),
        None => None,
    }
}

/// Derivation is deterministic. Whatever `derive` returns for some seeds and
/// a program is the canonical cell of those seeds, a function of the seeds
/// and the program alone: two results for the same seeds and program are the
/// same address and the same bump.
pub proof fn law_derive_is_deterministic(
    seeds: Seq<Seq<u8>>,
    program_id: Address,
    first: Option<(Address, u8)>,
    second: Option<(Address, u8)>,
)
    requires
        cell_view(first) == derived(seeds, program_id@),
        cell_view(second) == derived(seeds, program_id@),
    ensures
        first == second,
{
    if let (Some(one), Some(other)) = (first, second) {
        Address::lemma_view_injective(one.0, other.0);
    }
}

/// Whether `address` and `bump` are the canonical address and bump of the
/// seeds under the program.
pub open spec fn names_cell(
    seeds: Seq<Seq<u8>>,
    program_id: Address,
    address: Address,
    bump: u8,
) -> bool {
    derived(seeds, program_id@) == Some((address@, bump))
}

/// Whether a request that names `address` and `bump` names the derived cell.
/// `cell` is what the derivation gave for the seeds of the request.
pub fn names(cell: &Option<(Address, u8)>, address: &Address, bump: u8) -> (r: bool)
    ensures
        r == (cell_view(*cell) == Some((address@, bump))),
        r == (*cell == Some((*address, bump))),
{
    match cell {
        Some((canonical, canonical_bump)) => {
            proof {
                Address::lemma_view_injective(*canonical, *address);
            }
            *canonical == *address && *canonical_bump == bump
        },
        None => false,
    }
}

/// Whether the address and bump that a request names are the canonical ones
/// of the seeds.
pub fn names_derived_cell(
    seeds: Vec<Vec<u8>>,
    program_id: &Address,
    address: &Address,
    bump: u8,
) -> (r: bool)
    ensures
        r == names_cell(seeds.deep_view(), *program_id, *address, bump),
{
    let cell = derive(seeds, program_id);
    names(&cell, address, bump)
}

proof fn lemma_one_seed(seeds: Vec<Vec<u8>>, first: Seq<u8>)
    requires
        seeds@.len() == 1,
        seeds@[0]@ == first,
    ensures
        seeds.deep_view() == seq![first],
{
    assert(seeds@[0].deep_view() =~= first);
    assert(seeds.deep_view() =~= seq![first]);
}

proof fn lemma_two_seeds(seeds: Vec<Vec<u8>>, first: Seq<u8>, second: Seq<u8>)
    requires
        seeds@.len() == 2,
        seeds@[0]@ == first,
        seeds@[1]@ == second,
    ensures
        seeds.deep_view() == seq![first, second],
{
    assert(seeds@[0].deep_view() =~= first);
    assert(seeds@[1].deep_view() =~= second);
    assert(seeds.deep_view() =~= seq![first, second]);
}

proof fn lemma_three_seeds(seeds: Vec<Vec<u8>>, first: Seq<u8>, second: Seq<u8>, third: Seq<u8>)
    requires
        seeds@.len() == 3,
        seeds@[0]@ == first,
        seeds@[1]@ == second,
        seeds@[2]@ == third,
    ensures
        seeds.deep_view() == seq![first, second, third],
{
    assert(seeds@[0].deep_view() =~= first);
    assert(seeds@[1].deep_view() =~= second);
    assert(seeds@[2].deep_view() =~= third);
    assert(seeds.deep_view() =~= seq![first, second, third]);
}

/// A seed list of one seed.
pub fn one_seed(first: &[u8]) -> (seeds: Vec<Vec<u8>>)
    ensures
        seeds.deep_view() == seq![first@],
{
    let mut seeds: Vec<Vec<u8>> = Vec::new();
    seeds.push(slice_to_vec(first));
    proof {
        lemma_one_seed(seeds, first@);
    }
    seeds
}

/// A seed list of two seeds.
pub fn two_seeds(first: &[u8], second: &[u8]) -> (seeds: Vec<Vec<u8>>)
    ensures
        seeds.deep_view() == seq![first@, second@],
{
    let mut seeds: Vec<Vec<u8>> = Vec::new();
    seeds.push(slice_to_vec(first));
    seeds.push(slice_to_vec(second));
    proof {
        lemma_two_seeds(seeds, first@, second@);
    }
    seeds
}

/// A seed list of three seeds.
pub fn three_seeds(first: &[u8], second: &[u8], third: &[u8]) -> (seeds: Vec<Vec<u8>>)
    ensures
        seeds.deep_view() == seq![first@, second@, third@],
{
    let mut seeds: Vec<Vec<u8>> = Vec::new();
    seeds.push(slice_to_vec(first));
    seeds.push(slice_to_vec(second));
    seeds.push(slice_to_vec(third));
    proof {
        lemma_three_seeds(seeds, first@, second@, third@);
    }
    seeds
}

} // verus!
