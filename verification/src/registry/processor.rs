//! The operations of a registry.
//!
//! Each operation takes the ledger, what the request names, its inputs and,
//! where it stamps a record, the time. It checks the request in a fixed
//! order, reports the first check that fails, and leaves the ledger
//! untouched unless every check passed.

use crate::address::Address;
use crate::derivation::cell_view;
use crate::derivation::derived;
use crate::derivation::derived_address;
use crate::derivation::names;
use crate::error::ErrorCode;
use crate::funds::moved;
use crate::ledger::Ledger;
use crate::ledger::LedgerView;
use crate::registry::config::RegistryConfig;
use crate::registry::config::RegistryConfigView;
use crate::registry::entry::EntryData;
use crate::registry::entry::EntryDataView;
use crate::registry::instruction::AddEntry;
use crate::registry::instruction::AddEntryIx;
use crate::registry::instruction::AddSchema;
use crate::registry::instruction::AddSchemaIx;
use crate::registry::instruction::Init;
use crate::registry::instruction::InitIx;
use crate::registry::instruction::RemoveEntry;
use crate::registry::instruction::RemoveSchema;
use crate::registry::instruction::TransferAuthority;
use crate::registry::instruction::UnverifyEntry;
use crate::registry::instruction::UpdateEntry;
use crate::registry::instruction::UpdateEntryIx;
use crate::registry::instruction::VerifyEntry;
use crate::registry::seeds::config_address;
use crate::registry::seeds::config_seeds;
use crate::registry::seeds::entry_address;
use crate::registry::seeds::entry_seeds;
use crate::registry::seeds::schema_address;
use crate::registry::seeds::schema_seeds;
use crate::schema::SchemaData;
use crate::schema::SchemaDataView;
use vstd::prelude::*;

verus! {

/// The ledger of a registry.
pub type Registry = Ledger<RegistryConfig, EntryData>;

/// The state of a registry as a mathematical value.
pub type RegistryView = LedgerView<RegistryConfigView, EntryDataView>;

/// The address of the cell for the entry with the given key, under the
/// namespace that the configuration names.
pub open spec fn entry_address_in(state: RegistryView, key: Seq<u8>) -> Option<Seq<u8>>
    recommends
        state.config is Some,
{
    derived_address(entry_seeds(state.config->0.namespace(), key), state.program_id@)
}

/// The entry at `address` is where its key says and fits into its cell.
pub open spec fn entry_in_place(state: RegistryView, address: Address) -> bool {
    &&& state.config is Some
    &&& entry_address_in(state, state.entries[address].primary_key) == Some(address@)
    &&& state.entries[address].fits()
}

/// The schema at `address` is where its version says, its version has been
/// handed out, and it fits into its cell.
pub open spec fn schema_in_place(state: RegistryView, address: Address) -> bool {
    &&& state.config is Some
    &&& 1 <= state.schemas[address].version <= state.config->0.schema_version
    &&& derived_address(schema_seeds(state.schemas[address].version), state.program_id@) == Some(
        address@,
    )
    &&& state.schemas[address].fits()
}

/// The state is one that a registry can be in: it is consistent, and every
/// record sits in the cell derived for it and fits there.
pub open spec fn valid(state: RegistryView) -> bool {
    &&& state.consistent()
    &&& state.config is Some ==> derived_address(config_seeds(), state.program_id@) == Some(
        state.config_cell->0@,
    ) && state.config->0.fits()
    &&& forall|address: Address| #[trigger]
        state.entries.contains_key(address) ==> entry_in_place(state, address)
    &&& forall|address: Address| #[trigger]
        state.schemas.contains_key(address) ==> schema_in_place(state, address)
}

/// The configuration that an `init` request asks for.
pub open spec fn init_config(ctx: Init, ix: InitIx) -> RegistryConfigView {
    RegistryConfigView::initial(ctx.authority, ix.entry_seed@, ix.permissionless_add, ix.add_fee)
}

/// How an `init` request ends, where `cell` is what the derivation gave for
/// the configuration cell.
pub open spec fn init_outcome_at(
    state: RegistryView,
    ctx: Init,
    ix: InitIx,
    cell: Option<(Seq<u8>, u8)>,
) -> Result<(), ErrorCode> {
    if cell != Some((ctx.registry_config@, ix.bump)) {
        Err(ErrorCode::MalformedAddress)
    } else if state.config is Some || state.occupied(ctx.registry_config) {
        Err(ErrorCode::AddressAlreadyInUse)
    } else if !init_config(ctx, ix).fits() {
        Err(ErrorCode::StorageExceeded)
    } else {
        Ok(())
    }
}

/// The state after an `init` request, where `cell` is what the derivation
/// gave for the configuration cell.
pub open spec fn init_state_at(
    state: RegistryView,
    ctx: Init,
    ix: InitIx,
    cell: Option<(Seq<u8>, u8)>,
) -> RegistryView {
    if init_outcome_at(state, ctx, ix, cell) is Ok {
        LedgerView {
            config_cell: Some(ctx.registry_config),
            config: Some(init_config(ctx, ix)),
            ..state
        }
    } else {
        state
    }
}

/// How an `init` request ends.
pub open spec fn init_outcome(state: RegistryView, ctx: Init, ix: InitIx) -> Result<(), ErrorCode> {
    init_outcome_at(state, ctx, ix, derived(config_seeds(), state.program_id@))
}

/// The state after an `init` request.
pub open spec fn init_state(state: RegistryView, ctx: Init, ix: InitIx) -> RegistryView {
    init_state_at(state, ctx, ix, derived(config_seeds(), state.program_id@))
}

/// Initialises the registry, given the cell derived for its configuration:
/// creates the configuration, with the signer as authority and no schema
/// yet.
///
/// Refused with `MalformedAddress` unless the request names the address and
/// bump of `cell`; with `AddressAlreadyInUse` if the registry is initialised
/// already or another record lives in that cell; with `StorageExceeded` if
/// the configuration does not fit into its cell.
pub fn init_at(ledger: &mut Registry, ctx: Init, ix: InitIx, cell: Option<(Address, u8)>) -> (r:
    Result<(), ErrorCode>)
    requires
        old(ledger).wf(),
    ensures
        final(ledger).wf(),
        r == init_outcome_at(old(ledger)@, ctx, ix, cell_view(cell)),
        final(ledger)@ == init_state_at(old(ledger)@, ctx, ix, cell_view(cell)),
{
    if !names(&cell, &ctx.registry_config, ix.bump) {
        return Err(ErrorCode::MalformedAddress);
    }
    if ledger.config().is_some() || ledger.occupied(&ctx.registry_config) {
        return Err(ErrorCode::AddressAlreadyInUse);
    }
    let config = RegistryConfig::new(
        ctx.authority,
        ix.entry_seed,
        ix.permissionless_add,
        ix.add_fee,
    );
    if !config.fits() {
        return Err(ErrorCode::StorageExceeded);
    }
    ledger.create_config(ctx.registry_config, config);
    Ok(())
}

/// Initialises the registry: creates its configuration, with the signer as
/// authority and no schema yet.
///
/// Refused with `MalformedAddress` unless the request names the canonical
/// address and bump of the configuration cell; with `AddressAlreadyInUse` if
/// the registry is initialised already or another record lives in that cell;
/// with `StorageExceeded` if the configuration does not fit into its cell.
pub fn init(ledger: &mut Registry, ctx: Init, ix: InitIx) -> (r: Result<(), ErrorCode>)
    requires
        old(ledger).wf(),
    ensures
        final(ledger).wf(),
        r == init_outcome(old(ledger)@, ctx, ix),
        final(ledger)@ == init_state(old(ledger)@, ctx, ix),
        valid(old(ledger)@) ==> valid(final(ledger)@),
{
    let cell = config_address(&ledger.program_id());
    let r = init_at(ledger, ctx, ix, cell);
    proof {
        if valid(old(ledger)@) {
            lemma_init_keeps_valid(old(ledger)@, ctx, ix);
        }
    }
    r
}

/// How a `transfer_authority` request ends.
pub open spec fn transfer_authority_outcome(state: RegistryView, ctx: TransferAuthority) -> Result<
    (),
    ErrorCode,
> {
    if !state.holds_config_at(ctx.registry_config) {
        Err(ErrorCode::RecordNotFound)
    } else if !state.config->0.is_authority(ctx.authority) {
        Err(ErrorCode::InsufficientAuthority)
    } else {
        Ok(())
    }
}

/// The state after a `transfer_authority` request.
pub open spec fn transfer_authority_state(
    state: RegistryView,
    ctx: TransferAuthority,
) -> RegistryView {
    if transfer_authority_outcome(state, ctx) is Ok {
        LedgerView { config: Some(state.config->0.with_authority(ctx.new_authority)), ..state }
    } else {
        state
    }
}

/// Hands the registry over: the co-signer becomes the authority in one step.
///
/// Refused with `RecordNotFound` if the cell named does not hold the
/// configuration, with `InsufficientAuthority` unless the signer is the
/// authority.
pub fn transfer_authority(ledger: &mut Registry, ctx: TransferAuthority) -> (r: Result<
    (),
    ErrorCode,
>)
    requires
        old(ledger).wf(),
    ensures
        final(ledger).wf(),
        r == transfer_authority_outcome(old(ledger)@, ctx),
        final(ledger)@ == transfer_authority_state(old(ledger)@, ctx),
        valid(old(ledger)@) ==> valid(final(ledger)@),
{
    if !ledger.holds_config_at(&ctx.registry_config) {
        return Err(ErrorCode::RecordNotFound);
    }
    let is_authority = match ledger.config() {
        None => false,
        Some(config) => config.is_authority(&ctx.authority),
    };
    if !is_authority {
        return Err(ErrorCode::InsufficientAuthority);
    }
    proof {
        ledger.lemma_consistent();
    }
    match ledger.take_config() {
        None => {},
        Some((address, config)) => {
            let mut config = config;
            config.authority = ctx.new_authority;
            ledger.create_config(address, config);
        },
    }
    proof {
        if valid(old(ledger)@) {
            lemma_transfer_authority_keeps_valid(old(ledger)@, ctx);
        }
    }
    Ok(())
}

/// The entry that an `add_entry` request asks for.
pub open spec fn added_entry(ctx: AddEntry, ix: AddEntryIx, now: i64) -> EntryDataView {
    EntryDataView::created(ix.primary_key@, ctx.creator, ix.schema_version, ix.data@, now)
}

/// How an `add_entry` request ends, where `cell` is what the derivation
/// gave for the key under the namespace of the registry.
pub open spec fn add_entry_outcome_at(
    state: RegistryView,
    ctx: AddEntry,
    ix: AddEntryIx,
    now: i64,
    cell: Option<(Seq<u8>, u8)>,
) -> Result<(), ErrorCode> {
    if !state.holds_config_at(ctx.registry_config) {
        Err(ErrorCode::RecordNotFound)
    } else if cell != Some((ctx.entry@, ix.bump)) {
        Err(ErrorCode::MalformedAddress)
    } else if state.occupied(ctx.entry) {
        Err(ErrorCode::AddressAlreadyInUse)
    } else if !state.config->0.may_add(ctx.creator) {
        Err(ErrorCode::InsufficientAuthority)
    } else if !state.config->0.is_authority(ctx.authority) {
        Err(ErrorCode::InsufficientAuthority)
    } else if state.balance(ctx.creator) < state.config->0.add_fee {
        Err(ErrorCode::InsufficientBalance)
    } else if !added_entry(ctx, ix, now).fits() {
        Err(ErrorCode::StorageExceeded)
    } else {
        Ok(())
    }
}

/// The state after an `add_entry` request, where `cell` is what the
/// derivation gave for the key under the namespace of the registry.
pub open spec fn add_entry_state_at(
    state: RegistryView,
    ctx: AddEntry,
    ix: AddEntryIx,
    now: i64,
    cell: Option<(Seq<u8>, u8)>,
) -> RegistryView {
    if add_entry_outcome_at(state, ctx, ix, now, cell) is Ok {
        LedgerView {
            entries: state.entries.insert(ctx.entry, added_entry(ctx, ix, now)),
            balances: moved(
                state.balances,
                ctx.creator,
                ctx.authority,
                state.config->0.add_fee as nat,
            ),
            ..state
        }
    } else {
        state
    }
}

/// What the derivation gives for the cell of the entry with the given key.
pub open spec fn entry_cell(state: RegistryView, key: Seq<u8>) -> Option<(Seq<u8>, u8)>
    recommends
        state.config is Some,
{
    derived(entry_seeds(state.config->0.namespace(), key), state.program_id@)
}

/// How an `add_entry` request ends.
pub open spec fn add_entry_outcome(
    state: RegistryView,
    ctx: AddEntry,
    ix: AddEntryIx,
    now: i64,
) -> Result<(), ErrorCode> {
    add_entry_outcome_at(state, ctx, ix, now, entry_cell(state, ix.primary_key@))
}

/// The state after an `add_entry` request.
pub open spec fn add_entry_state(
    state: RegistryView,
    ctx: AddEntry,
    ix: AddEntryIx,
    now: i64,
) -> RegistryView {
    add_entry_state_at(state, ctx, ix, now, entry_cell(state, ix.primary_key@))
}

/// Adds an entry, given the cell derived for its key: creates the record in
/// that cell, unverified, and moves the fee from the creator to the
/// authority.
///
/// The checks, in order: `RecordNotFound` if the cell named does not hold
/// the configuration; `MalformedAddress` unless the request names the
/// address and bump of `cell`; `AddressAlreadyInUse` if a record lives there
/// already; `InsufficientAuthority` unless adding is open to everybody or
/// the creator is the authority, and unless the fee goes to the authority;
/// `InsufficientBalance` if the creator holds less than the fee;
/// `StorageExceeded` if the entry does not fit into its cell.
pub fn add_entry_at(
    ledger: &mut Registry,
    ctx: AddEntry,
    ix: AddEntryIx,
    now: i64,
    cell: Option<(Address, u8)>,
) -> (r: Result<(), ErrorCode>)
    requires
        old(ledger).wf(),
    ensures
        final(ledger).wf(),
        r == add_entry_outcome_at(old(ledger)@, ctx, ix, now, cell_view(cell)),
        final(ledger)@ == add_entry_state_at(old(ledger)@, ctx, ix, now, cell_view(cell)),
{
    if !ledger.holds_config_at(&ctx.registry_config) {
        return Err(ErrorCode::RecordNotFound);
    }
    let (may_add, pays_authority, add_fee) = match ledger.config() {
        None => (false, false, 0),
        Some(config) => (
            config.may_add(&ctx.creator),
            config.is_authority(&ctx.authority),
            config.add_fee,
        ),
    };
    if !names(&cell, &ctx.entry, ix.bump) {
        return Err(ErrorCode::MalformedAddress);
    }
    if ledger.occupied(&ctx.entry) {
        return Err(ErrorCode::AddressAlreadyInUse);
    }
    if !may_add || !pays_authority {
        return Err(ErrorCode::InsufficientAuthority);
    }
    if ledger.balance(&ctx.creator) < add_fee {
        return Err(ErrorCode::InsufficientBalance);
    }
    let entry = EntryData::new(ix.primary_key, ctx.creator, ix.schema_version, ix.data, now);
    if !entry.fits() {
        return Err(ErrorCode::StorageExceeded);
    }
    let charged = ledger.charge(&ctx.creator, &ctx.authority, add_fee);
    ledger.put_entry(ctx.entry, entry);
    Ok(())
}

/// Adds an entry: creates the record for a key in the cell derived from the
/// key, unverified, and moves the fee from the creator to the authority.
///
/// The checks, in order: `RecordNotFound` if the cell named does not hold
/// the configuration; `MalformedAddress` unless the request names the
/// canonical address and bump of the key under the namespace of the
/// registry; `AddressAlreadyInUse` if a record lives there already;
/// `InsufficientAuthority` unless adding is open to everybody or the creator
/// is the authority, and unless the fee goes to the authority;
/// `InsufficientBalance` if the creator holds less than the fee;
/// `StorageExceeded` if the entry does not fit into its cell.
pub fn add_entry(ledger: &mut Registry, ctx: AddEntry, ix: AddEntryIx, now: i64) -> (r: Result<
    (),
    ErrorCode,
>)
    requires
        old(ledger).wf(),
    ensures
        final(ledger).wf(),
        r == add_entry_outcome(old(ledger)@, ctx, ix, now),
        final(ledger)@ == add_entry_state(old(ledger)@, ctx, ix, now),
        valid(old(ledger)@) ==> valid(final(ledger)@),
{
    let cell = match ledger.config() {
        None => None,
        Some(config) => entry_address(
            &ledger.program_id(),
            config.entry_seed.as_str(),
            &ix.primary_key,
        ),
    };
    let r = add_entry_at(ledger, ctx, ix, now, cell);
    proof {
        if valid(old(ledger)@) {
            lemma_add_entry_keeps_valid(old(ledger)@, ctx, ix, now);
        }
    }
    r
}

/// How an `update_entry` request ends.
pub open spec fn update_entry_outcome(
    state: RegistryView,
    ctx: UpdateEntry,
    ix: UpdateEntryIx,
    now: i64,
) -> Result<(), ErrorCode> {
    if !state.holds_config_at(ctx.registry_config) || !state.entries.contains_key(ctx.entry) {
        Err(ErrorCode::RecordNotFound)
    } else if !state.entries[ctx.entry].may_update(ctx.creator) {
        Err(ErrorCode::InsufficientAuthority)
    } else if !state.entries[ctx.entry].updated(ix.schema_version, ix.data@, now).fits() {
        Err(ErrorCode::StorageExceeded)
    } else {
        Ok(())
    }
}

/// The state after an `update_entry` request.
pub open spec fn update_entry_state(
    state: RegistryView,
    ctx: UpdateEntry,
    ix: UpdateEntryIx,
    now: i64,
) -> RegistryView {
    if update_entry_outcome(state, ctx, ix, now) is Ok {
        LedgerView {
            entries: state.entries.insert(
                ctx.entry,
                state.entries[ctx.entry].updated(ix.schema_version, ix.data@, now),
            ),
            ..state
        }
    } else {
        state
    }
}

/// Rewrites an entry: overwrites its payload and schema version and stamps
/// the time. Whether the entry is verified does not change.
///
/// Refused with `RecordNotFound` if the cells named do not hold the
/// configuration and an entry, with `InsufficientAuthority` unless the
/// signer created the entry, with `StorageExceeded` if the entry would no
/// longer fit into its cell.
pub fn update_entry(ledger: &mut Registry, ctx: UpdateEntry, ix: UpdateEntryIx, now: i64) -> (r:
    Result<(), ErrorCode>)
    requires
        old(ledger).wf(),
    ensures
        final(ledger).wf(),
        r == update_entry_outcome(old(ledger)@, ctx, ix, now),
        final(ledger)@ == update_entry_state(old(ledger)@, ctx, ix, now),
        valid(old(ledger)@) ==> valid(final(ledger)@),
{
    if !ledger.holds_config_at(&ctx.registry_config) {
        return Err(ErrorCode::RecordNotFound);
    }
    let (may_update, fits) = match ledger.entry(&ctx.entry) {
        None => {
            return Err(ErrorCode::RecordNotFound);
        },
        Some(entry) => (
            entry.may_update(&ctx.creator),
            EntryData::payload_fits(entry.primary_key.len(), ix.data.len()),
        ),
    };
    if !may_update {
        return Err(ErrorCode::InsufficientAuthority);
    }
    if !fits {
        return Err(ErrorCode::StorageExceeded);
    }
    proof {
        ledger.lemma_consistent();
    }
    match ledger.take_entry(&ctx.entry) {
        None => {},
        Some(entry) => {
            let mut entry = entry;
            entry.update(ix.schema_version, ix.data, now);
            ledger.put_entry(ctx.entry, entry);
        },
    }
    proof {
        let expected = update_entry_state(old(ledger)@, ctx, ix, now);
        assert(ledger@.entries =~= expected.entries);
        if valid(old(ledger)@) {
            lemma_rewritten_entry_keeps_valid(old(ledger)@, ctx.entry, ledger@.entries[ctx.entry]);
        }
    }
    Ok(())
}

/// How a request ends that changes whether an entry is verified.
pub open spec fn verification_outcome(
    state: RegistryView,
    registry_config: Address,
    entry: Address,
    signer: Address,
) -> Result<(), ErrorCode> {
    if !state.holds_config_at(registry_config) || !state.entries.contains_key(entry) {
        Err(ErrorCode::RecordNotFound)
    } else if !state.config->0.is_authority(signer) {
        Err(ErrorCode::InsufficientAuthority)
    } else {
        Ok(())
    }
}

/// How a `verify_entry` request ends.
pub open spec fn verify_entry_outcome(state: RegistryView, ctx: VerifyEntry) -> Result<
    (),
    ErrorCode,
> {
    verification_outcome(state, ctx.registry_config, ctx.entry, ctx.authority)
}

/// The state after a `verify_entry` request.
pub open spec fn verify_entry_state(
    state: RegistryView,
    ctx: VerifyEntry,
    now: i64,
) -> RegistryView {
    if verify_entry_outcome(state, ctx) is Ok {
        LedgerView {
            entries: state.entries.insert(ctx.entry, state.entries[ctx.entry].verified(now)),
            ..state
        }
    } else {
        state
    }
}

/// Verifies an entry: marks it as verified and stamps the time. Verifying
/// an entry that is verified already is accepted and renews the stamp.
///
/// Refused with `RecordNotFound` if the cells named do not hold the
/// configuration and an entry, with `InsufficientAuthority` unless the
/// signer is the authority.
pub fn verify_entry(ledger: &mut Registry, ctx: VerifyEntry, now: i64) -> (r: Result<(), ErrorCode>)
    requires
        old(ledger).wf(),
    ensures
        final(ledger).wf(),
        r == verify_entry_outcome(old(ledger)@, ctx),
        final(ledger)@ == verify_entry_state(old(ledger)@, ctx, now),
        valid(old(ledger)@) ==> valid(final(ledger)@),
{
    let checked = check_verification(ledger, &ctx.registry_config, &ctx.entry, &ctx.authority);
    if checked.is_err() {
        return checked;
    }
    proof {
        ledger.lemma_consistent();
    }
    match ledger.take_entry(&ctx.entry) {
        None => {},
        Some(entry) => {
            let mut entry = entry;
            entry.verify(now);
            ledger.put_entry(ctx.entry, entry);
        },
    }
    proof {
        let expected = verify_entry_state(old(ledger)@, ctx, now);
        assert(ledger@.entries =~= expected.entries);
        if valid(old(ledger)@) {
            lemma_rewritten_entry_keeps_valid(old(ledger)@, ctx.entry, ledger@.entries[ctx.entry]);
        }
    }
    Ok(())
}

/// How an `unverify_entry` request ends.
pub open spec fn unverify_entry_outcome(state: RegistryView, ctx: UnverifyEntry) -> Result<
    (),
    ErrorCode,
> {
    verification_outcome(state, ctx.registry_config, ctx.entry, ctx.authority)
}

/// The state after an `unverify_entry` request.
pub open spec fn unverify_entry_state(state: RegistryView, ctx: UnverifyEntry) -> RegistryView {
    if unverify_entry_outcome(state, ctx) is Ok {
        LedgerView {
            entries: state.entries.insert(ctx.entry, state.entries[ctx.entry].unverified()),
            ..state
        }
    } else {
        state
    }
}

/// Withdraws the verification of an entry. The time of the last
/// verification stays on record.
///
/// Refused with `RecordNotFound` if the cells named do not hold the
/// configuration and an entry, with `InsufficientAuthority` unless the
/// signer is the authority.
pub fn unverify_entry(ledger: &mut Registry, ctx: UnverifyEntry) -> (r: Result<(), ErrorCode>)
    requires
        old(ledger).wf(),
    ensures
        final(ledger).wf(),
        r == unverify_entry_outcome(old(ledger)@, ctx),
        final(ledger)@ == unverify_entry_state(old(ledger)@, ctx),
        valid(old(ledger)@) ==> valid(final(ledger)@),
{
    let checked = check_verification(ledger, &ctx.registry_config, &ctx.entry, &ctx.authority);
    if checked.is_err() {
        return checked;
    }
    proof {
        ledger.lemma_consistent();
    }
    match ledger.take_entry(&ctx.entry) {
        None => {},
        Some(entry) => {
            let mut entry = entry;
            entry.unverify();
            ledger.put_entry(ctx.entry, entry);
        },
    }
    proof {
        let expected = unverify_entry_state(old(ledger)@, ctx);
        assert(ledger@.entries =~= expected.entries);
        if valid(old(ledger)@) {
            lemma_rewritten_entry_keeps_valid(old(ledger)@, ctx.entry, ledger@.entries[ctx.entry]);
        }
    }
    Ok(())
}

/// Checks a request that changes whether an entry is verified.
fn check_verification(
    ledger: &Registry,
    registry_config: &Address,
    entry: &Address,
    signer: &Address,
) -> (r: Result<(), ErrorCode>)
    requires
        ledger.wf(),
    ensures
        r == verification_outcome(ledger@, *registry_config, *entry, *signer),
{
    if !ledger.holds_config_at(registry_config) {
        return Err(ErrorCode::RecordNotFound);
    }
    let is_authority = match ledger.config() {
        None => false,
        Some(config) => config.is_authority(signer),
    };
    if ledger.entry(entry).is_none() {
        return Err(ErrorCode::RecordNotFound);
    }
    if !is_authority {
        return Err(ErrorCode::InsufficientAuthority);
    }
    Ok(())
}

/// How a `remove_entry` request ends.
pub open spec fn remove_entry_outcome(state: RegistryView, ctx: RemoveEntry) -> Result<
    (),
    ErrorCode,
> {
    if !state.holds_config_at(ctx.registry_config) || !state.entries.contains_key(ctx.entry) {
        Err(ErrorCode::RecordNotFound)
    } else if !state.entries[ctx.entry].may_remove(state.config->0, ctx.authority) {
        Err(ErrorCode::InsufficientAuthority)
    } else {
        Ok(())
    }
}

/// The state after a `remove_entry` request.
pub open spec fn remove_entry_state(state: RegistryView, ctx: RemoveEntry) -> RegistryView {
    if remove_entry_outcome(state, ctx) is Ok {
        LedgerView { entries: state.entries.remove(ctx.entry), ..state }
    } else {
        state
    }
}

/// Removes an entry for good: its cell is free again.
///
/// Refused with `RecordNotFound` if the cells named do not hold the
/// configuration and an entry, with `InsufficientAuthority` unless the
/// signer created the entry or is the authority.
pub fn remove_entry(ledger: &mut Registry, ctx: RemoveEntry) -> (r: Result<(), ErrorCode>)
    requires
        old(ledger).wf(),
    ensures
        final(ledger).wf(),
        r == remove_entry_outcome(old(ledger)@, ctx),
        final(ledger)@ == remove_entry_state(old(ledger)@, ctx),
        valid(old(ledger)@) ==> valid(final(ledger)@),
{
    if !ledger.holds_config_at(&ctx.registry_config) {
        return Err(ErrorCode::RecordNotFound);
    }
    let may_remove = match ledger.config() {
        None => false,
        Some(config) => match ledger.entry(&ctx.entry) {
            None => {
                return Err(ErrorCode::RecordNotFound);
            },
            Some(entry) => entry.may_remove(config, &ctx.authority),
        },
    };
    if !may_remove {
        return Err(ErrorCode::InsufficientAuthority);
    }
    let removed = ledger.take_entry(&ctx.entry);
    proof {
        if valid(old(ledger)@) {
            lemma_remove_entry_keeps_valid(old(ledger)@, ctx);
        }
    }
    Ok(())
}

/// The schema that an `add_schema` request asks for, under the version that
/// it gets.
pub open spec fn added_schema(version: u8, ix: AddSchemaIx, now: i64) -> SchemaDataView {
    SchemaDataView { created_at: now, version, data: ix.data@ }
}

/// How an `add_schema` request ends, where `cell` is what the derivation
/// gave for the next version.
pub open spec fn add_schema_outcome_at(
    state: RegistryView,
    ctx: AddSchema,
    ix: AddSchemaIx,
    now: i64,
    cell: Option<(Seq<u8>, u8)>,
) -> Result<(), ErrorCode> {
    if !state.holds_config_at(ctx.registry_config) {
        Err(ErrorCode::RecordNotFound)
    } else if state.config->0.next_schema_version() is None {
        Err(ErrorCode::MalformedAddress)
    } else if cell != Some((ctx.schema@, ix.bump)) {
        Err(ErrorCode::MalformedAddress)
    } else if state.occupied(ctx.schema) {
        Err(ErrorCode::AddressAlreadyInUse)
    } else if !state.config->0.is_authority(ctx.creator) {
        Err(ErrorCode::InsufficientAuthority)
    } else if !added_schema(state.config->0.next_schema_version()->0, ix, now).fits() {
        Err(ErrorCode::StorageExceeded)
    } else {
        Ok(())
    }
}

/// The state after an `add_schema` request, where `cell` is what the
/// derivation gave for the next version.
pub open spec fn add_schema_state_at(
    state: RegistryView,
    ctx: AddSchema,
    ix: AddSchemaIx,
    now: i64,
    cell: Option<(Seq<u8>, u8)>,
) -> RegistryView {
    if add_schema_outcome_at(state, ctx, ix, now, cell) is Ok {
        let version = state.config->0.next_schema_version()->0;
        LedgerView {
            config: Some(state.config->0.with_schema_version(version)),
            schemas: state.schemas.insert(ctx.schema, added_schema(version, ix, now)),
            ..state
        }
    } else {
        state
    }
}

/// What the derivation gives for the cell of the next schema.
pub open spec fn next_schema_cell(state: RegistryView) -> Option<(Seq<u8>, u8)>
    recommends
        state.config is Some,
{
    match state.config->0.next_schema_version() {
        Some(version) => derived(schema_seeds(version), state.program_id@),
        None => None,
    }
}

/// How an `add_schema` request ends.
pub open spec fn add_schema_outcome(
    state: RegistryView,
    ctx: AddSchema,
    ix: AddSchemaIx,
    now: i64,
) -> Result<(), ErrorCode> {
    add_schema_outcome_at(state, ctx, ix, now, next_schema_cell(state))
}

/// The state after an `add_schema` request.
pub open spec fn add_schema_state(
    state: RegistryView,
    ctx: AddSchema,
    ix: AddSchemaIx,
    now: i64,
) -> RegistryView {
    add_schema_state_at(state, ctx, ix, now, next_schema_cell(state))
}

/// Adds a schema, given the cell derived for the next version: the schema
/// gets that version, one more than the counter of the registry, and the
/// counter moves up to it. Both change together or not at all.
///
/// The checks, in order: `RecordNotFound` if the cell named does not hold
/// the configuration; `MalformedAddress` if the counter stands at 255, the
/// last version that has an address, and unless the request names the
/// address and bump of `cell`; `AddressAlreadyInUse` if a record lives there
/// already; `InsufficientAuthority` unless the signer is the authority;
/// `StorageExceeded` if the schema does not fit into its cell.
pub fn add_schema_at(
    ledger: &mut Registry,
    ctx: AddSchema,
    ix: AddSchemaIx,
    now: i64,
    cell: Option<(Address, u8)>,
) -> (r: Result<(), ErrorCode>)
    requires
        old(ledger).wf(),
    ensures
        final(ledger).wf(),
        r == add_schema_outcome_at(old(ledger)@, ctx, ix, now, cell_view(cell)),
        final(ledger)@ == add_schema_state_at(old(ledger)@, ctx, ix, now, cell_view(cell)),
{
    if !ledger.holds_config_at(&ctx.registry_config) {
        return Err(ErrorCode::RecordNotFound);
    }
    let (next, is_authority) = match ledger.config() {
        None => (None, false),
        Some(config) => (config.next_schema_version(), config.is_authority(&ctx.creator)),
    };
    let version = match next {
        None => {
            return Err(ErrorCode::MalformedAddress);
        },
        Some(version) => version,
    };
    if !names(&cell, &ctx.schema, ix.bump) {
        return Err(ErrorCode::MalformedAddress);
    }
    if ledger.occupied(&ctx.schema) {
        return Err(ErrorCode::AddressAlreadyInUse);
    }
    if !is_authority {
        return Err(ErrorCode::InsufficientAuthority);
    }
    let schema = SchemaData::new(version, ix.data, now);
    if !schema.fits() {
        return Err(ErrorCode::StorageExceeded);
    }
    ledger.put_schema(ctx.schema, schema);
    proof {
        ledger.lemma_consistent();
    }
    match ledger.take_config() {
        None => {},
        Some((address, config)) => {
            let mut config = config;
            config.schema_version = version;
            ledger.create_config(address, config);
        },
    }
    Ok(())
}

/// Adds a schema: the schema gets the next version, one more than the
/// counter of the registry, and the counter moves up to it. Both change
/// together or not at all.
///
/// The checks, in order: `RecordNotFound` if the cell named does not hold
/// the configuration; `MalformedAddress` unless the request names the
/// canonical address and bump of the next version, which no request does
/// once the counter stands at 255, the last version that has an address;
/// `AddressAlreadyInUse` if a record lives there already;
/// `InsufficientAuthority` unless the signer is the authority;
/// `StorageExceeded` if the schema does not fit into its cell.
pub fn add_schema(ledger: &mut Registry, ctx: AddSchema, ix: AddSchemaIx, now: i64) -> (r: Result<
    (),
    ErrorCode,
>)
    requires
        old(ledger).wf(),
    ensures
        final(ledger).wf(),
        r == add_schema_outcome(old(ledger)@, ctx, ix, now),
        final(ledger)@ == add_schema_state(old(ledger)@, ctx, ix, now),
        valid(old(ledger)@) ==> valid(final(ledger)@),
{
    let next = match ledger.config() {
        None => None,
        Some(config) => config.next_schema_version(),
    };
    let cell = match next {
        None => None,
        Some(version) => schema_address(&ledger.program_id(), version),
    };
    let r = add_schema_at(ledger, ctx, ix, now, cell);
    proof {
        if valid(old(ledger)@) {
            lemma_add_schema_keeps_valid(old(ledger)@, ctx, ix, now);
        }
    }
    r
}

/// How a `remove_schema` request ends.
pub open spec fn remove_schema_outcome(state: RegistryView, ctx: RemoveSchema) -> Result<
    (),
    ErrorCode,
> {
    if !state.holds_config_at(ctx.registry_config) || !state.schemas.contains_key(ctx.schema) {
        Err(ErrorCode::RecordNotFound)
    } else if !state.config->0.is_authority(ctx.authority) {
        Err(ErrorCode::InsufficientAuthority)
    } else {
        Ok(())
    }
}

/// The state after a `remove_schema` request.
pub open spec fn remove_schema_state(state: RegistryView, ctx: RemoveSchema) -> RegistryView {
    if remove_schema_outcome(state, ctx) is Ok {
        LedgerView { schemas: state.schemas.remove(ctx.schema), ..state }
    } else {
        state
    }
}

/// Removes a schema. The counter of the registry stays where it is, so the
/// version of the removed schema is never handed out again.
///
/// Refused with `RecordNotFound` if the cells named do not hold the
/// configuration and a schema, with `InsufficientAuthority` unless the
/// signer is the authority.
pub fn remove_schema(ledger: &mut Registry, ctx: RemoveSchema) -> (r: Result<(), ErrorCode>)
    requires
        old(ledger).wf(),
    ensures
        final(ledger).wf(),
        r == remove_schema_outcome(old(ledger)@, ctx),
        final(ledger)@ == remove_schema_state(old(ledger)@, ctx),
        valid(old(ledger)@) ==> valid(final(ledger)@),
{
    if !ledger.holds_config_at(&ctx.registry_config) {
        return Err(ErrorCode::RecordNotFound);
    }
    let is_authority = match ledger.config() {
        None => false,
        Some(config) => config.is_authority(&ctx.authority),
    };
    if ledger.schema(&ctx.schema).is_none() {
        return Err(ErrorCode::RecordNotFound);
    }
    if !is_authority {
        return Err(ErrorCode::InsufficientAuthority);
    }
    let removed = ledger.take_schema(&ctx.schema);
    proof {
        if valid(old(ledger)@) {
            lemma_remove_schema_keeps_valid(old(ledger)@, ctx);
        }
    }
    Ok(())
}

/// A valid state stays valid when the registry is initialised.
pub proof fn lemma_init_keeps_valid(state: RegistryView, ctx: Init, ix: InitIx)
    requires
        valid(state),
    ensures
        valid(init_state(state, ctx, ix)),
{
    let after = init_state(state, ctx, ix);
    if init_outcome(state, ctx, ix) is Ok {
        assert forall|address: Address| #[trigger]
            after.entries.contains_key(address) implies entry_in_place(after, address) by {
            assert(entry_in_place(state, address));
        }
        assert forall|address: Address| #[trigger]
            after.schemas.contains_key(address) implies schema_in_place(after, address) by {
            assert(schema_in_place(state, address));
        }
    }
}

/// A valid state stays valid when the registry changes hands.
pub proof fn lemma_transfer_authority_keeps_valid(state: RegistryView, ctx: TransferAuthority)
    requires
        valid(state),
    ensures
        valid(transfer_authority_state(state, ctx)),
{
    let after = transfer_authority_state(state, ctx);
    assert forall|address: Address| #[trigger]
        after.entries.contains_key(address) implies entry_in_place(after, address) by {
        assert(entry_in_place(state, address));
    }
    assert forall|address: Address| #[trigger]
        after.schemas.contains_key(address) implies schema_in_place(after, address) by {
        assert(schema_in_place(state, address));
    }
}

/// A valid state stays valid when an entry is added.
pub proof fn lemma_add_entry_keeps_valid(
    state: RegistryView,
    ctx: AddEntry,
    ix: AddEntryIx,
    now: i64,
)
    requires
        valid(state),
    ensures
        valid(add_entry_state(state, ctx, ix, now)),
{
    let after = add_entry_state(state, ctx, ix, now);
    if add_entry_outcome(state, ctx, ix, now) is Ok {
        assert(after.balances.dom() =~= Set::<Address>::full());
        assert forall|address: Address| #[trigger]
            after.entries.contains_key(address) implies entry_in_place(after, address)
            && !after.schemas.contains_key(address) && !after.holds_config_at(address) by {
            if address != ctx.entry {
                assert(state.entries.contains_key(address));
                assert(entry_in_place(state, address));
            }
        }
        assert forall|address: Address| #[trigger]
            after.schemas.contains_key(address) implies schema_in_place(after, address) by {
            assert(schema_in_place(state, address));
        }
    }
}

/// A valid state stays valid when an entry is replaced by one with the same
/// key that fits into the cell.
pub proof fn lemma_rewritten_entry_keeps_valid(
    state: RegistryView,
    address: Address,
    entry: EntryDataView,
)
    requires
        valid(state),
        state.entries.contains_key(address),
        entry.primary_key == state.entries[address].primary_key,
        entry.fits(),
    ensures
        valid(LedgerView { entries: state.entries.insert(address, entry), ..state }),
{
    let after = LedgerView { entries: state.entries.insert(address, entry), ..state };
    assert(entry_in_place(state, address));
    assert forall|other: Address| #[trigger]
        after.entries.contains_key(other) implies entry_in_place(after, other)
        && !after.schemas.contains_key(other) && !after.holds_config_at(other) by {
        assert(state.entries.contains_key(other));
        assert(entry_in_place(state, other));
    }
    assert forall|other: Address| #[trigger]
        after.schemas.contains_key(other) implies schema_in_place(after, other) by {
        assert(schema_in_place(state, other));
    }
}

/// A valid state stays valid when an entry is removed.
pub proof fn lemma_remove_entry_keeps_valid(state: RegistryView, ctx: RemoveEntry)
    requires
        valid(state),
    ensures
        valid(remove_entry_state(state, ctx)),
{
    let after = remove_entry_state(state, ctx);
    assert forall|address: Address| #[trigger]
        after.entries.contains_key(address) implies entry_in_place(after, address)
        && !after.schemas.contains_key(address) && !after.holds_config_at(address) by {
        assert(state.entries.contains_key(address));
        assert(entry_in_place(state, address));
    }
    assert forall|address: Address| #[trigger]
        after.schemas.contains_key(address) implies schema_in_place(after, address) by {
        assert(schema_in_place(state, address));
    }
}

/// A valid state stays valid when a schema is added.
pub proof fn lemma_add_schema_keeps_valid(
    state: RegistryView,
    ctx: AddSchema,
    ix: AddSchemaIx,
    now: i64,
)
    requires
        valid(state),
    ensures
        valid(add_schema_state(state, ctx, ix, now)),
{
    let after = add_schema_state(state, ctx, ix, now);
    if add_schema_outcome(state, ctx, ix, now) is Ok {
        assert forall|address: Address| #[trigger]
            after.entries.contains_key(address) implies entry_in_place(after, address)
            && !after.schemas.contains_key(address) && !after.holds_config_at(address) by {
            assert(entry_in_place(state, address));
        }
        assert forall|address: Address| #[trigger]
            after.schemas.contains_key(address) implies schema_in_place(after, address)
            && !after.holds_config_at(address) by {
            if address != ctx.schema {
                assert(state.schemas.contains_key(address));
                assert(schema_in_place(state, address));
            }
        }
    }
}

/// A valid state stays valid when a schema is removed.
pub proof fn lemma_remove_schema_keeps_valid(state: RegistryView, ctx: RemoveSchema)
    requires
        valid(state),
    ensures
        valid(remove_schema_state(state, ctx)),
{
    let after = remove_schema_state(state, ctx);
    assert forall|address: Address| #[trigger]
        after.entries.contains_key(address) implies entry_in_place(after, address)
        && !after.schemas.contains_key(address) && !after.holds_config_at(address) by {
        assert(entry_in_place(state, address));
    }
    assert forall|address: Address| #[trigger]
        after.schemas.contains_key(address) implies schema_in_place(after, address)
        && !after.holds_config_at(address) by {
        assert(state.schemas.contains_key(address));
        assert(schema_in_place(state, address));
    }
}

} // verus!
