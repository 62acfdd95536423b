//! A registry that only its authority writes: the authority adds, rewrites
//! and removes every entry.

use crate::address::Address;
use crate::derivation::cell_view;
use crate::derivation::derived;
use crate::derivation::names;
use crate::derivation::one_seed;
use crate::derivation::two_seeds;
use crate::error::ErrorCode;
use crate::ledger::Ledger;
use crate::ledger::LedgerView;
use vstd::prelude::*;
use vstd::utf8::encode_utf8;

verus! {

/// The seed of the cell that holds the context of the registry: the bytes of
/// `registry-context`.
pub const CONTEXT_SEED: [u8; 16] = [
    114, 101, 103, 105, 115, 116, 114, 121, 45, 99, 111, 110, 116, 101, 120, 116,
];

/// The first seed of every entry cell: the bytes of `governance-program`.
pub const ENTRY_SEED: [u8; 18] = [
    103, 111, 118, 101, 114, 110, 97, 110, 99, 101, 45, 112, 114, 111, 103, 114, 97, 109,
];

/// Bytes reserved for the cell of an entry.
pub const ENTRY_SPACE: usize = 256;

/// Bytes that a stored entry takes besides its link: a tag of 8, the
/// address, the length prefix of the link and two timestamps.
pub const ENTRY_FIXED_LEN: usize = 60;

/// The control record of the registry.
#[derive(Clone, Copy, Debug)]
pub struct RegistryContextAccount {
    /// Who may write to the registry.
    pub authority: Address,
}

impl View for RegistryContextAccount {
    type V = RegistryContextAccount;

    open spec fn view(&self) -> RegistryContextAccount {
        *self
    }
}

/// One registered record: an address and a link to more about it.
#[derive(Debug)]
pub struct EntryData {
    /// The address that the entry is about.
    pub address: Address,
    /// Where more about the address is found.
    pub additional_data_url: String,
    /// When the entry was created, in seconds.
    pub created_at: i64,
    /// When the link was last written, in seconds.
    pub updated_at: i64,
}

/// An entry as a mathematical value.
pub struct EntryDataView {
    pub address: Address,
    pub additional_data_url: Seq<char>,
    pub created_at: i64,
    pub updated_at: i64,
}

impl View for EntryData {
    type V = EntryDataView;

    open spec fn view(&self) -> EntryDataView {
        EntryDataView {
            address: self.address,
            additional_data_url: self.additional_data_url@,
            created_at: self.created_at,
            updated_at: self.updated_at,
        }
    }
}

impl EntryDataView {
    /// Whether the entry fits into its cell.
    pub open spec fn fits(self) -> bool {
        ENTRY_FIXED_LEN + encode_utf8(self.additional_data_url).len() <= ENTRY_SPACE
    }
}

/// The inputs for initialising the registry.
#[derive(Clone, Copy, Debug)]
pub struct InitIx {
    /// The bump of the context cell.
    pub bump: u8,
}

/// The inputs for adding an entry.
#[derive(Debug)]
pub struct AddEntryIx {
    /// The address that the entry is about.
    pub address: Address,
    /// Where more about the address is found.
    pub additional_data_url: String,
    /// The bump of the cell of the entry.
    pub bump: u8,
    /// The seed from which the cell of the entry is derived.
    pub seed: [u8; 32],
}

/// The inputs for rewriting an entry.
#[derive(Debug)]
pub struct UpdateEntryIx {
    /// The new link.
    pub additional_data_url: String,
}

/// What initialising the registry names.
#[derive(Clone, Copy, Debug)]
pub struct Init {
    /// The cell that is to hold the context.
    pub registry_context: Address,
    /// The signer, who becomes the authority.
    pub authority: Address,
}

/// What handing the registry over names.
#[derive(Clone, Copy, Debug)]
pub struct TransferVerificationAuthority {
    /// The cell of the context.
    pub registry_context: Address,
    /// The signer, who must be the authority.
    pub authority: Address,
    /// The co-signer, who becomes the authority.
    pub new_authority: Address,
}

/// What adding an entry names.
#[derive(Clone, Copy, Debug)]
pub struct AddEntry {
    /// The cell of the context.
    pub registry_context: Address,
    /// The cell that is to hold the entry.
    pub entry: Address,
    /// The signer, who must be the authority.
    pub authority: Address,
}

/// What rewriting an entry names.
#[derive(Clone, Copy, Debug)]
pub struct UpdateEntry {
    /// The cell of the context.
    pub registry_context: Address,
    /// The cell of the entry.
    pub entry: Address,
    /// The signer, who must be the authority.
    pub authority: Address,
}

/// What removing an entry names.
#[derive(Clone, Copy, Debug)]
pub struct RemoveEntry {
    /// The cell of the context.
    pub registry_context: Address,
    /// The cell of the entry.
    pub entry: Address,
    /// The signer, who must be the authority.
    pub authority: Address,
}

/// The ledger of the registry.
pub type Registry = Ledger<RegistryContextAccount, EntryData>;

/// The state of the registry as a mathematical value.
pub type RegistryView = LedgerView<RegistryContextAccount, EntryDataView>;

/// The seeds of the context cell.
pub open spec fn context_seeds() -> Seq<Seq<u8>> {
    seq![CONTEXT_SEED@]
}

/// The seeds of the cell of an entry.
pub open spec fn entry_seeds(seed: [u8; 32]) -> Seq<Seq<u8>> {
    seq![ENTRY_SEED@, seed@]
}

/// The canonical address and bump of the context cell of a program.
pub fn context_address(program_id: &Address) -> (r: Option<(Address, u8)>)
    ensures
        cell_view(r) == derived(context_seeds(), program_id@),
{
    crate::derivation::derive(one_seed(CONTEXT_SEED.as_slice()), program_id)
}

/// The canonical address and bump of the cell for the entry with the given
/// seed.
pub fn entry_address(program_id: &Address, seed: &[u8; 32]) -> (r: Option<(Address, u8)>)
    ensures
        cell_view(r) == derived(entry_seeds(*seed), program_id@),
{
    crate::derivation::derive(two_seeds(ENTRY_SEED.as_slice(), seed.as_slice()), program_id)
}

/// Whether the request is signed by the authority of the registry whose
/// context it names: `RecordNotFound` if the cell named does not hold the
/// context, `InsufficientAuthority` if somebody else signed.
pub open spec fn authority_signed(
    state: RegistryView,
    registry_context: Address,
    signer: Address,
) -> Result<(), ErrorCode> {
    if !state.holds_config_at(registry_context) {
        Err(ErrorCode::RecordNotFound)
    } else if signer != state.config->0.authority {
        Err(ErrorCode::InsufficientAuthority)
    } else {
        Ok(())
    }
}

/// How an `init` request ends, where `cell` is what the derivation gave for
/// the context cell.
pub open spec fn init_outcome_at(
    state: RegistryView,
    ctx: Init,
    ix: InitIx,
    cell: Option<(Seq<u8>, u8)>,
) -> Result<(), ErrorCode> {
    if cell != Some((ctx.registry_context@, ix.bump)) {
        Err(ErrorCode::MalformedAddress)
    } else if state.config is Some || state.occupied(ctx.registry_context) {
        Err(ErrorCode::AddressAlreadyInUse)
    } else {
        Ok(())
    }
}

/// How an `init` request ends.
pub open spec fn init_outcome(state: RegistryView, ctx: Init, ix: InitIx) -> Result<(), ErrorCode> {
    init_outcome_at(state, ctx, ix, derived(context_seeds(), state.program_id@))
}

/// The state after an `init` request, where `cell` is what the derivation
/// gave for the context cell.
pub open spec fn init_state_at(
    state: RegistryView,
    ctx: Init,
    ix: InitIx,
    cell: Option<(Seq<u8>, u8)>,
) -> RegistryView {
    if init_outcome_at(state, ctx, ix, cell) is Ok {
        LedgerView {
            config_cell: Some(ctx.registry_context),
            config: Some(RegistryContextAccount { authority: ctx.authority }),
            ..state
        }
    } else {
        state
    }
}

/// The state after an `init` request.
pub open spec fn init_state(state: RegistryView, ctx: Init, ix: InitIx) -> RegistryView {
    init_state_at(state, ctx, ix, derived(context_seeds(), state.program_id@))
}

/// Initialises the registry with the signer as authority.
///
/// `cell` is what the derivation gave for the context cell.
///
/// Refused with `MalformedAddress` unless the request names the address and
/// bump of `cell`, with `AddressAlreadyInUse` if the registry is initialised
/// already or another record lives in that cell.
pub fn init_at(
    ledger: &mut Registry,
    ctx: Init,
    ix: InitIx,
    cell: Option<(Address, u8)>,
) -> (r: Result<(), ErrorCode>)
    requires
        old(ledger).wf(),
    ensures
        final(ledger).wf(),
        r == init_outcome_at(old(ledger)@, ctx, ix, cell_view(cell)),
        final(ledger)@ == init_state_at(old(ledger)@, ctx, ix, cell_view(cell)),
{
    if !names(&cell, &ctx.registry_context, ix.bump) {
        return Err(ErrorCode::MalformedAddress);
    }
    if ledger.config().is_some() || ledger.occupied(&ctx.registry_context) {
        return Err(ErrorCode::AddressAlreadyInUse);
    }
    ledger.create_config(ctx.registry_context, RegistryContextAccount { authority: ctx.authority });
    Ok(())
}

/// Initialises the registry with the signer as authority.
///
/// Refused with `MalformedAddress` unless the request names the canonical
/// address and bump of the context cell, with `AddressAlreadyInUse` if the
/// registry is initialised already or another record lives in that cell.
pub fn init(ledger: &mut Registry, ctx: Init, ix: InitIx) -> (r: Result<(), ErrorCode>)
    requires
        old(ledger).wf(),
    ensures
        final(ledger).wf(),
        r == init_outcome(old(ledger)@, ctx, ix),
        final(ledger)@ == init_state(old(ledger)@, ctx, ix),
{
    let cell = context_address(&ledger.program_id());
    init_at(ledger, ctx, ix, cell)
}

/// How a `transfer_authority` request ends.
pub open spec fn transfer_authority_outcome(
    state: RegistryView,
    ctx: TransferVerificationAuthority,
) -> Result<(), ErrorCode> {
    authority_signed(state, ctx.registry_context, ctx.authority)
}

/// The state after a `transfer_authority` request.
pub open spec fn transfer_authority_state(
    state: RegistryView,
    ctx: TransferVerificationAuthority,
) -> RegistryView {
    if transfer_authority_outcome(state, ctx) is Ok {
        LedgerView {
            config: Some(RegistryContextAccount { authority: ctx.new_authority }),
            ..state
        }
    } else {
        state
    }
}

/// Hands the registry over: the co-signer becomes the authority.
///
/// Refused with `RecordNotFound` if the cell named does not hold the
/// context, with `InsufficientAuthority` unless the signer is the authority.
pub fn transfer_authority(ledger: &mut Registry, ctx: TransferVerificationAuthority) -> (r: Result<
    (),
    ErrorCode,
>)
    requires
        old(ledger).wf(),
    ensures
        final(ledger).wf(),
        r == transfer_authority_outcome(old(ledger)@, ctx),
        final(ledger)@ == transfer_authority_state(old(ledger)@, ctx),
{
    let signed = check_authority(ledger, &ctx.registry_context, &ctx.authority);
    if signed.is_err() {
        return signed;
    }
    proof {
        ledger.lemma_consistent();
    }
    let taken = ledger.take_config();
    ledger.create_config(
        ctx.registry_context,
        RegistryContextAccount { authority: ctx.new_authority },
    );
    Ok(())
}

/// Checks that the request is signed by the authority of the registry whose
/// context it names.
fn check_authority(ledger: &Registry, registry_context: &Address, signer: &Address) -> (r: Result<
    (),
    ErrorCode,
>)
    requires
        ledger.wf(),
    ensures
        r == authority_signed(ledger@, *registry_context, *signer),
{
    if !ledger.holds_config_at(registry_context) {
        return Err(ErrorCode::RecordNotFound);
    }
    let is_authority = match ledger.config() {
        None => false,
        Some(context) => *signer == context.authority,
    };
    if !is_authority {
        return Err(ErrorCode::InsufficientAuthority);
    }
    Ok(())
}

/// The entry that an `add_entry` request asks for.
pub open spec fn added_entry(ix: AddEntryIx, now: i64) -> EntryDataView {
    EntryDataView {
        address: ix.address,
        additional_data_url: ix.additional_data_url@,
        created_at: now,
        updated_at: now,
    }
}

/// How an `add_entry` request ends, where `cell` is what the derivation gave for
/// the seed of the entry.
pub open spec fn add_entry_outcome_at(
    state: RegistryView,
    ctx: AddEntry,
    ix: AddEntryIx,
    now: i64,
    cell: Option<(Seq<u8>, u8)>,
) -> Result<(), ErrorCode> {
    if !state.holds_config_at(ctx.registry_context) {
        Err(ErrorCode::RecordNotFound)
    } else if cell != Some((ctx.entry@, ix.bump)) {
        Err(ErrorCode::MalformedAddress)
    } else if state.occupied(ctx.entry) {
        Err(ErrorCode::AddressAlreadyInUse)
    } else if ctx.authority != state.config->0.authority {
        Err(ErrorCode::InsufficientAuthority)
    } else if !added_entry(ix, now).fits() {
        Err(ErrorCode::StorageExceeded)
    } else {
        Ok(())
    }
}

/// How an `add_entry` request ends.
pub open spec fn add_entry_outcome(
    state: RegistryView,
    ctx: AddEntry,
    ix: AddEntryIx,
    now: i64,
) -> Result<(), ErrorCode> {
    add_entry_outcome_at(state, ctx, ix, now, derived(entry_seeds(ix.seed), state.program_id@))
}

/// The state after an `add_entry` request, where `cell` is what the derivation
/// gave for the seed of the entry.
pub open spec fn add_entry_state_at(
    state: RegistryView,
    ctx: AddEntry,
    ix: AddEntryIx,
    now: i64,
    cell: Option<(Seq<u8>, u8)>,
) -> RegistryView {
    if add_entry_outcome_at(state, ctx, ix, now, cell) is Ok {
        LedgerView { entries: state.entries.insert(ctx.entry, added_entry(ix, now)), ..state }
    } else {
        state
    }
}

/// The state after an `add_entry` request.
pub open spec fn add_entry_state(
    state: RegistryView,
    ctx: AddEntry,
    ix: AddEntryIx,
    now: i64,
) -> RegistryView {
    add_entry_state_at(state, ctx, ix, now, derived(entry_seeds(ix.seed), state.program_id@))
}

/// Adds an entry, stamped with the time.
///
/// `cell` is what the derivation gave for the seed of the entry.
///
/// The checks, in order: `RecordNotFound` if the cell named does not hold the
/// context; `MalformedAddress` unless the request names the address and bump
/// of `cell`; `AddressAlreadyInUse` if a record lives there already;
/// `InsufficientAuthority` unless the signer is the authority;
/// `StorageExceeded` if the entry does not fit into its cell.
pub fn add_entry_at(
    ledger: &mut Registry,
    ctx: AddEntry,
    ix: AddEntryIx,
    now: i64,
    cell: Option<(Address, u8)>,
) -> (r: Result<(), ErrorCode>)
    requires
        old(ledger).wf(),
    ensures
        final(ledger).wf(),
        r == add_entry_outcome_at(old(ledger)@, ctx, ix, now, cell_view(cell)),
        final(ledger)@ == add_entry_state_at(old(ledger)@, ctx, ix, now, cell_view(cell)),
{
    let signed = check_authority(ledger, &ctx.registry_context, &ctx.authority);
    if let Err(ErrorCode::RecordNotFound) = signed {
        return signed;
    }
    if !names(&cell, &ctx.entry, ix.bump) {
        return Err(ErrorCode::MalformedAddress);
    }
    if ledger.occupied(&ctx.entry) {
        return Err(ErrorCode::AddressAlreadyInUse);
    }
    if signed.is_err() {
        return signed;
    }
    if ix.additional_data_url.as_str().as_bytes().len() > ENTRY_SPACE - ENTRY_FIXED_LEN {
        return Err(ErrorCode::StorageExceeded);
    }
    let entry = EntryData {
        address: ix.address,
        additional_data_url: ix.additional_data_url,
        created_at: now,
        updated_at: now,
    };
    ledger.put_entry(ctx.entry, entry);
    Ok(())
}

/// Adds an entry, stamped with the time.
///
/// The checks, in order: `RecordNotFound` if the cell named does not hold
/// the context; `MalformedAddress` unless the request names the canonical
/// address and bump of its seed; `AddressAlreadyInUse` if a record lives
/// there already; `InsufficientAuthority` unless the signer is the
/// authority; `StorageExceeded` if the entry does not fit into its cell.
pub fn add_entry(ledger: &mut Registry, ctx: AddEntry, ix: AddEntryIx, now: i64) -> (r: Result<
    (),
    ErrorCode,
>)
    requires
        old(ledger).wf(),
    ensures
        final(ledger).wf(),
        r == add_entry_outcome(old(ledger)@, ctx, ix, now),
        final(ledger)@ == add_entry_state(old(ledger)@, ctx, ix, now),
{
    let cell = entry_address(&ledger.program_id(), &ix.seed);
    add_entry_at(ledger, ctx, ix, now, cell)
}

/// How an `update_entry` request ends.
pub open spec fn update_entry_outcome(
    state: RegistryView,
    ctx: UpdateEntry,
    ix: UpdateEntryIx,
) -> Result<(), ErrorCode> {
    if !state.holds_config_at(ctx.registry_context) || !state.entries.contains_key(ctx.entry) {
        Err(ErrorCode::RecordNotFound)
    } else if ctx.authority != state.config->0.authority {
        Err(ErrorCode::InsufficientAuthority)
    } else if ENTRY_FIXED_LEN + encode_utf8(ix.additional_data_url@).len() > ENTRY_SPACE {
        Err(ErrorCode::StorageExceeded)
    } else {
        Ok(())
    }
}

/// The state after an `update_entry` request.
pub open spec fn update_entry_state(
    state: RegistryView,
    ctx: UpdateEntry,
    ix: UpdateEntryIx,
    now: i64,
) -> RegistryView {
    if update_entry_outcome(state, ctx, ix) is Ok {
        LedgerView {
            entries: state.entries.insert(
                ctx.entry,
                EntryDataView {
                    additional_data_url: ix.additional_data_url@,
                    updated_at: now,
                    ..state.entries[ctx.entry]
                },
            ),
            ..state
        }
    } else {
        state
    }
}

/// Rewrites the link of an entry and stamps the time.
///
/// Refused with `RecordNotFound` if the cells named do not hold the context
/// and an entry, with `InsufficientAuthority` unless the signer is the
/// authority, with `StorageExceeded` if the entry would no longer fit into
/// its cell.
pub fn update_entry(ledger: &mut Registry, ctx: UpdateEntry, ix: UpdateEntryIx, now: i64) -> (r:
    Result<(), ErrorCode>)
    requires
        old(ledger).wf(),
    ensures
        final(ledger).wf(),
        r == update_entry_outcome(old(ledger)@, ctx, ix),
        final(ledger)@ == update_entry_state(old(ledger)@, ctx, ix, now),
{
    let signed = check_authority(ledger, &ctx.registry_context, &ctx.authority);
    if let Err(ErrorCode::RecordNotFound) = signed {
        return signed;
    }
    if ledger.entry(&ctx.entry).is_none() {
        return Err(ErrorCode::RecordNotFound);
    }
    if signed.is_err() {
        return signed;
    }
    if ix.additional_data_url.as_str().as_bytes().len() > ENTRY_SPACE - ENTRY_FIXED_LEN {
        return Err(ErrorCode::StorageExceeded);
    }
    proof {
        ledger.lemma_consistent();
    }
    match ledger.take_entry(&ctx.entry) {
        None => {},
        Some(entry) => {
            let mut entry = entry;
            entry.additional_data_url = ix.additional_data_url;
            entry.updated_at = now;
            ledger.put_entry(ctx.entry, entry);
        },
    }
    proof {
        assert(ledger@.entries =~= update_entry_state(old(ledger)@, ctx, ix, now).entries);
    }
    Ok(())
}

/// How a `remove_entry` request ends.
pub open spec fn remove_entry_outcome(state: RegistryView, ctx: RemoveEntry) -> Result<
    (),
    ErrorCode,
> {
    if !state.holds_config_at(ctx.registry_context) || !state.entries.contains_key(ctx.entry) {
        Err(ErrorCode::RecordNotFound)
    } else if ctx.authority != state.config->0.authority {
        Err(ErrorCode::InsufficientAuthority)
    } else {
        Ok(())
    }
}

/// The state after a `remove_entry` request.
pub open spec fn remove_entry_state(state: RegistryView, ctx: RemoveEntry) -> RegistryView {
    if remove_entry_outcome(state, ctx) is Ok {
        LedgerView { entries: state.entries.remove(ctx.entry), ..state }
    } else {
        state
    }
}

/// Removes an entry for good.
///
/// Refused with `RecordNotFound` if the cells named do not hold the context
/// and an entry, with `InsufficientAuthority` unless the signer is the
/// authority.
pub fn remove_entry(ledger: &mut Registry, ctx: RemoveEntry) -> (r: Result<(), ErrorCode>)
    requires
        old(ledger).wf(),
    ensures
        final(ledger).wf(),
        r == remove_entry_outcome(old(ledger)@, ctx),
        final(ledger)@ == remove_entry_state(old(ledger)@, ctx),
{
    let signed = check_authority(ledger, &ctx.registry_context, &ctx.authority);
    if let Err(ErrorCode::RecordNotFound) = signed {
        return signed;
    }
    if ledger.entry(&ctx.entry).is_none() {
        return Err(ErrorCode::RecordNotFound);
    }
    if signed.is_err() {
        return signed;
    }
    let removed = ledger.take_entry(&ctx.entry);
    Ok(())
}

} // verus!
