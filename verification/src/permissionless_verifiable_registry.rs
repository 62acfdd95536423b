//! A registry that anybody adds to and that an authority vouches for: the
//! authority verifies entries; the authority or the creator removes them.

use crate::address::Address;
use crate::derivation::cell_view;
use crate::derivation::derived;
use crate::derivation::names;
use crate::derivation::one_seed;
use crate::derivation::two_seeds;
use crate::error::ErrorCode;
use crate::ledger::Ledger;
use crate::ledger::LedgerView;
use vstd::prelude::*;
use vstd::utf8::encode_utf8;

verus! {

/// The seed of the cell that holds the context of the registry: the bytes of
/// `registry-context`.
pub const CONTEXT_SEED: [u8; 16] = [
    114, 101, 103, 105, 115, 116, 114, 121, 45, 99, 111, 110, 116, 101, 120, 116,
];

/// Bytes reserved for the cell of the context.
pub const CONTEXT_SPACE: usize = 128;

/// Bytes that the stored context takes besides its entry seed: a tag of 8,
/// the authority and the length prefix of the seed.
pub const CONTEXT_FIXED_LEN: usize = 44;

/// Bytes reserved for the cell of an entry.
pub const ENTRY_SPACE: usize = 256;

/// Bytes that a stored entry takes besides its link: a tag of 8, two
/// addresses, the length prefix of the link, the flag and two timestamps.
pub const ENTRY_FIXED_LEN: usize = 93;

/// The control record of the registry.
#[derive(Debug)]
pub struct RegistryContext {
    /// Who may verify entries and remove any of them.
    pub authority: Address,
    /// The namespace under which the addresses of entries are derived.
    pub entry_seed: String,
}

/// The control record as a mathematical value.
pub struct RegistryContextView {
    pub authority: Address,
    pub entry_seed: Seq<char>,
}

impl View for RegistryContext {
    type V = RegistryContextView;

    open spec fn view(&self) -> RegistryContextView {
        RegistryContextView { authority: self.authority, entry_seed: self.entry_seed@ }
    }
}

impl RegistryContextView {
    /// Whether the context fits into its cell.
    pub open spec fn fits(self) -> bool {
        CONTEXT_FIXED_LEN + encode_utf8(self.entry_seed).len() <= CONTEXT_SPACE
    }
}

/// One registered record: an address and a link to what is known about it.
#[derive(Debug)]
pub struct EntryData {
    /// The address that the entry is about.
    pub address: Address,
    /// Where the data about the address is found.
    pub data_url: String,
    /// Who created the entry.
    pub creator: Address,
    /// Whether the authority vouches for the entry.
    pub is_verified: bool,
    /// When the entry was last verified, in seconds.
    pub verified_at: i64,
    /// When the entry was created, in seconds.
    pub created_at: i64,
}

/// An entry as a mathematical value.
pub struct EntryDataView {
    pub address: Address,
    pub data_url: Seq<char>,
    pub creator: Address,
    pub is_verified: bool,
    pub verified_at: i64,
    pub created_at: i64,
}

impl View for EntryData {
    type V = EntryDataView;

    open spec fn view(&self) -> EntryDataView {
        EntryDataView {
            address: self.address,
            data_url: self.data_url@,
            creator: self.creator,
            is_verified: self.is_verified,
            verified_at: self.verified_at,
            created_at: self.created_at,
        }
    }
}

impl EntryDataView {
    /// Whether the entry fits into its cell.
    pub open spec fn fits(self) -> bool {
        ENTRY_FIXED_LEN + encode_utf8(self.data_url).len() <= ENTRY_SPACE
    }
}

/// The inputs for initialising the registry.
#[derive(Debug)]
pub struct InitIx {
    /// The bump of the context cell.
    pub bump: u8,
    /// The namespace under which the addresses of entries are derived.
    pub entry_seed: String,
}

/// The inputs for adding an entry.
#[derive(Debug)]
pub struct AddEntryIx {
    /// The bump of the cell of the entry.
    pub bump: u8,
    /// Where the data about the address is found.
    pub data_url: String,
    /// The address that the entry is about, and the key of the entry.
    pub address: Address,
}

/// What initialising the registry names.
#[derive(Clone, Copy, Debug)]
pub struct Init {
    /// The cell that is to hold the context.
    pub registry_context: Address,
    /// The signer, who becomes the authority.
    pub authority: Address,
}

/// What handing the registry over names.
#[derive(Clone, Copy, Debug)]
pub struct TransferAuthority {
    /// The cell of the context.
    pub registry_context: Address,
    /// The signer, who must be the authority.
    pub authority: Address,
    /// The co-signer, who becomes the authority.
    pub new_authority: Address,
}

/// What adding an entry names.
#[derive(Clone, Copy, Debug)]
pub struct AddEntry {
    /// The cell of the context.
    pub registry_context: Address,
    /// The cell that is to hold the entry.
    pub entry: Address,
    /// The signer: anybody.
    pub creator: Address,
}

/// What verifying an entry names.
#[derive(Clone, Copy, Debug)]
pub struct VerifyEntry {
    /// The cell of the entry.
    pub entry: Address,
    /// The cell of the context.
    pub registry_context: Address,
    /// The signer, who must be the authority.
    pub authority: Address,
}

/// What removing an entry names.
#[derive(Clone, Copy, Debug)]
pub struct RemoveEntry {
    /// The cell of the entry.
    pub entry: Address,
    /// The cell of the context.
    pub registry_context: Address,
    /// The signer, who must be the authority or the creator of the entry.
    pub authority: Address,
}

/// The ledger of the registry.
pub type Registry = Ledger<RegistryContext, EntryData>;

/// The state of the registry as a mathematical value.
pub type RegistryView = LedgerView<RegistryContextView, EntryDataView>;

/// The seeds of the context cell.
pub open spec fn context_seeds() -> Seq<Seq<u8>> {
    seq![CONTEXT_SEED@]
}

/// The seeds of the cell of an entry: the namespace of the registry, then
/// the address that the entry is about.
pub open spec fn entry_seeds(namespace: Seq<char>, address: Address) -> Seq<Seq<u8>> {
    seq![encode_utf8(namespace), address@]
}

/// The canonical address and bump of the context cell of a program.
pub fn context_address(program_id: &Address) -> (r: Option<(Address, u8)>)
    ensures
        cell_view(r) == derived(context_seeds(), program_id@),
{
    crate::derivation::derive(one_seed(CONTEXT_SEED.as_slice()), program_id)
}

/// The canonical address and bump of the cell for the entry about an
/// address, in the registry with the given namespace.
pub fn entry_address(program_id: &Address, namespace: &str, address: &Address) -> (r: Option<
    (Address, u8),
>)
    ensures
        cell_view(r) == derived(entry_seeds(namespace@, *address), program_id@),
{
    crate::derivation::derive(
        two_seeds(namespace.as_bytes(), address.bytes.as_slice()),
        program_id,
    )
}

/// The context that an `init` request asks for.
pub open spec fn init_context(ctx: Init, ix: InitIx) -> RegistryContextView {
    RegistryContextView { authority: ctx.authority, entry_seed: ix.entry_seed@ }
}

/// How an `init` request ends, where `cell` is what the derivation gave for
/// the context cell.
pub open spec fn init_outcome_at(
    state: RegistryView,
    ctx: Init,
    ix: InitIx,
    cell: Option<(Seq<u8>, u8)>,
) -> Result<(), ErrorCode> {
    if cell != Some((ctx.registry_context@, ix.bump)) {
        Err(ErrorCode::MalformedAddress)
    } else if state.config is Some || state.occupied(ctx.registry_context) {
        Err(ErrorCode::AddressAlreadyInUse)
    } else if !init_context(ctx, ix).fits() {
        Err(ErrorCode::StorageExceeded)
    } else {
        Ok(())
    }
}

/// How an `init` request ends.
pub open spec fn init_outcome(state: RegistryView, ctx: Init, ix: InitIx) -> Result<(), ErrorCode> {
    init_outcome_at(state, ctx, ix, derived(context_seeds(), state.program_id@))
}

/// The state after an `init` request, where `cell` is what the derivation
/// gave for the context cell.
pub open spec fn init_state_at(
    state: RegistryView,
    ctx: Init,
    ix: InitIx,
    cell: Option<(Seq<u8>, u8)>,
) -> RegistryView {
    if init_outcome_at(state, ctx, ix, cell) is Ok {
        LedgerView {
            config_cell: Some(ctx.registry_context),
            config: Some(init_context(ctx, ix)),
            ..state
        }
    } else {
        state
    }
}

/// The state after an `init` request.
pub open spec fn init_state(state: RegistryView, ctx: Init, ix: InitIx) -> RegistryView {
    init_state_at(state, ctx, ix, derived(context_seeds(), state.program_id@))
}

/// Initialises the registry with the signer as authority.
///
/// `cell` is what the derivation gave for the context cell.
///
/// Refused with `MalformedAddress` unless the request names the address and
/// bump of `cell`, with `AddressAlreadyInUse` if the registry is initialised
/// already or another record lives in that cell, with `StorageExceeded` if
/// the context does not fit into its cell.
pub fn init_at(
    ledger: &mut Registry,
    ctx: Init,
    ix: InitIx,
    cell: Option<(Address, u8)>,
) -> (r: Result<(), ErrorCode>)
    requires
        old(ledger).wf(),
    ensures
        final(ledger).wf(),
        r == init_outcome_at(old(ledger)@, ctx, ix, cell_view(cell)),
        final(ledger)@ == init_state_at(old(ledger)@, ctx, ix, cell_view(cell)),
{
    if !names(&cell, &ctx.registry_context, ix.bump) {
        return Err(ErrorCode::MalformedAddress);
    }
    if ledger.config().is_some() || ledger.occupied(&ctx.registry_context) {
        return Err(ErrorCode::AddressAlreadyInUse);
    }
    if ix.entry_seed.as_str().as_bytes().len() > CONTEXT_SPACE - CONTEXT_FIXED_LEN {
        return Err(ErrorCode::StorageExceeded);
    }
    ledger.create_config(
        ctx.registry_context,
        RegistryContext { authority: ctx.authority, entry_seed: ix.entry_seed },
    );
    Ok(())
}

/// Initialises the registry with the signer as authority.
///
/// Refused with `MalformedAddress` unless the request names the canonical
/// address and bump of the context cell, with `AddressAlreadyInUse` if the
/// registry is initialised already or another record lives in that cell,
/// with `StorageExceeded` if the context does not fit into its cell.
pub fn init(ledger: &mut Registry, ctx: Init, ix: InitIx) -> (r: Result<(), ErrorCode>)
    requires
        old(ledger).wf(),
    ensures
        final(ledger).wf(),
        r == init_outcome(old(ledger)@, ctx, ix),
        final(ledger)@ == init_state(old(ledger)@, ctx, ix),
{
    let cell = context_address(&ledger.program_id());
    init_at(ledger, ctx, ix, cell)
}

/// How a `transfer_authority` request ends.
pub open spec fn transfer_authority_outcome(state: RegistryView, ctx: TransferAuthority) -> Result<
    (),
    ErrorCode,
> {
    if !state.holds_config_at(ctx.registry_context) {
        Err(ErrorCode::RecordNotFound)
    } else if ctx.authority != state.config->0.authority {
        Err(ErrorCode::InsufficientAuthority)
    } else {
        Ok(())
    }
}

/// The state after a `transfer_authority` request.
pub open spec fn transfer_authority_state(
    state: RegistryView,
    ctx: TransferAuthority,
) -> RegistryView {
    if transfer_authority_outcome(state, ctx) is Ok {
        LedgerView {
            config: Some(RegistryContextView { authority: ctx.new_authority, ..state.config->0 }),
            ..state
        }
    } else {
        state
    }
}

/// Hands the registry over: the co-signer becomes the authority.
///
/// Refused with `RecordNotFound` if the cell named does not hold the
/// context, with `InsufficientAuthority` unless the signer is the authority.
pub fn transfer_authority(ledger: &mut Registry, ctx: TransferAuthority) -> (r: Result<
    (),
    ErrorCode,
>)
    requires
        old(ledger).wf(),
    ensures
        final(ledger).wf(),
        r == transfer_authority_outcome(old(ledger)@, ctx),
        final(ledger)@ == transfer_authority_state(old(ledger)@, ctx),
{
    if !ledger.holds_config_at(&ctx.registry_context) {
        return Err(ErrorCode::RecordNotFound);
    }
    if !signed_by_authority(ledger, &ctx.authority) {
        return Err(ErrorCode::InsufficientAuthority);
    }
    proof {
        ledger.lemma_consistent();
    }
    match ledger.take_config() {
        None => {},
        Some((address, context)) => {
            let mut context = context;
            context.authority = ctx.new_authority;
            ledger.create_config(address, context);
        },
    }
    Ok(())
}

/// Whether `signer` is the authority of the registry.
fn signed_by_authority(ledger: &Registry, signer: &Address) -> (r: bool)
    ensures
        r == (ledger@.config is Some && *signer == ledger@.config->0.authority),
{
    match ledger.config() {
        None => false,
        Some(context) => *signer == context.authority,
    }
}

/// The entry that an `add_entry` request asks for.
pub open spec fn added_entry(ctx: AddEntry, ix: AddEntryIx, now: i64) -> EntryDataView {
    EntryDataView {
        address: ix.address,
        data_url: ix.data_url@,
        creator: ctx.creator,
        is_verified: false,
        verified_at: 0,
        created_at: now,
    }
}

/// How an `add_entry` request ends, where `cell` is what the derivation gave for
/// the address under the namespace of the registry.
pub open spec fn add_entry_outcome_at(
    state: RegistryView,
    ctx: AddEntry,
    ix: AddEntryIx,
    now: i64,
    cell: Option<(Seq<u8>, u8)>,
) -> Result<(), ErrorCode> {
    if !state.holds_config_at(ctx.registry_context) {
        Err(ErrorCode::RecordNotFound)
    } else if cell != Some((ctx.entry@, ix.bump)) {
        Err(ErrorCode::MalformedAddress)
    } else if state.occupied(ctx.entry) {
        Err(ErrorCode::AddressAlreadyInUse)
    } else if !added_entry(ctx, ix, now).fits() {
        Err(ErrorCode::StorageExceeded)
    } else {
        Ok(())
    }
}

/// How an `add_entry` request ends.
pub open spec fn add_entry_outcome(
    state: RegistryView,
    ctx: AddEntry,
    ix: AddEntryIx,
    now: i64,
) -> Result<(), ErrorCode> {
    add_entry_outcome_at(
        state,
        ctx,
        ix,
        now,
        derived(entry_seeds(state.config->0.entry_seed, ix.address),
        state.program_id@),
    )
}

/// The state after an `add_entry` request, where `cell` is what the derivation
/// gave for the address under the namespace of the registry.
pub open spec fn add_entry_state_at(
    state: RegistryView,
    ctx: AddEntry,
    ix: AddEntryIx,
    now: i64,
    cell: Option<(Seq<u8>, u8)>,
) -> RegistryView {
    if add_entry_outcome_at(state, ctx, ix, now, cell) is Ok {
        LedgerView { entries: state.entries.insert(ctx.entry, added_entry(ctx, ix, now)), ..state }
    } else {
        state
    }
}

/// The state after an `add_entry` request.
pub open spec fn add_entry_state(
    state: RegistryView,
    ctx: AddEntry,
    ix: AddEntryIx,
    now: i64,
) -> RegistryView {
    add_entry_state_at(
        state,
        ctx,
        ix,
        now,
        derived(entry_seeds(state.config->0.entry_seed, ix.address),
        state.program_id@),
    )
}

/// Adds an entry about an address, unverified and stamped with the time.
/// Anybody may do so.
///
/// `cell` is what the derivation gave for the address under the namespace of
/// the registry.
///
/// The checks, in order: `RecordNotFound` if the cell named does not hold the
/// context; `MalformedAddress` unless the request names the address and bump
/// of `cell`; `AddressAlreadyInUse` if a record lives there already;
/// `StorageExceeded` if the entry does not fit into its cell.
pub fn add_entry_at(
    ledger: &mut Registry,
    ctx: AddEntry,
    ix: AddEntryIx,
    now: i64,
    cell: Option<(Address, u8)>,
) -> (r: Result<(), ErrorCode>)
    requires
        old(ledger).wf(),
    ensures
        final(ledger).wf(),
        r == add_entry_outcome_at(old(ledger)@, ctx, ix, now, cell_view(cell)),
        final(ledger)@ == add_entry_state_at(old(ledger)@, ctx, ix, now, cell_view(cell)),
{
    if !ledger.holds_config_at(&ctx.registry_context) {
        return Err(ErrorCode::RecordNotFound);
    }
    if !names(&cell, &ctx.entry, ix.bump) {
        return Err(ErrorCode::MalformedAddress);
    }
    if ledger.occupied(&ctx.entry) {
        return Err(ErrorCode::AddressAlreadyInUse);
    }
    if ix.data_url.as_str().as_bytes().len() > ENTRY_SPACE - ENTRY_FIXED_LEN {
        return Err(ErrorCode::StorageExceeded);
    }
    let entry = EntryData {
        address: ix.address,
        data_url: ix.data_url,
        creator: ctx.creator,
        is_verified: false,
        verified_at: 0,
        created_at: now,
    };
    ledger.put_entry(ctx.entry, entry);
    Ok(())
}

/// Adds an entry about an address, unverified and stamped with the time.
/// Anybody may do so.
///
/// The checks, in order: `RecordNotFound` if the cell named does not hold
/// the context; `MalformedAddress` unless the request names the canonical
/// address and bump of the address under the namespace of the registry;
/// `AddressAlreadyInUse` if a record lives there already; `StorageExceeded`
/// if the entry does not fit into its cell.
pub fn add_entry(ledger: &mut Registry, ctx: AddEntry, ix: AddEntryIx, now: i64) -> (r: Result<
    (),
    ErrorCode,
>)
    requires
        old(ledger).wf(),
    ensures
        final(ledger).wf(),
        r == add_entry_outcome(old(ledger)@, ctx, ix, now),
        final(ledger)@ == add_entry_state(old(ledger)@, ctx, ix, now),
{
    let cell = match ledger.config() {
        None => None,
        Some(context) => entry_address(
            &ledger.program_id(),
            context.entry_seed.as_str(),
            &ix.address,
        ),
    };
    add_entry_at(ledger, ctx, ix, now, cell)
}

/// How a `verify_entry` request ends.
pub open spec fn verify_entry_outcome(state: RegistryView, ctx: VerifyEntry) -> Result<
    (),
    ErrorCode,
> {
    if !state.entries.contains_key(ctx.entry) || !state.holds_config_at(ctx.registry_context) {
        Err(ErrorCode::RecordNotFound)
    } else if ctx.authority != state.config->0.authority {
        Err(ErrorCode::InsufficientAuthority)
    } else {
        Ok(())
    }
}

/// The state after a `verify_entry` request.
pub open spec fn verify_entry_state(
    state: RegistryView,
    ctx: VerifyEntry,
    now: i64,
) -> RegistryView {
    if verify_entry_outcome(state, ctx) is Ok {
        LedgerView {
            entries: state.entries.insert(
                ctx.entry,
                EntryDataView { is_verified: true, verified_at: now, ..state.entries[ctx.entry] },
            ),
            ..state
        }
    } else {
        state
    }
}

/// Verifies an entry: marks it as verified and stamps the time.
///
/// Refused with `RecordNotFound` if the cells named do not hold an entry
/// and the context, with `InsufficientAuthority` unless the signer is the
/// authority.
pub fn verify_entry(ledger: &mut Registry, ctx: VerifyEntry, now: i64) -> (r: Result<(), ErrorCode>)
    requires
        old(ledger).wf(),
    ensures
        final(ledger).wf(),
        r == verify_entry_outcome(old(ledger)@, ctx),
        final(ledger)@ == verify_entry_state(old(ledger)@, ctx, now),
{
    if ledger.entry(&ctx.entry).is_none() || !ledger.holds_config_at(&ctx.registry_context) {
        return Err(ErrorCode::RecordNotFound);
    }
    if !signed_by_authority(ledger, &ctx.authority) {
        return Err(ErrorCode::InsufficientAuthority);
    }
    proof {
        ledger.lemma_consistent();
    }
    match ledger.take_entry(&ctx.entry) {
        None => {},
        Some(entry) => {
            let mut entry = entry;
            entry.is_verified = true;
            entry.verified_at = now;
            ledger.put_entry(ctx.entry, entry);
        },
    }
    proof {
        assert(ledger@.entries =~= verify_entry_state(old(ledger)@, ctx, now).entries);
    }
    Ok(())
}

/// How a `remove_entry` request ends.
pub open spec fn remove_entry_outcome(state: RegistryView, ctx: RemoveEntry) -> Result<
    (),
    ErrorCode,
> {
    if !state.entries.contains_key(ctx.entry) || !state.holds_config_at(ctx.registry_context) {
        Err(ErrorCode::RecordNotFound)
    } else if ctx.authority != state.config->0.authority && ctx.authority
        != state.entries[ctx.entry].creator {
        Err(ErrorCode::InsufficientAuthority)
    } else {
        Ok(())
    }
}

/// The state after a `remove_entry` request.
pub open spec fn remove_entry_state(state: RegistryView, ctx: RemoveEntry) -> RegistryView {
    if remove_entry_outcome(state, ctx) is Ok {
        LedgerView { entries: state.entries.remove(ctx.entry), ..state }
    } else {
        state
    }
}

/// Removes an entry for good.
///
/// Refused with `RecordNotFound` if the cells named do not hold an entry
/// and the context, with `InsufficientAuthority` unless the signer is the
/// authority or created the entry.
pub fn remove_entry(ledger: &mut Registry, ctx: RemoveEntry) -> (r: Result<(), ErrorCode>)
    requires
        old(ledger).wf(),
    ensures
        final(ledger).wf(),
        r == remove_entry_outcome(old(ledger)@, ctx),
        final(ledger)@ == remove_entry_state(old(ledger)@, ctx),
{
    let is_creator = match ledger.entry(&ctx.entry) {
        None => {
            return Err(ErrorCode::RecordNotFound);
        },
        Some(entry) => ctx.authority == entry.creator,
    };
    if !ledger.holds_config_at(&ctx.registry_context) {
        return Err(ErrorCode::RecordNotFound);
    }
    if !signed_by_authority(ledger, &ctx.authority) && !is_creator {
        return Err(ErrorCode::InsufficientAuthority);
    }
    let removed = ledger.take_entry(&ctx.entry);
    Ok(())
}

} // verus!
