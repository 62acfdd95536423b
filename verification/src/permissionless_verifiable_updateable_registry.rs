//! A registry under a write gate whose entries can be changed: whoever the
//! gate admits adds entries and rewrites them; the authority verifies them;
//! the authority or the creator removes them.

use crate::address::Address;
use crate::derivation::cell_view;
use crate::derivation::derived;
use crate::derivation::names;
use crate::derivation::one_seed;
use crate::derivation::two_seeds;
use crate::error::ErrorCode;
use crate::ledger::Ledger;
use crate::ledger::LedgerView;
use vstd::prelude::*;
use vstd::utf8::encode_utf8;

verus! {

/// The seed of the cell that holds the configuration: the bytes of
/// `registry-config`.
pub const CONFIG_SEED: [u8; 15] = [
    114, 101, 103, 105, 115, 116, 114, 121, 45, 99, 111, 110, 102, 105, 103,
];

/// Bytes reserved for the cell of the configuration.
pub const CONFIG_SPACE: usize = 128;

/// Bytes that the stored configuration takes besides its entry seed: a tag
/// of 8, the authority, the length prefix of the seed and the flag.
pub const CONFIG_FIXED_LEN: usize = 45;

/// Bytes reserved for the cell of an entry.
pub const ENTRY_SPACE: usize = 1024;

/// Bytes that a stored entry takes besides its payload: a tag of 8, two
/// addresses, three timestamps, the flag, the schema version and the length
/// prefix.
pub const ENTRY_FIXED_LEN: usize = 102;

/// The control record of the registry.
#[derive(Debug)]
pub struct RegistryConfig {
    /// Who may verify entries and remove any of them.
    pub authority: Address,
    /// The namespace under which the addresses of entries are derived.
    pub entry_seed: String,
    /// Whether anybody may write entries, or the authority alone.
    pub permissionless_add: bool,
}

/// The control record as a mathematical value.
pub struct RegistryConfigView {
    pub authority: Address,
    pub entry_seed: Seq<char>,
    pub permissionless_add: bool,
}

impl View for RegistryConfig {
    type V = RegistryConfigView;

    open spec fn view(&self) -> RegistryConfigView {
        RegistryConfigView {
            authority: self.authority,
            entry_seed: self.entry_seed@,
            permissionless_add: self.permissionless_add,
        }
    }
}

impl RegistryConfigView {
    /// Whether the configuration fits into its cell.
    pub open spec fn fits(self) -> bool {
        CONFIG_FIXED_LEN + encode_utf8(self.entry_seed).len() <= CONFIG_SPACE
    }

    /// The write gate: whether `signer` may add and rewrite entries.
    pub open spec fn may_write(self, signer: Address) -> bool {
        self.permissionless_add || signer == self.authority
    }
}

impl RegistryConfig {
    /// The write gate: whether `signer` may add and rewrite entries.
    pub fn may_write(&self, signer: &Address) -> (r: bool)
        ensures
            r == self@.may_write(*signer),
    {
        self.permissionless_add || *signer == self.authority
    }
}

/// One registered record about an address.
#[derive(Debug)]
pub struct EntryData {
    /// The address that the entry is about, and the key of the entry.
    pub address: Address,
    /// Who created the entry.
    pub creator: Address,
    /// When the entry was created, in seconds.
    pub created_at: i64,
    /// When the payload was last written, in seconds.
    pub updated_at: i64,
    /// Whether the authority vouches for the entry.
    pub is_verified: bool,
    /// When the entry was last verified, in seconds.
    pub verified_at: i64,
    /// The schema that the payload follows.
    pub schema_version: u8,
    /// The payload.
    pub data: String,
}

/// An entry as a mathematical value.
pub struct EntryDataView {
    pub address: Address,
    pub creator: Address,
    pub created_at: i64,
    pub updated_at: i64,
    pub is_verified: bool,
    pub verified_at: i64,
    pub schema_version: u8,
    pub data: Seq<char>,
}

impl View for EntryData {
    type V = EntryDataView;

    open spec fn view(&self) -> EntryDataView {
        EntryDataView {
            address: self.address,
            creator: self.creator,
            created_at: self.created_at,
            updated_at: self.updated_at,
            is_verified: self.is_verified,
            verified_at: self.verified_at,
            schema_version: self.schema_version,
            data: self.data@,
        }
    }
}

impl EntryDataView {
    /// Whether the entry fits into its cell.
    pub open spec fn fits(self) -> bool {
        ENTRY_FIXED_LEN + encode_utf8(self.data).len() <= ENTRY_SPACE
    }
}

/// The inputs for initialising the registry.
#[derive(Debug)]
pub struct InitIx {
    /// The bump of the configuration cell.
    pub bump: u8,
    /// The namespace under which the addresses of entries are derived.
    pub entry_seed: String,
    /// Whether anybody may write entries, or the authority alone.
    pub permissionless_add: bool,
}

/// The inputs for adding an entry.
#[derive(Debug)]
pub struct AddEntryIx {
    /// The bump of the cell of the entry.
    pub bump: u8,
    /// The address that the entry is about, and the key of the entry.
    pub address: Address,
    /// The schema that the payload follows.
    pub schema_version: u8,
    /// The payload.
    pub data: String,
}

/// The inputs for rewriting an entry.
#[derive(Debug)]
pub struct UpdateEntryIx {
    /// The schema that the new payload follows.
    pub schema_version: u8,
    /// The new payload.
    pub data: String,
}

/// What initialising the registry names.
#[derive(Clone, Copy, Debug)]
pub struct Init {
    /// The cell that is to hold the configuration.
    pub registry_config: Address,
    /// The signer, who becomes the authority.
    pub authority: Address,
}

/// What handing the registry over names.
#[derive(Clone, Copy, Debug)]
pub struct TransferAuthority {
    /// The cell of the configuration.
    pub registry_config: Address,
    /// The signer, who must be the authority.
    pub authority: Address,
    /// The co-signer, who becomes the authority.
    pub new_authority: Address,
}

/// What adding an entry names.
#[derive(Clone, Copy, Debug)]
pub struct AddEntry {
    /// The cell of the configuration.
    pub registry_config: Address,
    /// The cell that is to hold the entry.
    pub entry: Address,
    /// The signer, whom the write gate must admit.
    pub creator: Address,
}

/// What rewriting an entry names.
#[derive(Clone, Copy, Debug)]
pub struct UpdateEntry {
    /// The cell of the configuration.
    pub registry_config: Address,
    /// The cell of the entry.
    pub entry: Address,
    /// The signer, whom the write gate must admit.
    pub creator: Address,
}

/// What verifying an entry names.
#[derive(Clone, Copy, Debug)]
pub struct VerifyEntry {
    /// The cell of the configuration.
    pub registry_config: Address,
    /// The cell of the entry.
    pub entry: Address,
    /// The signer, who must be the authority.
    pub authority: Address,
}

/// What withdrawing the verification of an entry names.
#[derive(Clone, Copy, Debug)]
pub struct UnverifyEntry {
    /// The cell of the configuration.
    pub registry_config: Address,
    /// The cell of the entry.
    pub entry: Address,
    /// The signer, who must be the authority.
    pub authority: Address,
}

/// What removing an entry names.
#[derive(Clone, Copy, Debug)]
pub struct RemoveEntry {
    /// The cell of the configuration.
    pub registry_config: Address,
    /// The cell of the entry.
    pub entry: Address,
    /// The signer, who must be the authority or the creator of the entry.
    pub authority: Address,
}

/// The ledger of the registry.
pub type Registry = Ledger<RegistryConfig, EntryData>;

/// The state of the registry as a mathematical value.
pub type RegistryView = LedgerView<RegistryConfigView, EntryDataView>;

/// The seeds of the configuration cell.
pub open spec fn config_seeds() -> Seq<Seq<u8>> {
    seq![CONFIG_SEED@]
}

/// The seeds of the cell of an entry: the namespace of the registry, then
/// the address that the entry is about.
pub open spec fn entry_seeds(namespace: Seq<char>, address: Address) -> Seq<Seq<u8>> {
    seq![encode_utf8(namespace), address@]
}

/// The canonical address and bump of the configuration cell of a program.
pub fn config_address(program_id: &Address) -> (r: Option<(Address, u8)>)
    ensures
        cell_view(r) == derived(config_seeds(), program_id@),
{
    crate::derivation::derive(one_seed(CONFIG_SEED.as_slice()), program_id)
}

/// The canonical address and bump of the cell for the entry about an
/// address, in the registry with the given namespace.
pub fn entry_address(program_id: &Address, namespace: &str, address: &Address) -> (r: Option<
    (Address, u8),
>)
    ensures
        cell_view(r) == derived(entry_seeds(namespace@, *address), program_id@),
{
    crate::derivation::derive(
        two_seeds(namespace.as_bytes(), address.bytes.as_slice()),
        program_id,
    )
}

/// The configuration that an `init` request asks for.
pub open spec fn init_config(ctx: Init, ix: InitIx) -> RegistryConfigView {
    RegistryConfigView {
        authority: ctx.authority,
        entry_seed: ix.entry_seed@,
        permissionless_add: ix.permissionless_add,
    }
}

/// How an `init` request ends, where `cell` is what the derivation gave for
/// the configuration cell.
pub open spec fn init_outcome_at(
    state: RegistryView,
    ctx: Init,
    ix: InitIx,
    cell: Option<(Seq<u8>, u8)>,
) -> Result<(), ErrorCode> {
    if cell != Some((ctx.registry_config@, ix.bump)) {
        Err(ErrorCode::MalformedAddress)
    } else if state.config is Some || state.occupied(ctx.registry_config) {
        Err(ErrorCode::AddressAlreadyInUse)
    } else if !init_config(ctx, ix).fits() {
        Err(ErrorCode::StorageExceeded)
    } else {
        Ok(())
    }
}

/// The state after an `init` request, where `cell` is what the derivation
/// gave for the configuration cell.
pub open spec fn init_state_at(
    state: RegistryView,
    ctx: Init,
    ix: InitIx,
    cell: Option<(Seq<u8>, u8)>,
) -> RegistryView {
    if init_outcome_at(state, ctx, ix, cell) is Ok {
        LedgerView {
            config_cell: Some(ctx.registry_config),
            config: Some(init_config(ctx, ix)),
            ..state
        }
    } else {
        state
    }
}

/// How an `init` request ends.
pub open spec fn init_outcome(state: RegistryView, ctx: Init, ix: InitIx) -> Result<(), ErrorCode> {
    init_outcome_at(state, ctx, ix, derived(config_seeds(), state.program_id@))
}

/// The state after an `init` request.
pub open spec fn init_state(state: RegistryView, ctx: Init, ix: InitIx) -> RegistryView {
    init_state_at(state, ctx, ix, derived(config_seeds(), state.program_id@))
}

/// Initialises the registry with the signer as authority, given the cell
/// derived for its configuration.
///
/// Refused with `MalformedAddress` unless the request names the address and
/// bump of `cell`, with `AddressAlreadyInUse` if the registry is
/// initialised already or another record lives in that cell, with
/// `StorageExceeded` if the configuration does not fit into its cell.
pub fn init_at(ledger: &mut Registry, ctx: Init, ix: InitIx, cell: Option<(Address, u8)>) -> (r:
    Result<(), ErrorCode>)
    requires
        old(ledger).wf(),
    ensures
        final(ledger).wf(),
        r == init_outcome_at(old(ledger)@, ctx, ix, cell_view(cell)),
        final(ledger)@ == init_state_at(old(ledger)@, ctx, ix, cell_view(cell)),
{
    if !names(&cell, &ctx.registry_config, ix.bump) {
        return Err(ErrorCode::MalformedAddress);
    }
    if ledger.config().is_some() || ledger.occupied(&ctx.registry_config) {
        return Err(ErrorCode::AddressAlreadyInUse);
    }
    if ix.entry_seed.as_str().as_bytes().len() > CONFIG_SPACE - CONFIG_FIXED_LEN {
        return Err(ErrorCode::StorageExceeded);
    }
    ledger.create_config(
        ctx.registry_config,
        RegistryConfig {
            authority: ctx.authority,
            entry_seed: ix.entry_seed,
            permissionless_add: ix.permissionless_add,
        },
    );
    Ok(())
}

/// Initialises the registry with the signer as authority.
///
/// Refused with `MalformedAddress` unless the request names the canonical
/// address and bump of the configuration cell, with `AddressAlreadyInUse`
/// if the registry is initialised already or another record lives in that
/// cell, with `StorageExceeded` if the configuration does not fit into its
/// cell.
pub fn init(ledger: &mut Registry, ctx: Init, ix: InitIx) -> (r: Result<(), ErrorCode>)
    requires
        old(ledger).wf(),
    ensures
        final(ledger).wf(),
        r == init_outcome(old(ledger)@, ctx, ix),
        final(ledger)@ == init_state(old(ledger)@, ctx, ix),
{
    let cell = config_address(&ledger.program_id());
    init_at(ledger, ctx, ix, cell)
}

/// How a request of the authority ends that names the configuration alone.
pub open spec fn transfer_authority_outcome(state: RegistryView, ctx: TransferAuthority) -> Result<
    (),
    ErrorCode,
> {
    if !state.holds_config_at(ctx.registry_config) {
        Err(ErrorCode::RecordNotFound)
    } else if ctx.authority != state.config->0.authority {
        Err(ErrorCode::InsufficientAuthority)
    } else {
        Ok(())
    }
}

/// The state after a `transfer_authority` request.
pub open spec fn transfer_authority_state(
    state: RegistryView,
    ctx: TransferAuthority,
) -> RegistryView {
    if transfer_authority_outcome(state, ctx) is Ok {
        LedgerView {
            config: Some(RegistryConfigView { authority: ctx.new_authority, ..state.config->0 }),
            ..state
        }
    } else {
        state
    }
}

/// Hands the registry over: the co-signer becomes the authority.
///
/// Refused with `RecordNotFound` if the cell named does not hold the
/// configuration, with `InsufficientAuthority` unless the signer is the
/// authority.
pub fn transfer_authority(ledger: &mut Registry, ctx: TransferAuthority) -> (r: Result<
    (),
    ErrorCode,
>)
    requires
        old(ledger).wf(),
    ensures
        final(ledger).wf(),
        r == transfer_authority_outcome(old(ledger)@, ctx),
        final(ledger)@ == transfer_authority_state(old(ledger)@, ctx),
{
    if !ledger.holds_config_at(&ctx.registry_config) {
        return Err(ErrorCode::RecordNotFound);
    }
    if !signed_by_authority(ledger, &ctx.authority) {
        return Err(ErrorCode::InsufficientAuthority);
    }
    proof {
        ledger.lemma_consistent();
    }
    match ledger.take_config() {
        None => {},
        Some((address, config)) => {
            let mut config = config;
            config.authority = ctx.new_authority;
            ledger.create_config(address, config);
        },
    }
    Ok(())
}

/// Whether `signer` is the authority of the registry.
fn signed_by_authority(ledger: &Registry, signer: &Address) -> (r: bool)
    ensures
        r == (ledger@.config is Some && *signer == ledger@.config->0.authority),
{
    match ledger.config() {
        None => false,
        Some(config) => *signer == config.authority,
    }
}

/// Whether the write gate of the registry admits `signer`.
fn admitted_by_write_gate(ledger: &Registry, signer: &Address) -> (r: bool)
    ensures
        r == (ledger@.config is Some && ledger@.config->0.may_write(*signer)),
{
    match ledger.config() {
        None => false,
        Some(config) => config.may_write(signer),
    }
}

/// The entry that an `add_entry` request asks for.
pub open spec fn added_entry(ctx: AddEntry, ix: AddEntryIx, now: i64) -> EntryDataView {
    EntryDataView {
        address: ix.address,
        creator: ctx.creator,
        created_at: now,
        updated_at: now,
        is_verified: false,
        verified_at: 0,
        schema_version: ix.schema_version,
        data: ix.data@,
    }
}

/// How an `add_entry` request ends, where `cell` is what the derivation
/// gave for the address under the namespace of the registry.
pub open spec fn add_entry_outcome_at(
    state: RegistryView,
    ctx: AddEntry,
    ix: AddEntryIx,
    now: i64,
    cell: Option<(Seq<u8>, u8)>,
) -> Result<(), ErrorCode> {
    if !state.holds_config_at(ctx.registry_config) {
        Err(ErrorCode::RecordNotFound)
    } else if cell != Some((ctx.entry@, ix.bump)) {
        Err(ErrorCode::MalformedAddress)
    } else if state.occupied(ctx.entry) {
        Err(ErrorCode::AddressAlreadyInUse)
    } else if !state.config->0.may_write(ctx.creator) {
        Err(ErrorCode::InsufficientAuthority)
    } else if !added_entry(ctx, ix, now).fits() {
        Err(ErrorCode::StorageExceeded)
    } else {
        Ok(())
    }
}

/// The state after an `add_entry` request, where `cell` is what the
/// derivation gave for the address under the namespace of the registry.
pub open spec fn add_entry_state_at(
    state: RegistryView,
    ctx: AddEntry,
    ix: AddEntryIx,
    now: i64,
    cell: Option<(Seq<u8>, u8)>,
) -> RegistryView {
    if add_entry_outcome_at(state, ctx, ix, now, cell) is Ok {
        LedgerView { entries: state.entries.insert(ctx.entry, added_entry(ctx, ix, now)), ..state }
    } else {
        state
    }
}

/// What the derivation gives for the cell of the entry about `address`.
pub open spec fn entry_cell(state: RegistryView, address: Address) -> Option<(Seq<u8>, u8)>
    recommends
        state.config is Some,
{
    derived(entry_seeds(state.config->0.entry_seed, address), state.program_id@)
}

/// How an `add_entry` request ends.
pub open spec fn add_entry_outcome(
    state: RegistryView,
    ctx: AddEntry,
    ix: AddEntryIx,
    now: i64,
) -> Result<(), ErrorCode> {
    add_entry_outcome_at(state, ctx, ix, now, entry_cell(state, ix.address))
}

/// The state after an `add_entry` request.
pub open spec fn add_entry_state(
    state: RegistryView,
    ctx: AddEntry,
    ix: AddEntryIx,
    now: i64,
) -> RegistryView {
    add_entry_state_at(state, ctx, ix, now, entry_cell(state, ix.address))
}

/// Adds an entry about an address, given the cell derived for it: the entry
/// is unverified and stamped with the time.
///
/// The checks, in order: `RecordNotFound` if the cell named does not hold
/// the configuration; `MalformedAddress` unless the request names the
/// address and bump of `cell`; `AddressAlreadyInUse` if a record lives there
/// already; `InsufficientAuthority` unless writing is open to everybody or
/// the signer is the authority; `StorageExceeded` if the entry does not fit
/// into its cell.
pub fn add_entry_at(
    ledger: &mut Registry,
    ctx: AddEntry,
    ix: AddEntryIx,
    now: i64,
    cell: Option<(Address, u8)>,
) -> (r: Result<(), ErrorCode>)
    requires
        old(ledger).wf(),
    ensures
        final(ledger).wf(),
        r == add_entry_outcome_at(old(ledger)@, ctx, ix, now, cell_view(cell)),
        final(ledger)@ == add_entry_state_at(old(ledger)@, ctx, ix, now, cell_view(cell)),
{
    if !ledger.holds_config_at(&ctx.registry_config) {
        return Err(ErrorCode::RecordNotFound);
    }
    if !names(&cell, &ctx.entry, ix.bump) {
        return Err(ErrorCode::MalformedAddress);
    }
    if ledger.occupied(&ctx.entry) {
        return Err(ErrorCode::AddressAlreadyInUse);
    }
    if !admitted_by_write_gate(ledger, &ctx.creator) {
        return Err(ErrorCode::InsufficientAuthority);
    }
    if ix.data.as_str().as_bytes().len() > ENTRY_SPACE - ENTRY_FIXED_LEN {
        return Err(ErrorCode::StorageExceeded);
    }
    let entry = EntryData {
        address: ix.address,
        creator: ctx.creator,
        created_at: now,
        updated_at: now,
        is_verified: false,
        verified_at: 0,
        schema_version: ix.schema_version,
        data: ix.data,
    };
    ledger.put_entry(ctx.entry, entry);
    Ok(())
}

/// Adds an entry about an address, unverified and stamped with the time.
///
/// The checks, in order: `RecordNotFound` if the cell named does not hold
/// the configuration; `MalformedAddress` unless the request names the
/// canonical address and bump of the address under the namespace of the
/// registry; `AddressAlreadyInUse` if a record lives there already;
/// `InsufficientAuthority` unless writing is open to everybody or the
/// signer is the authority; `StorageExceeded` if the entry does not fit
/// into its cell.
pub fn add_entry(ledger: &mut Registry, ctx: AddEntry, ix: AddEntryIx, now: i64) -> (r: Result<
    (),
    ErrorCode,
>)
    requires
        old(ledger).wf(),
    ensures
        final(ledger).wf(),
        r == add_entry_outcome(old(ledger)@, ctx, ix, now),
        final(ledger)@ == add_entry_state(old(ledger)@, ctx, ix, now),
{
    let cell = match ledger.config() {
        None => None,
        Some(config) => entry_address(
            &ledger.program_id(),
            config.entry_seed.as_str(),
            &ix.address,
        ),
    };
    add_entry_at(ledger, ctx, ix, now, cell)
}

/// How an `update_entry` request ends.
pub open spec fn update_entry_outcome(
    state: RegistryView,
    ctx: UpdateEntry,
    ix: UpdateEntryIx,
) -> Result<(), ErrorCode> {
    if !state.holds_config_at(ctx.registry_config) || !state.entries.contains_key(ctx.entry) {
        Err(ErrorCode::RecordNotFound)
    } else if !state.config->0.may_write(ctx.creator) {
        Err(ErrorCode::InsufficientAuthority)
    } else if ENTRY_FIXED_LEN + encode_utf8(ix.data@).len() > ENTRY_SPACE {
        Err(ErrorCode::StorageExceeded)
    } else {
        Ok(())
    }
}

/// The state after an `update_entry` request.
pub open spec fn update_entry_state(
    state: RegistryView,
    ctx: UpdateEntry,
    ix: UpdateEntryIx,
    now: i64,
) -> RegistryView {
    if update_entry_outcome(state, ctx, ix) is Ok {
        LedgerView {
            entries: state.entries.insert(
                ctx.entry,
                EntryDataView {
                    schema_version: ix.schema_version,
                    data: ix.data@,
                    updated_at: now,
                    ..state.entries[ctx.entry]
                },
            ),
            ..state
        }
    } else {
        state
    }
}

/// Rewrites an entry: overwrites its payload and schema version and stamps
/// the time. Who created the entry and whether it is verified do not
/// change. In this registry the write gate decides who may rewrite: in an
/// open registry anybody rewrites any entry.
///
/// Refused with `RecordNotFound` if the cells named do not hold the
/// configuration and an entry, with `InsufficientAuthority` unless writing
/// is open to everybody or the signer is the authority, with
/// `StorageExceeded` if the entry would no longer fit into its cell.
pub fn update_entry(ledger: &mut Registry, ctx: UpdateEntry, ix: UpdateEntryIx, now: i64) -> (r:
    Result<(), ErrorCode>)
    requires
        old(ledger).wf(),
    ensures
        final(ledger).wf(),
        r == update_entry_outcome(old(ledger)@, ctx, ix),
        final(ledger)@ == update_entry_state(old(ledger)@, ctx, ix, now),
{
    if !ledger.holds_config_at(&ctx.registry_config) || ledger.entry(&ctx.entry).is_none() {
        return Err(ErrorCode::RecordNotFound);
    }
    if !admitted_by_write_gate(ledger, &ctx.creator) {
        return Err(ErrorCode::InsufficientAuthority);
    }
    if ix.data.as_str().as_bytes().len() > ENTRY_SPACE - ENTRY_FIXED_LEN {
        return Err(ErrorCode::StorageExceeded);
    }
    proof {
        ledger.lemma_consistent();
    }
    match ledger.take_entry(&ctx.entry) {
        None => {},
        Some(entry) => {
            let mut entry = entry;
            entry.schema_version = ix.schema_version;
            entry.data = ix.data;
            entry.updated_at = now;
            ledger.put_entry(ctx.entry, entry);
        },
    }
    proof {
        assert(ledger@.entries =~= update_entry_state(old(ledger)@, ctx, ix, now).entries);
    }
    Ok(())
}

/// How a request ends that changes whether an entry is verified.
pub open spec fn verification_outcome(
    state: RegistryView,
    registry_config: Address,
    entry: Address,
    signer: Address,
) -> Result<(), ErrorCode> {
    if !state.holds_config_at(registry_config) || !state.entries.contains_key(entry) {
        Err(ErrorCode::RecordNotFound)
    } else if signer != state.config->0.authority {
        Err(ErrorCode::InsufficientAuthority)
    } else {
        Ok(())
    }
}

fn check_verification(
    ledger: &Registry,
    registry_config: &Address,
    entry: &Address,
    signer: &Address,
) -> (r: Result<(), ErrorCode>)
    requires
        ledger.wf(),
    ensures
        r == verification_outcome(ledger@, *registry_config, *entry, *signer),
{
    if !ledger.holds_config_at(registry_config) || ledger.entry(entry).is_none() {
        return Err(ErrorCode::RecordNotFound);
    }
    if !signed_by_authority(ledger, signer) {
        return Err(ErrorCode::InsufficientAuthority);
    }
    Ok(())
}

/// How a `verify_entry` request ends.
pub open spec fn verify_entry_outcome(state: RegistryView, ctx: VerifyEntry) -> Result<
    (),
    ErrorCode,
> {
    verification_outcome(state, ctx.registry_config, ctx.entry, ctx.authority)
}

/// The state after a `verify_entry` request.
pub open spec fn verify_entry_state(
    state: RegistryView,
    ctx: VerifyEntry,
    now: i64,
) -> RegistryView {
    if verify_entry_outcome(state, ctx) is Ok {
        LedgerView {
            entries: state.entries.insert(
                ctx.entry,
                EntryDataView { is_verified: true, verified_at: now, ..state.entries[ctx.entry] },
            ),
            ..state
        }
    } else {
        state
    }
}

/// Verifies an entry: marks it as verified and stamps the time.
///
/// Refused with `RecordNotFound` if the cells named do not hold the
/// configuration and an entry, with `InsufficientAuthority` unless the
/// signer is the authority.
pub fn verify_entry(ledger: &mut Registry, ctx: VerifyEntry, now: i64) -> (r: Result<(), ErrorCode>)
    requires
        old(ledger).wf(),
    ensures
        final(ledger).wf(),
        r == verify_entry_outcome(old(ledger)@, ctx),
        final(ledger)@ == verify_entry_state(old(ledger)@, ctx, now),
{
    let checked = check_verification(ledger, &ctx.registry_config, &ctx.entry, &ctx.authority);
    if checked.is_err() {
        return checked;
    }
    proof {
        ledger.lemma_consistent();
    }
    match ledger.take_entry(&ctx.entry) {
        None => {},
        Some(entry) => {
            let mut entry = entry;
            entry.is_verified = true;
            entry.verified_at = now;
            ledger.put_entry(ctx.entry, entry);
        },
    }
    proof {
        assert(ledger@.entries =~= verify_entry_state(old(ledger)@, ctx, now).entries);
    }
    Ok(())
}

/// How an `unverify_entry` request ends.
pub open spec fn unverify_entry_outcome(state: RegistryView, ctx: UnverifyEntry) -> Result<
    (),
    ErrorCode,
> {
    verification_outcome(state, ctx.registry_config, ctx.entry, ctx.authority)
}

/// The state after an `unverify_entry` request.
pub open spec fn unverify_entry_state(state: RegistryView, ctx: UnverifyEntry) -> RegistryView {
    if unverify_entry_outcome(state, ctx) is Ok {
        LedgerView {
            entries: state.entries.insert(
                ctx.entry,
                EntryDataView { is_verified: false, ..state.entries[ctx.entry] },
            ),
            ..state
        }
    } else {
        state
    }
}

/// Withdraws the verification of an entry. The time of the last
/// verification stays on record.
///
/// Refused with `RecordNotFound` if the cells named do not hold the
/// configuration and an entry, with `InsufficientAuthority` unless the
/// signer is the authority.
pub fn unverify_entry(ledger: &mut Registry, ctx: UnverifyEntry) -> (r: Result<(), ErrorCode>)
    requires
        old(ledger).wf(),
    ensures
        final(ledger).wf(),
        r == unverify_entry_outcome(old(ledger)@, ctx),
        final(ledger)@ == unverify_entry_state(old(ledger)@, ctx),
{
    let checked = check_verification(ledger, &ctx.registry_config, &ctx.entry, &ctx.authority);
    if checked.is_err() {
        return checked;
    }
    proof {
        ledger.lemma_consistent();
    }
    match ledger.take_entry(&ctx.entry) {
        None => {},
        Some(entry) => {
            let mut entry = entry;
            entry.is_verified = false;
            ledger.put_entry(ctx.entry, entry);
        },
    }
    proof {
        assert(ledger@.entries =~= unverify_entry_state(old(ledger)@, ctx).entries);
    }
    Ok(())
}

/// How a `remove_entry` request ends.
pub open spec fn remove_entry_outcome(state: RegistryView, ctx: RemoveEntry) -> Result<
    (),
    ErrorCode,
> {
    if !state.holds_config_at(ctx.registry_config) || !state.entries.contains_key(ctx.entry) {
        Err(ErrorCode::RecordNotFound)
    } else if ctx.authority != state.config->0.authority && ctx.authority
        != state.entries[ctx.entry].creator {
        Err(ErrorCode::InsufficientAuthority)
    } else {
        Ok(())
    }
}

/// The state after a `remove_entry` request.
pub open spec fn remove_entry_state(state: RegistryView, ctx: RemoveEntry) -> RegistryView {
    if remove_entry_outcome(state, ctx) is Ok {
        LedgerView { entries: state.entries.remove(ctx.entry), ..state }
    } else {
        state
    }
}

/// Removes an entry for good.
///
/// Refused with `RecordNotFound` if the cells named do not hold the
/// configuration and an entry, with `InsufficientAuthority` unless the
/// signer is the authority or created the entry.
pub fn remove_entry(ledger: &mut Registry, ctx: RemoveEntry) -> (r: Result<(), ErrorCode>)
    requires
        old(ledger).wf(),
    ensures
        final(ledger).wf(),
        r == remove_entry_outcome(old(ledger)@, ctx),
        final(ledger)@ == remove_entry_state(old(ledger)@, ctx),
{
    if !ledger.holds_config_at(&ctx.registry_config) {
        return Err(ErrorCode::RecordNotFound);
    }
    let is_creator = match ledger.entry(&ctx.entry) {
        None => {
            return Err(ErrorCode::RecordNotFound);
        },
        Some(entry) => ctx.authority == entry.creator,
    };
    if !signed_by_authority(ledger, &ctx.authority) && !is_creator {
        return Err(ErrorCode::InsufficientAuthority);
    }
    let removed = ledger.take_entry(&ctx.entry);
    Ok(())
}

} // verus!
