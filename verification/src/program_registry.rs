//! A registry of program instances: anybody registers an instance, the
//! authority vouches for it or removes it.

use crate::address::Address;
use crate::derivation::cell_view;
use crate::derivation::derived;
use crate::derivation::names;
use crate::derivation::one_seed;
use crate::derivation::two_seeds;
use crate::error::ErrorCode;
use crate::ledger::Ledger;
use crate::ledger::LedgerView;
use vstd::prelude::*;
use vstd::utf8::encode_utf8;

verus! {

/// The seed of the cell that holds the context of the registry: the bytes of
/// `registry-context`.
pub const CONTEXT_SEED: [u8; 16] = [
    114, 101, 103, 105, 115, 116, 114, 121, 45, 99, 111, 110, 116, 101, 120, 116,
];

/// The first seed of every instance cell: the bytes of `governance-program`.
pub const INSTANCE_SEED: [u8; 18] = [
    103, 111, 118, 101, 114, 110, 97, 110, 99, 101, 45, 112, 114, 111, 103, 114, 97, 109,
];

/// Bytes reserved for the cell of an instance.
pub const INSTANCE_SPACE: usize = 128;

/// Bytes that a stored instance takes besides its name: a tag of 8, the
/// length prefix of the name, the program address and the flag.
pub const INSTANCE_FIXED_LEN: usize = 45;

/// The control record of the registry.
#[derive(Clone, Copy, Debug)]
pub struct RegistryContextAccount {
    /// Who may verify and remove instances.
    pub authority: Address,
}

impl View for RegistryContextAccount {
    type V = RegistryContextAccount;

    open spec fn view(&self) -> RegistryContextAccount {
        *self
    }
}

/// One registered program instance.
#[derive(Debug)]
pub struct GovernanceProgramAccount {
    /// What the instance is called.
    pub name: String,
    /// Where the program lives.
    pub program_address: Address,
    /// Whether the authority vouches for the instance.
    pub is_verified: bool,
}

/// A program instance as a mathematical value.
pub struct GovernanceProgramAccountView {
    pub name: Seq<char>,
    pub program_address: Address,
    pub is_verified: bool,
}

impl View for GovernanceProgramAccount {
    type V = GovernanceProgramAccountView;

    open spec fn view(&self) -> GovernanceProgramAccountView {
        GovernanceProgramAccountView {
            name: self.name@,
            program_address: self.program_address,
            is_verified: self.is_verified,
        }
    }
}

impl GovernanceProgramAccountView {
    /// Whether the instance fits into its cell.
    pub open spec fn fits(self) -> bool {
        INSTANCE_FIXED_LEN + encode_utf8(self.name).len() <= INSTANCE_SPACE
    }
}

/// The inputs for initialising the registry.
#[derive(Clone, Copy, Debug)]
pub struct InitIx {
    /// The bump of the context cell.
    pub bump: u8,
}

/// The inputs for registering an instance.
#[derive(Debug)]
pub struct RegisterInstanceIx {
    /// What the instance is called.
    pub name: String,
    /// Where the program lives.
    pub program_address: Address,
    /// The bump of the cell of the instance.
    pub bump: u8,
    /// The seed from which the cell of the instance is derived.
    pub seed: [u8; 32],
}

/// What initialising the registry names.
#[derive(Clone, Copy, Debug)]
pub struct Init {
    /// The cell that is to hold the context.
    pub registry_context: Address,
    /// The signer, who becomes the authority.
    pub authority: Address,
}

/// What handing the registry over names.
#[derive(Clone, Copy, Debug)]
pub struct TransferVerificationAuthority {
    /// The cell of the context.
    pub registry_context: Address,
    /// The signer, who must be the authority.
    pub authority: Address,
    /// The co-signer, who becomes the authority.
    pub new_authority: Address,
}

/// What registering an instance names.
#[derive(Clone, Copy, Debug)]
pub struct RegisterInstance {
    /// The cell that is to hold the instance.
    pub program_instance: Address,
    /// The signer: anybody.
    pub authority: Address,
}

/// What verifying an instance names.
#[derive(Clone, Copy, Debug)]
pub struct VerifyInstance {
    /// The cell of the instance.
    pub program_instance: Address,
    /// The cell of the context.
    pub registry_context: Address,
    /// The signer, who must be the authority.
    pub authority: Address,
}

/// What removing an instance names.
#[derive(Clone, Copy, Debug)]
pub struct RemoveInstance {
    /// The cell of the instance.
    pub program_instance: Address,
    /// The cell of the context.
    pub registry_context: Address,
    /// The signer, who must be the authority.
    pub authority: Address,
}

/// The ledger of the registry.
pub type Registry = Ledger<RegistryContextAccount, GovernanceProgramAccount>;

/// The state of the registry as a mathematical value.
pub type RegistryView = LedgerView<RegistryContextAccount, GovernanceProgramAccountView>;

/// The seeds of the context cell.
pub open spec fn context_seeds() -> Seq<Seq<u8>> {
    seq![CONTEXT_SEED@]
}

/// The seeds of the cell of an instance.
pub open spec fn instance_seeds(seed: [u8; 32]) -> Seq<Seq<u8>> {
    seq![INSTANCE_SEED@, seed@]
}

/// The canonical address and bump of the context cell of a program.
pub fn context_address(program_id: &Address) -> (r: Option<(Address, u8)>)
    ensures
        cell_view(r) == derived(context_seeds(), program_id@),
{
    crate::derivation::derive(one_seed(CONTEXT_SEED.as_slice()), program_id)
}

/// The canonical address and bump of the cell for the instance with the
/// given seed.
pub fn instance_address(program_id: &Address, seed: &[u8; 32]) -> (r: Option<(Address, u8)>)
    ensures
        cell_view(r) == derived(instance_seeds(*seed), program_id@),
{
    crate::derivation::derive(two_seeds(INSTANCE_SEED.as_slice(), seed.as_slice()), program_id)
}

/// How an `init` request ends, where `cell` is what the derivation gave for
/// the context cell.
pub open spec fn init_outcome_at(
    state: RegistryView,
    ctx: Init,
    ix: InitIx,
    cell: Option<(Seq<u8>, u8)>,
) -> Result<(), ErrorCode> {
    if cell != Some((ctx.registry_context@, ix.bump)) {
        Err(ErrorCode::MalformedAddress)
    } else if state.config is Some || state.occupied(ctx.registry_context) {
        Err(ErrorCode::AddressAlreadyInUse)
    } else {
        Ok(())
    }
}

/// How an `init` request ends.
pub open spec fn init_outcome(state: RegistryView, ctx: Init, ix: InitIx) -> Result<(), ErrorCode> {
    init_outcome_at(state, ctx, ix, derived(context_seeds(), state.program_id@))
}

/// The state after an `init` request, where `cell` is what the derivation
/// gave for the context cell.
pub open spec fn init_state_at(
    state: RegistryView,
    ctx: Init,
    ix: InitIx,
    cell: Option<(Seq<u8>, u8)>,
) -> RegistryView {
    if init_outcome_at(state, ctx, ix, cell) is Ok {
        LedgerView {
            config_cell: Some(ctx.registry_context),
            config: Some(RegistryContextAccount { authority: ctx.authority }),
            ..state
        }
    } else {
        state
    }
}

/// The state after an `init` request.
pub open spec fn init_state(state: RegistryView, ctx: Init, ix: InitIx) -> RegistryView {
    init_state_at(state, ctx, ix, derived(context_seeds(), state.program_id@))
}

/// Initialises the registry with the signer as authority.
///
/// `cell` is what the derivation gave for the context cell.
///
/// Refused with `MalformedAddress` unless the request names the address and
/// bump of `cell`, with `AddressAlreadyInUse` if the registry is initialised
/// already or another record lives in that cell.
pub fn init_at(
    ledger: &mut Registry,
    ctx: Init,
    ix: InitIx,
    cell: Option<(Address, u8)>,
) -> (r: Result<(), ErrorCode>)
    requires
        old(ledger).wf(),
    ensures
        final(ledger).wf(),
        r == init_outcome_at(old(ledger)@, ctx, ix, cell_view(cell)),
        final(ledger)@ == init_state_at(old(ledger)@, ctx, ix, cell_view(cell)),
{
    if !names(&cell, &ctx.registry_context, ix.bump) {
        return Err(ErrorCode::MalformedAddress);
    }
    if ledger.config().is_some() || ledger.occupied(&ctx.registry_context) {
        return Err(ErrorCode::AddressAlreadyInUse);
    }
    ledger.create_config(ctx.registry_context, RegistryContextAccount { authority: ctx.authority });
    Ok(())
}

/// Initialises the registry with the signer as authority.
///
/// Refused with `MalformedAddress` unless the request names the canonical
/// address and bump of the context cell, with `AddressAlreadyInUse` if the
/// registry is initialised already or another record lives in that cell.
pub fn init(ledger: &mut Registry, ctx: Init, ix: InitIx) -> (r: Result<(), ErrorCode>)
    requires
        old(ledger).wf(),
    ensures
        final(ledger).wf(),
        r == init_outcome(old(ledger)@, ctx, ix),
        final(ledger)@ == init_state(old(ledger)@, ctx, ix),
{
    let cell = context_address(&ledger.program_id());
    init_at(ledger, ctx, ix, cell)
}

/// How a `transfer_authority` request ends.
pub open spec fn transfer_authority_outcome(
    state: RegistryView,
    ctx: TransferVerificationAuthority,
) -> Result<(), ErrorCode> {
    if !state.holds_config_at(ctx.registry_context) {
        Err(ErrorCode::RecordNotFound)
    } else if ctx.authority != state.config->0.authority {
        Err(ErrorCode::InsufficientAuthority)
    } else {
        Ok(())
    }
}

/// The state after a `transfer_authority` request.
pub open spec fn transfer_authority_state(
    state: RegistryView,
    ctx: TransferVerificationAuthority,
) -> RegistryView {
    if transfer_authority_outcome(state, ctx) is Ok {
        LedgerView {
            config: Some(RegistryContextAccount { authority: ctx.new_authority }),
            ..state
        }
    } else {
        state
    }
}

/// Hands the registry over: the co-signer becomes the authority.
///
/// Refused with `RecordNotFound` if the cell named does not hold the
/// context, with `InsufficientAuthority` unless the signer is the authority.
pub fn transfer_authority(ledger: &mut Registry, ctx: TransferVerificationAuthority) -> (r: Result<
    (),
    ErrorCode,
>)
    requires
        old(ledger).wf(),
    ensures
        final(ledger).wf(),
        r == transfer_authority_outcome(old(ledger)@, ctx),
        final(ledger)@ == transfer_authority_state(old(ledger)@, ctx),
{
    if !ledger.holds_config_at(&ctx.registry_context) {
        return Err(ErrorCode::RecordNotFound);
    }
    if !signed_by_authority(ledger, &ctx.authority) {
        return Err(ErrorCode::InsufficientAuthority);
    }
    proof {
        ledger.lemma_consistent();
    }
    let taken = ledger.take_config();
    ledger.create_config(
        ctx.registry_context,
        RegistryContextAccount { authority: ctx.new_authority },
    );
    Ok(())
}

/// Whether `signer` is the authority of the registry.
fn signed_by_authority(ledger: &Registry, signer: &Address) -> (r: bool)
    ensures
        r == (ledger@.config is Some && *signer == ledger@.config->0.authority),
{
    match ledger.config() {
        None => false,
        Some(context) => *signer == context.authority,
    }
}

/// The instance that a `register_program_instance` request asks for.
pub open spec fn registered_instance(ix: RegisterInstanceIx) -> GovernanceProgramAccountView {
    GovernanceProgramAccountView {
        name: ix.name@,
        program_address: ix.program_address,
        is_verified: false,
    }
}

/// How a `register_program_instance` request ends, where `cell` is what the derivation gave for
/// the seed of the instance.
pub open spec fn register_program_instance_outcome_at(
    state: RegistryView,
    ctx: RegisterInstance,
    ix: RegisterInstanceIx,
    cell: Option<(Seq<u8>, u8)>,
) -> Result<(), ErrorCode> {
    if cell != Some((ctx.program_instance@, ix.bump)) {
        Err(ErrorCode::MalformedAddress)
    } else if state.occupied(ctx.program_instance) {
        Err(ErrorCode::AddressAlreadyInUse)
    } else if !registered_instance(ix).fits() {
        Err(ErrorCode::StorageExceeded)
    } else {
        Ok(())
    }
}

/// How a `register_program_instance` request ends.
pub open spec fn register_program_instance_outcome(
    state: RegistryView,
    ctx: RegisterInstance,
    ix: RegisterInstanceIx,
) -> Result<(), ErrorCode> {
    register_program_instance_outcome_at(
        state,
        ctx,
        ix,
        derived(instance_seeds(ix.seed), state.program_id@),
    )
}

/// The state after a `register_program_instance` request, where `cell` is what the derivation
/// gave for the seed of the instance.
pub open spec fn register_program_instance_state_at(
    state: RegistryView,
    ctx: RegisterInstance,
    ix: RegisterInstanceIx,
    cell: Option<(Seq<u8>, u8)>,
) -> RegistryView {
    if register_program_instance_outcome_at(state, ctx, ix, cell) is Ok {
        LedgerView {
            entries: state.entries.insert(ctx.program_instance, registered_instance(ix)),
            ..state
        }
    } else {
        state
    }
}

/// The state after a `register_program_instance` request.
pub open spec fn register_program_instance_state(
    state: RegistryView,
    ctx: RegisterInstance,
    ix: RegisterInstanceIx,
) -> RegistryView {
    register_program_instance_state_at(
        state,
        ctx,
        ix,
        derived(instance_seeds(ix.seed), state.program_id@),
    )
}

/// Registers a program instance, unverified. Anybody may do so.
///
/// `cell` is what the derivation gave for the seed of the instance.
///
/// Refused with `MalformedAddress` unless the request names the address and
/// bump of `cell`, with `AddressAlreadyInUse` if a record lives there
/// already, with `StorageExceeded` if the instance does not fit into its
/// cell.
pub fn register_program_instance_at(
    ledger: &mut Registry,
    ctx: RegisterInstance,
    ix: RegisterInstanceIx,
    cell: Option<(Address, u8)>,
) -> (r: Result<(), ErrorCode>)
    requires
        old(ledger).wf(),
    ensures
        final(ledger).wf(),
        r == register_program_instance_outcome_at(old(ledger)@, ctx, ix, cell_view(cell)),
        final(ledger)@ == register_program_instance_state_at(
            old(ledger)@,
            ctx,
            ix,
            cell_view(cell),
        ),
{
    if !names(&cell, &ctx.program_instance, ix.bump) {
        return Err(ErrorCode::MalformedAddress);
    }
    if ledger.occupied(&ctx.program_instance) {
        return Err(ErrorCode::AddressAlreadyInUse);
    }
    if ix.name.as_str().as_bytes().len() > INSTANCE_SPACE - INSTANCE_FIXED_LEN {
        return Err(ErrorCode::StorageExceeded);
    }
    let instance = GovernanceProgramAccount {
        name: ix.name,
        program_address: ix.program_address,
        is_verified: false,
    };
    ledger.put_entry(ctx.program_instance, instance);
    Ok(())
}

/// Registers a program instance, unverified. Anybody may do so.
///
/// Refused with `MalformedAddress` unless the request names the canonical
/// address and bump of its seed, with `AddressAlreadyInUse` if a record
/// lives there already, with `StorageExceeded` if the instance does not fit
/// into its cell.
pub fn register_program_instance(
    ledger: &mut Registry,
    ctx: RegisterInstance,
    ix: RegisterInstanceIx,
) -> (r: Result<(), ErrorCode>)
    requires
        old(ledger).wf(),
    ensures
        final(ledger).wf(),
        r == register_program_instance_outcome(old(ledger)@, ctx, ix),
        final(ledger)@ == register_program_instance_state(old(ledger)@, ctx, ix),
{
    let cell = instance_address(&ledger.program_id(), &ix.seed);
    register_program_instance_at(ledger, ctx, ix, cell)
}

/// How a request of the authority about one instance ends: `RecordNotFound`
/// if the cells named do not hold an instance and the context,
/// `InsufficientAuthority` unless the signer is the authority.
pub open spec fn authority_request_outcome(
    state: RegistryView,
    program_instance: Address,
    registry_context: Address,
    signer: Address,
) -> Result<(), ErrorCode> {
    if !state.entries.contains_key(program_instance) || !state.holds_config_at(registry_context) {
        Err(ErrorCode::RecordNotFound)
    } else if signer != state.config->0.authority {
        Err(ErrorCode::InsufficientAuthority)
    } else {
        Ok(())
    }
}

fn check_authority_request(
    ledger: &Registry,
    program_instance: &Address,
    registry_context: &Address,
    signer: &Address,
) -> (r: Result<(), ErrorCode>)
    requires
        ledger.wf(),
    ensures
        r == authority_request_outcome(ledger@, *program_instance, *registry_context, *signer),
{
    if ledger.entry(program_instance).is_none() || !ledger.holds_config_at(registry_context) {
        return Err(ErrorCode::RecordNotFound);
    }
    if !signed_by_authority(ledger, signer) {
        return Err(ErrorCode::InsufficientAuthority);
    }
    Ok(())
}

/// How a `verify_program_instance` request ends.
pub open spec fn verify_program_instance_outcome(
    state: RegistryView,
    ctx: VerifyInstance,
) -> Result<
    (),
    ErrorCode,
> {
    authority_request_outcome(state, ctx.program_instance, ctx.registry_context, ctx.authority)
}

/// The state after a `verify_program_instance` request.
pub open spec fn verify_program_instance_state(
    state: RegistryView,
    ctx: VerifyInstance,
) -> RegistryView {
    if verify_program_instance_outcome(state, ctx) is Ok {
        LedgerView {
            entries: state.entries.insert(
                ctx.program_instance,
                GovernanceProgramAccountView {
                    is_verified: true,
                    ..state.entries[ctx.program_instance]
                },
            ),
            ..state
        }
    } else {
        state
    }
}

/// Verifies a program instance: marks it as verified.
///
/// Refused with `RecordNotFound` if the cells named do not hold an instance
/// and the context, with `InsufficientAuthority` unless the signer is the
/// authority.
pub fn verify_program_instance(ledger: &mut Registry, ctx: VerifyInstance) -> (r: Result<
    (),
    ErrorCode,
>)
    requires
        old(ledger).wf(),
    ensures
        final(ledger).wf(),
        r == verify_program_instance_outcome(old(ledger)@, ctx),
        final(ledger)@ == verify_program_instance_state(old(ledger)@, ctx),
{
    let checked = check_authority_request(
        ledger,
        &ctx.program_instance,
        &ctx.registry_context,
        &ctx.authority,
    );
    if checked.is_err() {
        return checked;
    }
    proof {
        ledger.lemma_consistent();
    }
    match ledger.take_entry(&ctx.program_instance) {
        None => {},
        Some(instance) => {
            let mut instance = instance;
            instance.is_verified = true;
            ledger.put_entry(ctx.program_instance, instance);
        },
    }
    proof {
        assert(ledger@.entries =~= verify_program_instance_state(old(ledger)@, ctx).entries);
    }
    Ok(())
}

/// How a `remove_program_instance` request ends.
pub open spec fn remove_program_instance_outcome(
    state: RegistryView,
    ctx: RemoveInstance,
) -> Result<
    (),
    ErrorCode,
> {
    authority_request_outcome(state, ctx.program_instance, ctx.registry_context, ctx.authority)
}

/// The state after a `remove_program_instance` request.
pub open spec fn remove_program_instance_state(
    state: RegistryView,
    ctx: RemoveInstance,
) -> RegistryView {
    if remove_program_instance_outcome(state, ctx) is Ok {
        LedgerView { entries: state.entries.remove(ctx.program_instance), ..state }
    } else {
        state
    }
}

/// Removes a program instance for good.
///
/// Refused with `RecordNotFound` if the cells named do not hold an instance
/// and the context, with `InsufficientAuthority` unless the signer is the
/// authority.
pub fn remove_program_instance(ledger: &mut Registry, ctx: RemoveInstance) -> (r: Result<
    (),
    ErrorCode,
>)
    requires
        old(ledger).wf(),
    ensures
        final(ledger).wf(),
        r == remove_program_instance_outcome(old(ledger)@, ctx),
        final(ledger)@ == remove_program_instance_state(old(ledger)@, ctx),
{
    let checked = check_authority_request(
        ledger,
        &ctx.program_instance,
        &ctx.registry_context,
        &ctx.authority,
    );
    if checked.is_err() {
        return checked;
    }
    let removed = ledger.take_entry(&ctx.program_instance);
    Ok(())
}

} // verus!
