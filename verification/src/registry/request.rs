//! Requests as values, and the histories that a registry goes through.
//!
//! A client names one operation with what it touches and its inputs. The
//! registry carries the request out as a whole or not at all.

use crate::address::Address;
use crate::error::ErrorCode;
use crate::registry::instruction::AddEntry;
use crate::registry::instruction::AddEntryIx;
use crate::registry::instruction::AddSchema;
use crate::registry::instruction::AddSchemaIx;
use crate::registry::instruction::Init;
use crate::registry::instruction::InitIx;
use crate::registry::instruction::RemoveEntry;
use crate::registry::instruction::RemoveSchema;
use crate::registry::instruction::TransferAuthority;
use crate::registry::instruction::UnverifyEntry;
use crate::registry::instruction::UpdateEntry;
use crate::registry::instruction::UpdateEntryIx;
use crate::registry::instruction::VerifyEntry;
use crate::registry::processor::Registry;
use crate::registry::processor::RegistryView;
use crate::registry::processor::add_entry;
use crate::registry::processor::add_entry_outcome;
use crate::registry::processor::add_entry_state;
use crate::registry::processor::add_schema;
use crate::registry::processor::add_schema_outcome;
use crate::registry::processor::add_schema_state;
use crate::registry::processor::init;
use crate::registry::processor::init_outcome;
use crate::registry::processor::init_state;
use crate::registry::processor::lemma_add_entry_keeps_valid;
use crate::registry::processor::lemma_add_schema_keeps_valid;
use crate::registry::processor::lemma_init_keeps_valid;
use crate::registry::processor::lemma_remove_entry_keeps_valid;
use crate::registry::processor::lemma_remove_schema_keeps_valid;
use crate::registry::processor::lemma_rewritten_entry_keeps_valid;
use crate::registry::processor::lemma_transfer_authority_keeps_valid;
use crate::registry::processor::remove_entry;
use crate::registry::processor::remove_entry_outcome;
use crate::registry::processor::remove_entry_state;
use crate::registry::processor::remove_schema;
use crate::registry::processor::remove_schema_outcome;
use crate::registry::processor::remove_schema_state;
use crate::registry::processor::transfer_authority;
use crate::registry::processor::transfer_authority_outcome;
use crate::registry::processor::transfer_authority_state;
use crate::registry::processor::unverify_entry;
use crate::registry::processor::unverify_entry_outcome;
use crate::registry::processor::unverify_entry_state;
use crate::registry::processor::update_entry;
use crate::registry::processor::update_entry_outcome;
use crate::registry::processor::update_entry_state;
use crate::registry::processor::valid;
use crate::registry::processor::verify_entry;
use crate::registry::processor::verify_entry_outcome;
use crate::registry::processor::verify_entry_state;
use vstd::prelude::*;

verus! {

/// One request to a registry.
#[derive(Debug)]
pub enum Request {
    Init(Init, InitIx),
    TransferAuthority(TransferAuthority),
    AddEntry(AddEntry, AddEntryIx),
    UpdateEntry(UpdateEntry, UpdateEntryIx),
    VerifyEntry(VerifyEntry),
    UnverifyEntry(UnverifyEntry),
    RemoveEntry(RemoveEntry),
    AddSchema(AddSchema, AddSchemaIx),
    RemoveSchema(RemoveSchema),
}

/// A request together with the time at which it is carried out.
pub struct Step {
    pub request: Request,
    pub now: i64,
}

/// How a request ends when it is carried out at `now`.
pub open spec fn outcome(state: RegistryView, request: Request, now: i64) -> Result<(), ErrorCode> {
    match request {
        Request::Init(ctx, ix) => init_outcome(state, ctx, ix),
        Request::TransferAuthority(ctx) => transfer_authority_outcome(state, ctx),
        Request::AddEntry(ctx, ix) => add_entry_outcome(state, ctx, ix, now),
        Request::UpdateEntry(ctx, ix) => update_entry_outcome(state, ctx, ix, now),
        Request::VerifyEntry(ctx) => verify_entry_outcome(state, ctx),
        Request::UnverifyEntry(ctx) => unverify_entry_outcome(state, ctx),
        Request::RemoveEntry(ctx) => remove_entry_outcome(state, ctx),
        Request::AddSchema(ctx, ix) => add_schema_outcome(state, ctx, ix, now),
        Request::RemoveSchema(ctx) => remove_schema_outcome(state, ctx),
    }
}

/// The state after a request was carried out at `now`.
pub open spec fn next_state(state: RegistryView, request: Request, now: i64) -> RegistryView {
    match request {
        Request::Init(ctx, ix) => init_state(state, ctx, ix),
        Request::TransferAuthority(ctx) => transfer_authority_state(state, ctx),
        Request::AddEntry(ctx, ix) => add_entry_state(state, ctx, ix, now),
        Request::UpdateEntry(ctx, ix) => update_entry_state(state, ctx, ix, now),
        Request::VerifyEntry(ctx) => verify_entry_state(state, ctx, now),
        Request::UnverifyEntry(ctx) => unverify_entry_state(state, ctx),
        Request::RemoveEntry(ctx) => remove_entry_state(state, ctx),
        Request::AddSchema(ctx, ix) => add_schema_state(state, ctx, ix, now),
        Request::RemoveSchema(ctx) => remove_schema_state(state, ctx),
    }
}

/// The state after a whole history of requests, carried out one after the
/// other.
pub open spec fn run(state: RegistryView, history: Seq<Step>) -> RegistryView
    decreases history.len(),
{
    if history.len() == 0 {
        state
    } else {
        run(next_state(state, history[0].request, history[0].now), history.drop_first())
    }
}

/// The cells that a request names.
pub open spec fn named_cells(request: Request) -> Set<Address> {
    match request {
        Request::Init(ctx, ix) => set![ctx.registry_config],
        Request::TransferAuthority(ctx) => set![ctx.registry_config],
        Request::AddEntry(ctx, ix) => set![ctx.registry_config, ctx.entry],
        Request::UpdateEntry(ctx, ix) => set![ctx.registry_config, ctx.entry],
        Request::VerifyEntry(ctx) => set![ctx.registry_config, ctx.entry],
        Request::UnverifyEntry(ctx) => set![ctx.registry_config, ctx.entry],
        Request::RemoveEntry(ctx) => set![ctx.registry_config, ctx.entry],
        Request::AddSchema(ctx, ix) => set![ctx.registry_config, ctx.schema],
        Request::RemoveSchema(ctx) => set![ctx.registry_config, ctx.schema],
    }
}

/// The identities whose balances a request may touch: the two sides of the
/// fee for adding an entry.
pub open spec fn named_wallets(request: Request) -> Set<Address> {
    match request {
        Request::AddEntry(ctx, ix) => set![ctx.creator, ctx.authority],
        _ => Set::empty(),
    }
}

/// Carries out one request at `now`.
pub fn process(ledger: &mut Registry, request: Request, now: i64) -> (r: Result<(), ErrorCode>)
    requires
        old(ledger).wf(),
    ensures
        final(ledger).wf(),
        r == outcome(old(ledger)@, request, now),
        final(ledger)@ == next_state(old(ledger)@, request, now),
        valid(old(ledger)@) ==> valid(final(ledger)@),
{
    match request {
        Request::Init(ctx, ix) => init(ledger, ctx, ix),
        Request::TransferAuthority(ctx) => transfer_authority(ledger, ctx),
        Request::AddEntry(ctx, ix) => add_entry(ledger, ctx, ix, now),
        Request::UpdateEntry(ctx, ix) => update_entry(ledger, ctx, ix, now),
        Request::VerifyEntry(ctx) => verify_entry(ledger, ctx, now),
        Request::UnverifyEntry(ctx) => unverify_entry(ledger, ctx),
        Request::RemoveEntry(ctx) => remove_entry(ledger, ctx),
        Request::AddSchema(ctx, ix) => add_schema(ledger, ctx, ix, now),
        Request::RemoveSchema(ctx) => remove_schema(ledger, ctx),
    }
}

/// Every request leaves a valid state valid.
pub proof fn lemma_request_keeps_valid(state: RegistryView, request: Request, now: i64)
    requires
        valid(state),
    ensures
        valid(next_state(state, request, now)),
{
    match request {
        Request::Init(ctx, ix) => lemma_init_keeps_valid(state, ctx, ix),
        Request::TransferAuthority(ctx) => lemma_transfer_authority_keeps_valid(state, ctx),
        Request::AddEntry(ctx, ix) => lemma_add_entry_keeps_valid(state, ctx, ix, now),
        Request::UpdateEntry(ctx, ix) => {
            if update_entry_outcome(state, ctx, ix, now) is Ok {
                lemma_rewritten_entry_keeps_valid(
                    state,
                    ctx.entry,
                    state.entries[ctx.entry].updated(ix.schema_version, ix.data@, now),
                );
            }
        },
        Request::VerifyEntry(ctx) => {
            if verify_entry_outcome(state, ctx) is Ok {
                lemma_rewritten_entry_keeps_valid(
                    state,
                    ctx.entry,
                    state.entries[ctx.entry].verified(now),
                );
            }
        },
        Request::UnverifyEntry(ctx) => {
            if unverify_entry_outcome(state, ctx) is Ok {
                lemma_rewritten_entry_keeps_valid(
                    state,
                    ctx.entry,
                    state.entries[ctx.entry].unverified(),
                );
            }
        },
        Request::RemoveEntry(ctx) => lemma_remove_entry_keeps_valid(state, ctx),
        Request::AddSchema(ctx, ix) => lemma_add_schema_keeps_valid(state, ctx, ix, now),
        Request::RemoveSchema(ctx) => lemma_remove_schema_keeps_valid(state, ctx),
    }
}

/// Every history leaves a valid state valid.
pub proof fn lemma_run_keeps_valid(state: RegistryView, history: Seq<Step>)
    requires
        valid(state),
    ensures
        valid(run(state, history)),
    decreases history.len(),
{
    if history.len() > 0 {
        lemma_request_keeps_valid(state, history[0].request, history[0].now);
        lemma_run_keeps_valid(
            next_state(state, history[0].request, history[0].now),
            history.drop_first(),
        );
    }
}

} // verus!
