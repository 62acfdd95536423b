//! What holds of every registry, whatever requests it gets.

use crate::address::Address;
use crate::derivation::names_cell;
use crate::error::ErrorCode;
use crate::registry::instruction::AddEntry;
use crate::registry::instruction::AddEntryIx;
use crate::registry::instruction::RemoveEntry;
use crate::registry::instruction::UnverifyEntry;
use crate::registry::instruction::UpdateEntry;
use crate::registry::instruction::UpdateEntryIx;
use crate::registry::instruction::VerifyEntry;
use crate::registry::processor::RegistryView;
use crate::registry::processor::add_entry_outcome;
use crate::registry::processor::add_entry_state;
use crate::registry::processor::added_entry;
use crate::registry::processor::entry_cell;
use crate::registry::processor::entry_in_place;
use crate::registry::processor::remove_entry_outcome;
use crate::registry::processor::remove_entry_state;
use crate::registry::processor::schema_in_place;
use crate::registry::processor::unverify_entry_outcome;
use crate::registry::processor::unverify_entry_state;
use crate::registry::processor::update_entry_outcome;
use crate::registry::processor::update_entry_state;
use crate::registry::processor::valid;
use crate::registry::processor::verify_entry_outcome;
use crate::registry::processor::verify_entry_state;
use crate::registry::request::Request;
use crate::registry::request::Step;
use crate::registry::request::lemma_request_keeps_valid;
use crate::registry::request::named_cells;
use crate::registry::request::named_wallets;
use crate::registry::request::next_state;
use crate::registry::request::outcome;
use crate::registry::request::run;
use crate::registry::seeds::entry_seeds;
use vstd::prelude::*;

verus! {

/// A request is carried out as a whole or not at all: one that is refused
/// changes nothing.
pub proof fn law_refused_request_changes_nothing(state: RegistryView, request: Request, now: i64)
    requires
        outcome(state, request, now) is Err,
    ensures
        next_state(state, request, now) == state,
{
}

/// A request touches only what it names. A cell that the request does not
/// name holds after the request what it held before, a balance changes only
/// for the two sides of a fee, and no request changes the program, the
/// supply of currency or where the configuration lives once it is there.
pub proof fn law_request_touches_only_what_it_names(
    state: RegistryView,
    request: Request,
    now: i64,
    other: Address,
)
    requires
        state.consistent(),
        !named_cells(request).contains(other),
    ensures
        ({
            let after = next_state(state, request, now);
            &&& after.entries.contains_key(other) == state.entries.contains_key(other)
            &&& after.entries.contains_key(other) ==> after.entries[other] == state.entries[other]
            &&& after.schemas.contains_key(other) == state.schemas.contains_key(other)
            &&& after.schemas.contains_key(other) ==> after.schemas[other] == state.schemas[other]
            &&& after.holds_config_at(other) == state.holds_config_at(other)
            &&& after.program_id == state.program_id
            &&& after.supply == state.supply
            &&& state.config is Some ==> after.config_cell == state.config_cell
            &&& !named_wallets(request).contains(other) ==> after.balance(other) == state.balance(
                other,
            )
        }),
{
}

/// Whether a request may write the configuration.
pub open spec fn writes_configuration(request: Request) -> bool {
    request is Init || request is TransferAuthority || request is AddSchema
}

/// The cell of the entry or schema that a request is about.
pub open spec fn target_cell(request: Request) -> Address
    recommends
        !(request is Init || request is TransferAuthority),
{
    match request {
        Request::Init(ctx, ix) => ctx.registry_config,
        Request::TransferAuthority(ctx) => ctx.registry_config,
        Request::AddEntry(ctx, ix) => ctx.entry,
        Request::UpdateEntry(ctx, ix) => ctx.entry,
        Request::VerifyEntry(ctx) => ctx.entry,
        Request::UnverifyEntry(ctx) => ctx.entry,
        Request::RemoveEntry(ctx) => ctx.entry,
        Request::AddSchema(ctx, ix) => ctx.schema,
        Request::RemoveSchema(ctx) => ctx.schema,
    }
}

/// Who pays when the request is carried out, if anybody.
pub open spec fn payer(request: Request) -> Option<Address> {
    match request {
        Request::AddEntry(ctx, ix) => Some(ctx.creator),
        _ => None,
    }
}

/// Two requests are independent: neither writes the configuration, they
/// are about different cells, and the one who pays for either has no part
/// in the fee of the other.
pub open spec fn independent(first: Request, second: Request) -> bool {
    &&& !writes_configuration(first)
    &&& !writes_configuration(second)
    &&& target_cell(first) != target_cell(second)
    &&& payer(first) matches Some(who) ==> !named_wallets(second).contains(who)
    &&& payer(second) matches Some(who) ==> !named_wallets(first).contains(who)
}

/// Independent requests do not see each other. Each ends the same way
/// whether or not the other was carried out before it, and the state after
/// both is the same in either order.
#[verifier::rlimit(40)]
pub proof fn law_independent_requests_commute(
    state: RegistryView,
    first: Request,
    first_now: i64,
    second: Request,
    second_now: i64,
)
    requires
        state.consistent(),
        independent(first, second),
    ensures
        outcome(next_state(state, first, first_now), second, second_now) == outcome(
            state,
            second,
            second_now,
        ),
        outcome(next_state(state, second, second_now), first, first_now) == outcome(
            state,
            first,
            first_now,
        ),
        next_state(next_state(state, first, first_now), second, second_now) == next_state(
            next_state(state, second, second_now),
            first,
            first_now,
        ),
{
    let one = next_state(next_state(state, first, first_now), second, second_now);
    let other = next_state(next_state(state, second, second_now), first, first_now);
    assert(one.entries =~= other.entries);
    assert(one.schemas =~= other.schemas);
    assert(one.balances =~= other.balances);
}

/// A key is registered once. After an entry was added, every further request
/// to add an entry with the same key is refused and changes nothing: with
/// `AddressAlreadyInUse` where it names the same registry and the cell and
/// bump of the key, and earlier, at the check of what it names, where it
/// does not.
pub proof fn law_key_is_registered_once(
    state: RegistryView,
    first: AddEntry,
    first_ix: AddEntryIx,
    first_now: i64,
    second: AddEntry,
    second_ix: AddEntryIx,
    second_now: i64,
)
    requires
        add_entry_outcome(state, first, first_ix, first_now) is Ok,
        second_ix.primary_key@ == first_ix.primary_key@,
    ensures
        ({
            let after = add_entry_state(state, first, first_ix, first_now);
            let again = add_entry_outcome(after, second, second_ix, second_now);
            &&& again is Err
            &&& add_entry_state(after, second, second_ix, second_now) == after
            &&& again == Err::<(), ErrorCode>(ErrorCode::AddressAlreadyInUse) <==> (
            second.registry_config == first.registry_config && second.entry == first.entry
                && second_ix.bump == first_ix.bump)
        }),
{
    let after = add_entry_state(state, first, first_ix, first_now);
    Address::lemma_view_injective(second.entry, first.entry);
    if second.registry_config == first.registry_config && second.entry == first.entry
        && second_ix.bump == first_ix.bump {
        assert(after.entries.contains_key(first.entry));
    }
}

/// One entry for each key. In a valid state, two cells that hold entries
/// with the same key are the same cell.
pub proof fn law_one_entry_per_key(state: RegistryView, first: Address, second: Address)
    requires
        valid(state),
        state.entries.contains_key(first),
        state.entries.contains_key(second),
        state.entries[first].primary_key == state.entries[second].primary_key,
    ensures
        first == second,
{
    assert(entry_in_place(state, first));
    assert(entry_in_place(state, second));
    Address::lemma_view_injective(first, second);
}

/// The write gate. A request to add an entry that names the configuration
/// and a free cell with its canonical bump is refused with
/// `InsufficientAuthority` if the registry is closed and the signer is not
/// its authority. If the registry is open, the request of any signer is
/// carried out, provided that the fee goes to the authority, the signer can
/// pay it and the entry fits into its cell.
pub proof fn law_write_gate(state: RegistryView, ctx: AddEntry, ix: AddEntryIx, now: i64)
    requires
        state.holds_config_at(ctx.registry_config),
        names_cell(
            entry_seeds(state.config->0.namespace(), ix.primary_key@),
            state.program_id,
            ctx.entry,
            ix.bump,
        ),
        !state.occupied(ctx.entry),
    ensures
        !state.config->0.permissionless_add && ctx.creator != state.config->0.authority
            ==> add_entry_outcome(state, ctx, ix, now) == Err::<(), ErrorCode>(
            ErrorCode::InsufficientAuthority,
        ),
        state.config->0.permissionless_add && ctx.authority == state.config->0.authority
            && state.balance(ctx.creator) >= state.config->0.add_fee && added_entry(
            ctx,
            ix,
            now,
        ).fits() ==> add_entry_outcome(state, ctx, ix, now) is Ok,
{
}

/// The fee and the entry go together. Of a request to add an entry that is
/// in order up to the fee: if the signer holds less than the fee, the
/// request is refused with `InsufficientBalance`, no entry is created and no
/// balance changes; if the signer holds the fee and the entry fits, the
/// entry is created, the signer holds exactly the fee less and the
/// authority exactly the fee more, and nobody else's balance changes. An
/// authority that adds an entry itself pays itself: its balance stays.
pub proof fn law_fee_is_charged_with_the_entry(
    state: RegistryView,
    ctx: AddEntry,
    ix: AddEntryIx,
    now: i64,
)
    requires
        state.holds_config_at(ctx.registry_config),
        names_cell(
            entry_seeds(state.config->0.namespace(), ix.primary_key@),
            state.program_id,
            ctx.entry,
            ix.bump,
        ),
        !state.occupied(ctx.entry),
        state.config->0.may_add(ctx.creator),
        state.config->0.is_authority(ctx.authority),
        state.config->0.add_fee > 0,
    ensures
        ({
            let fee = state.config->0.add_fee;
            let after = add_entry_state(state, ctx, ix, now);
            &&& state.balance(ctx.creator) < fee ==> {
                &&& add_entry_outcome(state, ctx, ix, now) == Err::<(), ErrorCode>(
                    ErrorCode::InsufficientBalance,
                )
                &&& after == state
                &&& !after.entries.contains_key(ctx.entry)
            }
            &&& state.balance(ctx.creator) >= fee && added_entry(ctx, ix, now).fits() ==> {
                &&& add_entry_outcome(state, ctx, ix, now) is Ok
                &&& after.entries.contains_key(ctx.entry)
                &&& after.supply == state.supply
                &&& ctx.creator != ctx.authority ==> after.balance(ctx.creator) == state.balance(
                    ctx.creator,
                ) - fee && after.balance(ctx.authority) == state.balance(ctx.authority) + fee
                &&& ctx.creator == ctx.authority ==> after.balance(ctx.creator) == state.balance(
                    ctx.creator,
                )
                &&& forall|other: Address|
                    other != ctx.creator && other != ctx.authority ==> after.balance(other)
                        == state.balance(other)
            }
        }),
{
}

/// Verifying is idempotent. An entry that was verified can be verified
/// again: it stays verified and the time of verification is renewed each
/// time. Withdrawing the verification afterwards leaves the entry
/// unverified with the time of the last verification, and changes nothing
/// else about it.
pub proof fn law_verification_is_idempotent(
    state: RegistryView,
    ctx: VerifyEntry,
    first_now: i64,
    second_now: i64,
    undo: UnverifyEntry,
)
    requires
        verify_entry_outcome(state, ctx) is Ok,
        undo.registry_config == ctx.registry_config,
        undo.entry == ctx.entry,
        undo.authority == ctx.authority,
    ensures
        ({
            let once = verify_entry_state(state, ctx, first_now);
            let twice = verify_entry_state(once, ctx, second_now);
            let undone = unverify_entry_state(twice, undo);
            &&& once.entries[ctx.entry].is_verified
            &&& once.entries[ctx.entry].verified_at == first_now
            &&& verify_entry_outcome(once, ctx) is Ok
            &&& twice.entries[ctx.entry].is_verified
            &&& twice.entries[ctx.entry].verified_at == second_now
            &&& unverify_entry_outcome(twice, undo) is Ok
            &&& !undone.entries[ctx.entry].is_verified
            &&& undone.entries[ctx.entry].verified_at == second_now
            &&& undone.entries[ctx.entry] == state.entries[ctx.entry].verified(
                second_now,
            ).unverified()
        }),
{
}

/// Removal is final, and frees the key. After an entry was removed its cell
/// is free: the record is in no cell any more. A request to add an entry
/// with the same key, in order otherwise, is then carried out, and the cell
/// holds the new entry as the request gives it, with nothing of the old one.
pub proof fn law_removed_key_can_be_added_again(
    state: RegistryView,
    gone: RemoveEntry,
    again: AddEntry,
    ix: AddEntryIx,
    now: i64,
)
    requires
        valid(state),
        remove_entry_outcome(state, gone) is Ok,
        again.registry_config == gone.registry_config,
        again.entry == gone.entry,
        ix.primary_key@ == state.entries[gone.entry].primary_key,
        entry_cell(state, ix.primary_key@) matches Some(canonical) && ix.bump == canonical.1,
        state.config->0.may_add(again.creator),
        state.config->0.is_authority(again.authority),
        state.balance(again.creator) >= state.config->0.add_fee,
        added_entry(again, ix, now).fits(),
    ensures
        ({
            let vacated = remove_entry_state(state, gone);
            let after = add_entry_state(vacated, again, ix, now);
            &&& !vacated.occupied(gone.entry)
            &&& add_entry_outcome(vacated, again, ix, now) is Ok
            &&& after.entries[gone.entry] == added_entry(again, ix, now)
        }),
{
    assert(state.entries.contains_key(gone.entry));
    assert(entry_in_place(state, gone.entry));
}

/// Only the creator rewrites an entry. A request to rewrite an entry that is
/// signed by anybody else is refused with `InsufficientAuthority` and
/// changes nothing, whether the registry is open or closed and whether or
/// not the signer is its authority.
pub proof fn law_only_the_creator_updates(
    state: RegistryView,
    ctx: UpdateEntry,
    ix: UpdateEntryIx,
    now: i64,
)
    requires
        state.holds_config_at(ctx.registry_config),
        state.entries.contains_key(ctx.entry),
        ctx.creator != state.entries[ctx.entry].creator,
    ensures
        update_entry_outcome(state, ctx, ix, now) == Err::<(), ErrorCode>(
            ErrorCode::InsufficientAuthority,
        ),
        update_entry_state(state, ctx, ix, now) == state,
{
}

/// A registry is initialised once. Once the configuration exists, every
/// further `init` request is refused and changes nothing.
pub proof fn law_init_happens_once(state: RegistryView, request: Request, now: i64)
    requires
        state.config is Some,
        request is Init,
    ensures
        outcome(state, request, now) is Err,
        next_state(state, request, now) == state,
{
}

/// The configuration stays. Once it exists, no request removes it or
/// changes the namespace, the write gate or the fee; the counter of schemas
/// never goes down; and the authority changes only by a
/// `transfer_authority` request that is carried out.
pub proof fn law_configuration_is_stable(state: RegistryView, request: Request, now: i64)
    requires
        state.config is Some,
    ensures
        ({
            let before = state.config->0;
            let after = next_state(state, request, now).config;
            &&& after is Some
            &&& after->0.entry_seed == before.entry_seed
            &&& after->0.permissionless_add == before.permissionless_add
            &&& after->0.add_fee == before.add_fee
            &&& after->0.schema_version >= before.schema_version
            &&& after->0.authority != before.authority ==> request is TransferAuthority && outcome(
                state,
                request,
                now,
            ) is Ok
        }),
{
}

/// No request changes who created an entry, under which key, or when.
pub proof fn law_creator_is_fixed(
    state: RegistryView,
    request: Request,
    now: i64,
    address: Address,
)
    requires
        state.entries.contains_key(address),
        next_state(state, request, now).entries.contains_key(address),
    ensures
        next_state(state, request, now).entries[address].creator == state.entries[address].creator,
        next_state(state, request, now).entries[address].primary_key
            == state.entries[address].primary_key,
        next_state(state, request, now).entries[address].created_at
            == state.entries[address].created_at,
{
}

/// The counter of schemas: how many were added so far.
pub open spec fn schema_counter(state: RegistryView) -> nat {
    if state.config is Some {
        state.config->0.schema_version as nat
    } else {
        0
    }
}

/// The versions of the schemas that are stored.
pub open spec fn schema_versions(state: RegistryView) -> Set<u8> {
    Set::new(
        |version: u8|
            exists|address: Address|
                state.schemas.contains_key(address) && (#[trigger] state.schemas[address]).version
                    == version,
    )
}

/// The versions above `low` up to `high`.
pub open spec fn versions_between(low: nat, high: nat) -> Set<u8> {
    Set::new(|version: u8| low < version <= high)
}

/// How many requests of a history added a schema.
pub open spec fn schemas_added(state: RegistryView, history: Seq<Step>) -> nat
    decreases history.len(),
{
    if history.len() == 0 {
        0
    } else {
        let step = history[0];
        let later = schemas_added(next_state(state, step.request, step.now), history.drop_first());
        if step.request is AddSchema && outcome(state, step.request, step.now) is Ok {
            later + 1
        } else {
            later
        }
    }
}

/// The versions of the schemas that the requests of a history removed.
pub open spec fn versions_removed(state: RegistryView, history: Seq<Step>) -> Set<u8>
    decreases history.len(),
{
    if history.len() == 0 {
        Set::empty()
    } else {
        let step = history[0];
        let later = versions_removed(
            next_state(state, step.request, step.now),
            history.drop_first(),
        );
        match step.request {
            Request::RemoveSchema(ctx) => if outcome(state, step.request, step.now) is Ok {
                later.insert(state.schemas[ctx.schema].version)
            } else {
                later
            },
            _ => later,
        }
    }
}

/// What one request does to the counter and to the stored versions: adding
/// a schema moves the counter up by one and stores that version; removing a
/// schema takes its version out and leaves the counter; nothing else
/// touches either.
pub proof fn law_schema_step(state: RegistryView, request: Request, now: i64)
    requires
        valid(state),
    ensures
        ({
            let after = next_state(state, request, now);
            match request {
                Request::AddSchema(ctx, ix) => if outcome(state, request, now) is Ok {
                    &&& schema_counter(after) == schema_counter(state) + 1
                    &&& schema_versions(after) == schema_versions(state).insert(
                        schema_counter(after) as u8,
                    )
                } else {
                    after == state
                },
                Request::RemoveSchema(ctx) => if outcome(state, request, now) is Ok {
                    &&& schema_counter(after) == schema_counter(state)
                    &&& schema_versions(after) == schema_versions(state).remove(
                        state.schemas[ctx.schema].version,
                    )
                    &&& 1 <= state.schemas[ctx.schema].version <= schema_counter(state)
                } else {
                    after == state
                },
                _ => schema_counter(after) == schema_counter(state) && schema_versions(after)
                    == schema_versions(state),
            }
        }),
{
    let after = next_state(state, request, now);
    match request {
        Request::AddSchema(ctx, ix) => {
            if outcome(state, request, now) is Ok {
                let version = schema_counter(after) as u8;
                assert(after.schemas.contains_key(ctx.schema));
                assert(after.schemas[ctx.schema].version == version);
                assert forall|v: u8|
                    schema_versions(after).contains(v) == schema_versions(state).insert(
                        version,
                    ).contains(v) by {
                    if schema_versions(after).contains(v) {
                        let a = choose|a: Address|
                            after.schemas.contains_key(a) && (#[trigger] after.schemas[a]).version
                                == v;
                        if a != ctx.schema {
                            assert(state.schemas.contains_key(a) && state.schemas[a].version == v);
                        }
                    }
                    if schema_versions(state).contains(v) {
                        let a = choose|a: Address|
                            state.schemas.contains_key(a) && (#[trigger] state.schemas[a]).version
                                == v;
                        assert(after.schemas.contains_key(a) && after.schemas[a].version == v);
                    }
                }
                assert(schema_versions(after) =~= schema_versions(state).insert(version));
            }
        },
        Request::RemoveSchema(ctx) => {
            if outcome(state, request, now) is Ok {
                let version = state.schemas[ctx.schema].version;
                assert(state.schemas.contains_key(ctx.schema));
                assert(schema_in_place(state, ctx.schema));
                assert forall|v: u8|
                    schema_versions(after).contains(v) == schema_versions(state).remove(
                        version,
                    ).contains(v) by {
                    if schema_versions(after).contains(v) {
                        let a = choose|a: Address|
                            after.schemas.contains_key(a) && (#[trigger] after.schemas[a]).version
                                == v;
                        assert(state.schemas.contains_key(a) && state.schemas[a].version == v);
                        if v == version {
                            assert(schema_in_place(state, a));
                            Address::lemma_view_injective(a, ctx.schema);
                        }
                    }
                    if schema_versions(state).contains(v) && v != version {
                        let a = choose|a: Address|
                            state.schemas.contains_key(a) && (#[trigger] state.schemas[a]).version
                                == v;
                        assert(after.schemas.contains_key(a) && after.schemas[a].version == v);
                    }
                }
                assert(schema_versions(after) =~= schema_versions(state).remove(version));
            }
        },
        _ => {
            assert(after.schemas == state.schemas);
        },
    }
}

/// Over a history, the counter grows by the number of schemas added, and
/// the stored versions are those stored before and those handed out since,
/// less the ones removed.
pub proof fn law_schema_history(state: RegistryView, history: Seq<Step>)
    requires
        valid(state),
    ensures
        schema_counter(run(state, history)) == schema_counter(state) + schemas_added(
            state,
            history,
        ),
        schema_versions(run(state, history)) == schema_versions(state).union(
            versions_between(schema_counter(state), schema_counter(run(state, history))),
        ).difference(versions_removed(state, history)),
    decreases history.len(),
{
    let end = run(state, history);
    if history.len() == 0 {
        assert(schema_versions(end) =~= schema_versions(state).union(
            versions_between(schema_counter(state), schema_counter(end)),
        ).difference(versions_removed(state, history)));
    } else {
        let step = history[0];
        let next = next_state(state, step.request, step.now);
        lemma_request_keeps_valid(state, step.request, step.now);
        law_schema_step(state, step.request, step.now);
        law_schema_history(next, history.drop_first());
        let later_removed = versions_removed(next, history.drop_first());
        let before = schema_versions(state);
        let low = schema_counter(state);
        let high = schema_counter(end);
        assert(schema_versions(end) == schema_versions(next).union(
            versions_between(schema_counter(next), high),
        ).difference(later_removed));
        assert(schema_versions(end) =~= before.union(versions_between(low, high)).difference(
            versions_removed(state, history),
        ));
    }
}

/// Schema versions are handed out once and in order. After any history of
/// requests to a fresh registry, the counter equals the number of schemas
/// that were added, and the versions stored are exactly those from 1 to the
/// counter less the ones that were removed.
pub proof fn law_schema_monotonicity(program_id: Address, history: Seq<Step>)
    ensures
        ({
            let fresh = RegistryView::empty(program_id);
            let end = run(fresh, history);
            &&& schema_counter(end) == schemas_added(fresh, history)
            &&& schema_versions(end) == versions_between(0, schema_counter(end)).difference(
                versions_removed(fresh, history),
            )
        }),
{
    let fresh = RegistryView::empty(program_id);
    let end = run(fresh, history);
    assert(valid(fresh));
    law_schema_history(fresh, history);
    assert(schema_versions(fresh) =~= Set::<u8>::empty());
    assert(schema_versions(end) =~= versions_between(0, schema_counter(end)).difference(
        versions_removed(fresh, history),
    ));
}

} // verus!
