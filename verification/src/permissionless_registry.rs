//! A registry without an authority: anybody adds an entry and thereby
//! becomes the one who may rewrite or remove it.

use crate::address::Address;
use crate::derivation::cell_view;
use crate::derivation::derived;
use crate::derivation::names;
use crate::derivation::two_seeds;
use crate::error::ErrorCode;
use crate::ledger::Ledger;
use crate::ledger::LedgerView;
use vstd::prelude::*;
use vstd::utf8::encode_utf8;

verus! {

/// The first seed of every entry cell: the bytes of `governance-program`.
pub const ENTRY_SEED: [u8; 18] = [
    103, 111, 118, 101, 114, 110, 97, 110, 99, 101, 45, 112, 114, 111, 103, 114, 97, 109,
];

/// Bytes reserved for the cell of an entry.
pub const ENTRY_SPACE: usize = 1024;

/// Bytes that a stored entry takes besides its four texts: a tag of 8, four
/// length prefixes, two addresses and two timestamps.
pub const ENTRY_FIXED_LEN: usize = 104;

/// What an entry says about a program.
#[derive(Debug)]
pub struct EntryData {
    /// What the program is called.
    pub name: String,
    /// What the program does.
    pub description: String,
    /// Where a picture of it is found.
    pub image_url: String,
    /// Where the program lives.
    pub program_address: Address,
    /// Where more about the program is found.
    pub additional_data_url: String,
    /// Who may rewrite or remove the entry.
    pub authority: Address,
}

/// What an entry says, as a mathematical value.
pub struct EntryDataView {
    pub name: Seq<char>,
    pub description: Seq<char>,
    pub image_url: Seq<char>,
    pub program_address: Address,
    pub additional_data_url: Seq<char>,
    pub authority: Address,
}

impl View for EntryData {
    type V = EntryDataView;

    open spec fn view(&self) -> EntryDataView {
        EntryDataView {
            name: self.name@,
            description: self.description@,
            image_url: self.image_url@,
            program_address: self.program_address,
            additional_data_url: self.additional_data_url@,
            authority: self.authority,
        }
    }
}

impl EntryDataView {
    /// How many bytes a stored entry with this content takes.
    pub open spec fn encoded_len(self) -> nat {
        ENTRY_FIXED_LEN as nat + encode_utf8(self.name).len() + encode_utf8(
            self.description,
        ).len() + encode_utf8(self.image_url).len() + encode_utf8(self.additional_data_url).len()
    }

    /// Whether an entry with this content fits into its cell.
    pub open spec fn fits(self) -> bool {
        self.encoded_len() <= ENTRY_SPACE
    }

    /// The content under another authority.
    pub open spec fn with_authority(self, authority: Address) -> EntryDataView {
        EntryDataView { authority, ..self }
    }
}

impl EntryData {
    /// Whether an entry with this content fits into its cell.
    pub fn fits(&self) -> (r: bool)
        ensures
            r == self@.fits(),
    {
        let room: usize = ENTRY_SPACE - ENTRY_FIXED_LEN;
        if self.name.as_str().as_bytes().len() > room {
            return false;
        }
        let room: usize = room - self.name.as_str().as_bytes().len();
        if self.description.as_str().as_bytes().len() > room {
            return false;
        }
        let room: usize = room - self.description.as_str().as_bytes().len();
        if self.image_url.as_str().as_bytes().len() > room {
            return false;
        }
        let room: usize = room - self.image_url.as_str().as_bytes().len();
        self.additional_data_url.as_str().as_bytes().len() <= room
    }
}

/// One registered record: the content and when it was written.
#[derive(Debug)]
pub struct GovernanceProgramAccount {
    /// What the entry says.
    pub data: EntryData,
    /// When the entry was created, in seconds.
    pub created_at: i64,
    /// When the content was last written, in seconds.
    pub updated_at: i64,
}

/// A registered record as a mathematical value.
pub struct GovernanceProgramAccountView {
    pub data: EntryDataView,
    pub created_at: i64,
    pub updated_at: i64,
}

impl View for GovernanceProgramAccount {
    type V = GovernanceProgramAccountView;

    open spec fn view(&self) -> GovernanceProgramAccountView {
        GovernanceProgramAccountView {
            data: self.data@,
            created_at: self.created_at,
            updated_at: self.updated_at,
        }
    }
}

/// The inputs for adding an entry.
#[derive(Debug)]
pub struct AddEntryIx {
    /// What the entry is to say. The authority given here does not count:
    /// the signer becomes the authority.
    pub entry: EntryData,
    /// The bump of the cell of the entry.
    pub bump: u8,
    /// The seed from which the cell of the entry is derived.
    pub seed: [u8; 32],
}

/// What adding an entry names.
#[derive(Clone, Copy, Debug)]
pub struct AddEntry {
    /// The cell that is to hold the entry.
    pub entry: Address,
    /// The signer: anybody.
    pub user: Address,
}

/// What rewriting an entry names.
#[derive(Clone, Copy, Debug)]
pub struct UpdateEntry {
    /// The cell of the entry.
    pub entry: Address,
    /// The signer, who must be the authority of the entry.
    pub user: Address,
}

/// What removing an entry names.
#[derive(Clone, Copy, Debug)]
pub struct RemoveEntry {
    /// The cell of the entry.
    pub entry: Address,
    /// The signer, who must be the authority of the entry.
    pub user: Address,
}

/// The ledger of the registry. It has no control record.
pub type Registry = Ledger<(), GovernanceProgramAccount>;

/// The state of the registry as a mathematical value.
pub type RegistryView = LedgerView<(), GovernanceProgramAccountView>;

/// The seeds of the cell of an entry.
pub open spec fn entry_seeds(seed: [u8; 32]) -> Seq<Seq<u8>> {
    seq![ENTRY_SEED@, seed@]
}

/// The canonical address and bump of the cell for the entry with the given
/// seed.
pub fn entry_address(program_id: &Address, seed: &[u8; 32]) -> (r: Option<(Address, u8)>)
    ensures
        cell_view(r) == derived(entry_seeds(*seed), program_id@),
{
    crate::derivation::derive(two_seeds(ENTRY_SEED.as_slice(), seed.as_slice()), program_id)
}

/// The record that an `add_entry` request asks for: the content as given,
/// with the signer as its authority.
pub open spec fn added_entry(
    ctx: AddEntry,
    ix: AddEntryIx,
    now: i64,
) -> GovernanceProgramAccountView {
    GovernanceProgramAccountView {
        data: ix.entry@.with_authority(ctx.user),
        created_at: now,
        updated_at: now,
    }
}

/// How an `add_entry` request ends, where `cell` is what the derivation gave for
/// the seed of the entry.
pub open spec fn add_entry_outcome_at(
    state: RegistryView,
    ctx: AddEntry,
    ix: AddEntryIx,
    now: i64,
    cell: Option<(Seq<u8>, u8)>,
) -> Result<(), ErrorCode> {
    if cell != Some((ctx.entry@, ix.bump)) {
        Err(ErrorCode::MalformedAddress)
    } else if state.occupied(ctx.entry) {
        Err(ErrorCode::AddressAlreadyInUse)
    } else if !ix.entry@.fits() {
        Err(ErrorCode::StorageExceeded)
    } else {
        Ok(())
    }
}

/// How an `add_entry` request ends.
pub open spec fn add_entry_outcome(
    state: RegistryView,
    ctx: AddEntry,
    ix: AddEntryIx,
    now: i64,
) -> Result<(), ErrorCode> {
    add_entry_outcome_at(state, ctx, ix, now, derived(entry_seeds(ix.seed), state.program_id@))
}

/// The state after an `add_entry` request, where `cell` is what the derivation
/// gave for the seed of the entry.
pub open spec fn add_entry_state_at(
    state: RegistryView,
    ctx: AddEntry,
    ix: AddEntryIx,
    now: i64,
    cell: Option<(Seq<u8>, u8)>,
) -> RegistryView {
    if add_entry_outcome_at(state, ctx, ix, now, cell) is Ok {
        LedgerView { entries: state.entries.insert(ctx.entry, added_entry(ctx, ix, now)), ..state }
    } else {
        state
    }
}

/// The state after an `add_entry` request.
pub open spec fn add_entry_state(
    state: RegistryView,
    ctx: AddEntry,
    ix: AddEntryIx,
    now: i64,
) -> RegistryView {
    add_entry_state_at(state, ctx, ix, now, derived(entry_seeds(ix.seed), state.program_id@))
}

/// Adds an entry, stamped with the time, and makes the signer its authority.
///
/// `cell` is what the derivation gave for the seed of the entry.
///
/// Refused with `MalformedAddress` unless the request names the address and
/// bump of `cell`, with `AddressAlreadyInUse` if a record lives there
/// already, with `StorageExceeded` if the entry does not fit into its cell.
pub fn add_entry_at(
    ledger: &mut Registry,
    ctx: AddEntry,
    ix: AddEntryIx,
    now: i64,
    cell: Option<(Address, u8)>,
) -> (r: Result<(), ErrorCode>)
    requires
        old(ledger).wf(),
    ensures
        final(ledger).wf(),
        r == add_entry_outcome_at(old(ledger)@, ctx, ix, now, cell_view(cell)),
        final(ledger)@ == add_entry_state_at(old(ledger)@, ctx, ix, now, cell_view(cell)),
{
    if !names(&cell, &ctx.entry, ix.bump) {
        return Err(ErrorCode::MalformedAddress);
    }
    if ledger.occupied(&ctx.entry) {
        return Err(ErrorCode::AddressAlreadyInUse);
    }
    if !ix.entry.fits() {
        return Err(ErrorCode::StorageExceeded);
    }
    let mut data = ix.entry;
    data.authority = ctx.user;
    ledger.put_entry(
        ctx.entry,
        GovernanceProgramAccount { data, created_at: now, updated_at: now },
    );
    Ok(())
}

/// Adds an entry, stamped with the time, and makes the signer its authority.
///
/// Refused with `MalformedAddress` unless the request names the canonical
/// address and bump of its seed, with `AddressAlreadyInUse` if a record
/// lives there already, with `StorageExceeded` if the entry does not fit
/// into its cell.
pub fn add_entry(ledger: &mut Registry, ctx: AddEntry, ix: AddEntryIx, now: i64) -> (r: Result<
    (),
    ErrorCode,
>)
    requires
        old(ledger).wf(),
    ensures
        final(ledger).wf(),
        r == add_entry_outcome(old(ledger)@, ctx, ix, now),
        final(ledger)@ == add_entry_state(old(ledger)@, ctx, ix, now),
{
    let cell = entry_address(&ledger.program_id(), &ix.seed);
    add_entry_at(ledger, ctx, ix, now, cell)
}

/// How an `update_entry` request ends.
pub open spec fn update_entry_outcome(
    state: RegistryView,
    ctx: UpdateEntry,
    entry_data: EntryData,
) -> Result<(), ErrorCode> {
    if !state.entries.contains_key(ctx.entry) {
        Err(ErrorCode::RecordNotFound)
    } else if ctx.user != state.entries[ctx.entry].data.authority {
        Err(ErrorCode::InsufficientAuthority)
    } else if !entry_data@.fits() {
        Err(ErrorCode::StorageExceeded)
    } else {
        Ok(())
    }
}

/// The state after an `update_entry` request.
pub open spec fn update_entry_state(
    state: RegistryView,
    ctx: UpdateEntry,
    entry_data: EntryData,
    now: i64,
) -> RegistryView {
    if update_entry_outcome(state, ctx, entry_data) is Ok {
        LedgerView {
            entries: state.entries.insert(
                ctx.entry,
                GovernanceProgramAccountView {
                    data: entry_data@.with_authority(state.entries[ctx.entry].data.authority),
                    updated_at: now,
                    ..state.entries[ctx.entry]
                },
            ),
            ..state
        }
    } else {
        state
    }
}

/// Rewrites an entry: replaces what it says about the program and stamps
/// the time. The authority of the entry stays the one who added it: the
/// authority given in the new content does not count.
///
/// Refused with `RecordNotFound` if no entry lives in the cell, with
/// `InsufficientAuthority` unless the signer is the authority of the entry,
/// with `StorageExceeded` if the new content does not fit into the cell.
pub fn update_entry(ledger: &mut Registry, ctx: UpdateEntry, entry_data: EntryData, now: i64) -> (r:
    Result<(), ErrorCode>)
    requires
        old(ledger).wf(),
    ensures
        final(ledger).wf(),
        r == update_entry_outcome(old(ledger)@, ctx, entry_data),
        final(ledger)@ == update_entry_state(old(ledger)@, ctx, entry_data, now),
{
    let is_authority = match ledger.entry(&ctx.entry) {
        None => {
            return Err(ErrorCode::RecordNotFound);
        },
        Some(entry) => ctx.user == entry.data.authority,
    };
    if !is_authority {
        return Err(ErrorCode::InsufficientAuthority);
    }
    if !entry_data.fits() {
        return Err(ErrorCode::StorageExceeded);
    }
    proof {
        ledger.lemma_consistent();
    }
    match ledger.take_entry(&ctx.entry) {
        None => {},
        Some(entry) => {
            let mut data = entry_data;
            data.authority = entry.data.authority;
            ledger.put_entry(
                ctx.entry,
                GovernanceProgramAccount { data, created_at: entry.created_at, updated_at: now },
            );
        },
    }
    proof {
        assert(ledger@.entries =~= update_entry_state(old(ledger)@, ctx, entry_data, now).entries);
    }
    Ok(())
}

/// The authority of an entry is fixed when the entry is added. An update
/// that is carried out leaves the authority and the time of creation as
/// they were, whatever the new content names, and changes no other entry.
pub proof fn law_update_keeps_the_authority(
    state: RegistryView,
    ctx: UpdateEntry,
    entry_data: EntryData,
    now: i64,
    other: Address,
)
    requires
        update_entry_outcome(state, ctx, entry_data) is Ok,
        other != ctx.entry,
    ensures
        ({
            let after = update_entry_state(state, ctx, entry_data, now);
            &&& after.entries[ctx.entry].data.authority == ctx.user
            &&& after.entries[ctx.entry].data.authority == state.entries[ctx.entry].data.authority
            &&& after.entries[ctx.entry].created_at == state.entries[ctx.entry].created_at
            &&& after.entries.contains_key(other) == state.entries.contains_key(other)
            &&& after.entries.contains_key(other) ==> after.entries[other] == state.entries[other]
        }),
{
}

/// How a `remove_entry` request ends.
pub open spec fn remove_entry_outcome(state: RegistryView, ctx: RemoveEntry) -> Result<
    (),
    ErrorCode,
> {
    if !state.entries.contains_key(ctx.entry) {
        Err(ErrorCode::RecordNotFound)
    } else if ctx.user != state.entries[ctx.entry].data.authority {
        Err(ErrorCode::InsufficientAuthority)
    } else {
        Ok(())
    }
}

/// The state after a `remove_entry` request.
pub open spec fn remove_entry_state(state: RegistryView, ctx: RemoveEntry) -> RegistryView {
    if remove_entry_outcome(state, ctx) is Ok {
        LedgerView { entries: state.entries.remove(ctx.entry), ..state }
    } else {
        state
    }
}

/// Removes an entry for good.
///
/// Refused with `RecordNotFound` if no entry lives in the cell, with
/// `InsufficientAuthority` unless the signer is the authority of the entry.
pub fn remove_entry(ledger: &mut Registry, ctx: RemoveEntry) -> (r: Result<(), ErrorCode>)
    requires
        old(ledger).wf(),
    ensures
        final(ledger).wf(),
        r == remove_entry_outcome(old(ledger)@, ctx),
        final(ledger)@ == remove_entry_state(old(ledger)@, ctx),
{
    let is_authority = match ledger.entry(&ctx.entry) {
        None => {
            return Err(ErrorCode::RecordNotFound);
        },
        Some(entry) => ctx.user == entry.data.authority,
    };
    if !is_authority {
        return Err(ErrorCode::InsufficientAuthority);
    }
    let removed = ledger.take_entry(&ctx.entry);
    Ok(())
}

} // verus!
