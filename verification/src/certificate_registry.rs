//! A registry of certificates: an issuer certifies something about the owner
//! of a token mint; the issuer or the owner revokes the certificate.

use crate::address::Address;
use crate::derivation::cell_view;
use crate::derivation::derived;
use crate::derivation::names;
use crate::derivation::three_seeds;
use crate::error::ErrorCode;
use crate::ledger::Ledger;
use crate::ledger::LedgerView;
use vstd::prelude::*;
use vstd::utf8::encode_utf8;

verus! {

/// The first seed of every certificate cell: the bytes of `certificate`.
pub const CERTIFICATE_SEED: [u8; 11] = [99, 101, 114, 116, 105, 102, 105, 99, 97, 116, 101];

/// Bytes reserved for the cell of a certificate.
pub const ENTRY_SPACE: usize = 1024;

/// Bytes that a stored certificate takes besides its payload: a tag of 8,
/// three addresses, the timestamp, the schema version and the length prefix.
pub const ENTRY_FIXED_LEN: usize = 117;

/// One certificate.
#[derive(Debug)]
pub struct EntryData {
    /// The token mint that the certificate is tied to.
    pub mint_address: Address,
    /// Whom the certificate is about.
    pub owner: Address,
    /// Who issued the certificate.
    pub issuer: Address,
    /// When the certificate was issued, in seconds.
    pub issued_at: i64,
    /// The schema that the payload follows.
    pub schema_version: u8,
    /// The payload.
    pub data: String,
}

/// A certificate as a mathematical value.
pub struct EntryDataView {
    pub mint_address: Address,
    pub owner: Address,
    pub issuer: Address,
    pub issued_at: i64,
    pub schema_version: u8,
    pub data: Seq<char>,
}

impl View for EntryData {
    type V = EntryDataView;

    open spec fn view(&self) -> EntryDataView {
        EntryDataView {
            mint_address: self.mint_address,
            owner: self.owner,
            issuer: self.issuer,
            issued_at: self.issued_at,
            schema_version: self.schema_version,
            data: self.data@,
        }
    }
}

impl EntryDataView {
    /// Whether the certificate fits into its cell.
    pub open spec fn fits(self) -> bool {
        ENTRY_FIXED_LEN + encode_utf8(self.data).len() <= ENTRY_SPACE
    }

    /// Whether `user` may revoke the certificate: its issuer, or its owner.
    pub open spec fn may_revoke(self, user: Address) -> bool {
        user == self.issuer || user == self.owner
    }
}

impl EntryData {
    /// Whether `user` may revoke the certificate.
    pub fn may_revoke(&self, user: &Address) -> (r: bool)
        ensures
            r == self@.may_revoke(*user),
    {
        *user == self.issuer || *user == self.owner
    }
}

/// The inputs for issuing a certificate.
#[derive(Debug)]
pub struct IssueIx {
    /// The bump of the cell of the certificate.
    pub bump: u8,
    /// Whom the certificate is about.
    pub owner: Address,
    /// The schema that the payload follows.
    pub schema_version: u8,
    /// The payload.
    pub data: String,
}

/// What issuing a certificate names.
#[derive(Clone, Copy, Debug)]
pub struct Issue {
    /// The cell that is to hold the certificate.
    pub entry: Address,
    /// The token mint that the certificate is tied to.
    pub mint: Address,
    /// The signer, who issues the certificate.
    pub issuer: Address,
}

/// What revoking a certificate names.
#[derive(Clone, Copy, Debug)]
pub struct Revoke {
    /// The cell of the certificate.
    pub entry: Address,
    /// The signer, who must be the issuer or the owner.
    pub user: Address,
}

/// The ledger of the registry. It has no control record.
pub type Registry = Ledger<(), EntryData>;

/// The state of the registry as a mathematical value.
pub type RegistryView = LedgerView<(), EntryDataView>;

/// The seeds of the cell of a certificate: one certificate for each mint and
/// owner.
pub open spec fn certificate_seeds(mint: Address, owner: Address) -> Seq<Seq<u8>> {
    seq![CERTIFICATE_SEED@, mint@, owner@]
}

/// The canonical address and bump of the cell for the certificate of a mint
/// and an owner.
pub fn certificate_address(program_id: &Address, mint: &Address, owner: &Address) -> (r: Option<
    (Address, u8),
>)
    ensures
        cell_view(r) == derived(certificate_seeds(*mint, *owner), program_id@),
{
    crate::derivation::derive(
        three_seeds(CERTIFICATE_SEED.as_slice(), mint.bytes.as_slice(), owner.bytes.as_slice()),
        program_id,
    )
}

/// The certificate that an `issue` request asks for.
pub open spec fn issued_certificate(ctx: Issue, ix: IssueIx, now: i64) -> EntryDataView {
    EntryDataView {
        mint_address: ctx.mint,
        owner: ix.owner,
        issuer: ctx.issuer,
        issued_at: now,
        schema_version: ix.schema_version,
        data: ix.data@,
    }
}

/// How an `issue` request ends, where `cell` is what the derivation gave for
/// the mint and the owner.
pub open spec fn issue_outcome_at(
    state: RegistryView,
    ctx: Issue,
    ix: IssueIx,
    now: i64,
    cell: Option<(Seq<u8>, u8)>,
) -> Result<(), ErrorCode> {
    if cell != Some((ctx.entry@, ix.bump)) {
        Err(ErrorCode::MalformedAddress)
    } else if state.occupied(ctx.entry) {
        Err(ErrorCode::AddressAlreadyInUse)
    } else if !issued_certificate(ctx, ix, now).fits() {
        Err(ErrorCode::StorageExceeded)
    } else {
        Ok(())
    }
}

/// How an `issue` request ends.
pub open spec fn issue_outcome(
    state: RegistryView,
    ctx: Issue,
    ix: IssueIx,
    now: i64,
) -> Result<(), ErrorCode> {
    issue_outcome_at(
        state,
        ctx,
        ix,
        now,
        derived(certificate_seeds(ctx.mint, ix.owner), state.program_id@),
    )
}

/// The state after an `issue` request, where `cell` is what the derivation
/// gave for the mint and the owner.
pub open spec fn issue_state_at(
    state: RegistryView,
    ctx: Issue,
    ix: IssueIx,
    now: i64,
    cell: Option<(Seq<u8>, u8)>,
) -> RegistryView {
    if issue_outcome_at(state, ctx, ix, now, cell) is Ok {
        LedgerView {
            entries: state.entries.insert(ctx.entry, issued_certificate(ctx, ix, now)),
            ..state
        }
    } else {
        state
    }
}

/// The state after an `issue` request.
pub open spec fn issue_state(
    state: RegistryView,
    ctx: Issue,
    ix: IssueIx,
    now: i64,
) -> RegistryView {
    issue_state_at(
        state,
        ctx,
        ix,
        now,
        derived(certificate_seeds(ctx.mint, ix.owner), state.program_id@),
    )
}

/// Issues a certificate about the owner of a mint, stamped with the time.
/// Anybody may issue one.
///
/// `cell` is what the derivation gave for the mint and the owner.
///
/// Refused with `MalformedAddress` unless the request names the address and
/// bump of `cell`, with `AddressAlreadyInUse` if a record lives there
/// already, with `StorageExceeded` if the certificate does not fit into its
/// cell.
pub fn issue_at(
    ledger: &mut Registry,
    ctx: Issue,
    ix: IssueIx,
    now: i64,
    cell: Option<(Address, u8)>,
) -> (r: Result<(), ErrorCode>)
    requires
        old(ledger).wf(),
    ensures
        final(ledger).wf(),
        r == issue_outcome_at(old(ledger)@, ctx, ix, now, cell_view(cell)),
        final(ledger)@ == issue_state_at(old(ledger)@, ctx, ix, now, cell_view(cell)),
{
    if !names(&cell, &ctx.entry, ix.bump) {
        return Err(ErrorCode::MalformedAddress);
    }
    if ledger.occupied(&ctx.entry) {
        return Err(ErrorCode::AddressAlreadyInUse);
    }
    if ix.data.as_str().as_bytes().len() > ENTRY_SPACE - ENTRY_FIXED_LEN {
        return Err(ErrorCode::StorageExceeded);
    }
    let certificate = EntryData {
        mint_address: ctx.mint,
        owner: ix.owner,
        issuer: ctx.issuer,
        issued_at: now,
        schema_version: ix.schema_version,
        data: ix.data,
    };
    ledger.put_entry(ctx.entry, certificate);
    Ok(())
}

/// Issues a certificate about the owner of a mint, stamped with the time.
/// Anybody may issue one.
///
/// Refused with `MalformedAddress` unless the request names the canonical
/// address and bump of the mint and the owner, with `AddressAlreadyInUse`
/// if a record lives there already, with `StorageExceeded` if the
/// certificate does not fit into its cell.
pub fn issue(ledger: &mut Registry, ctx: Issue, ix: IssueIx, now: i64) -> (r: Result<(), ErrorCode>)
    requires
        old(ledger).wf(),
    ensures
        final(ledger).wf(),
        r == issue_outcome(old(ledger)@, ctx, ix, now),
        final(ledger)@ == issue_state(old(ledger)@, ctx, ix, now),
{
    let cell = certificate_address(&ledger.program_id(), &ctx.mint, &ix.owner);
    issue_at(ledger, ctx, ix, now, cell)
}

/// How a `revoke` request ends.
pub open spec fn revoke_outcome(state: RegistryView, ctx: Revoke) -> Result<(), ErrorCode> {
    if !state.entries.contains_key(ctx.entry) {
        Err(ErrorCode::RecordNotFound)
    } else if !state.entries[ctx.entry].may_revoke(ctx.user) {
        Err(ErrorCode::InsufficientAuthority)
    } else {
        Ok(())
    }
}

/// The state after a `revoke` request.
pub open spec fn revoke_state(state: RegistryView, ctx: Revoke) -> RegistryView {
    if revoke_outcome(state, ctx) is Ok {
        LedgerView { entries: state.entries.remove(ctx.entry), ..state }
    } else {
        state
    }
}

/// Revokes a certificate: removes it for good.
///
/// Refused with `RecordNotFound` if no certificate lives in the cell, with
/// `InsufficientAuthority` unless the signer issued the certificate or is
/// the one it is about.
pub fn revoke(ledger: &mut Registry, ctx: Revoke) -> (r: Result<(), ErrorCode>)
    requires
        old(ledger).wf(),
    ensures
        final(ledger).wf(),
        r == revoke_outcome(old(ledger)@, ctx),
        final(ledger)@ == revoke_state(old(ledger)@, ctx),
{
    let may_revoke = match ledger.entry(&ctx.entry) {
        None => {
            return Err(ErrorCode::RecordNotFound);
        },
        Some(certificate) => certificate.may_revoke(&ctx.user),
    };
    if !may_revoke {
        return Err(ErrorCode::InsufficientAuthority);
    }
    let removed = ledger.take_entry(&ctx.entry);
    Ok(())
}

} // verus!
