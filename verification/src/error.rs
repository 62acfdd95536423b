//! The ways in which a request is refused.

use vstd::prelude::*;

verus! {

/// Why a request was refused. A refused request changes nothing.
#[derive(Clone, Copy, Debug, PartialEq, Eq, Structural)]
pub enum ErrorCode {
    /// The signer lacks the privilege that the request needs.
    InsufficientAuthority,
    /// The payer cannot cover the fee for adding an entry.
    InsufficientBalance,
    /// A record already lives at the address where one was to be created.
    AddressAlreadyInUse,
    /// The address is well formed but no record of the expected kind lives there.
    RecordNotFound,
    /// The address or bump that the request names is not the one derived
    /// from its seeds.
    MalformedAddress,
    /// The record does not fit into the storage reserved for its cell.
    StorageExceeded,
}

impl ErrorCode {
    /// The text shown to the user for this error.
    pub open spec fn message_text(self) -> Seq<char> {
        match self {
            ErrorCode::InsufficientAuthority => {
                "User does not have authority to modify this registry entry"@
            },
            ErrorCode::InsufficientBalance => {
                "User does not have enough sol to add an entry to this registry"@
            },
            ErrorCode::AddressAlreadyInUse => "A record already exists at this address"@,
            ErrorCode::RecordNotFound => "No record exists at this address"@,
            ErrorCode::MalformedAddress => {
                "The address does not match the seeds and bump provided"@
            },
            ErrorCode::StorageExceeded => "The record exceeds the storage reserved for it"@,
        }
    }

    /// The text shown to the user for this error.
    pub fn message(&self) -> (text: &'static str)
        ensures
            text@ == self.message_text(),
    {
        match self {
            ErrorCode::InsufficientAuthority => {
                "User does not have authority to modify this registry entry"
            },
            ErrorCode::InsufficientBalance => {
                "User does not have enough sol to add an entry to this registry"
            },
            ErrorCode::AddressAlreadyInUse => "A record already exists at this address",
            ErrorCode::RecordNotFound => "No record exists at this address",
            ErrorCode::MalformedAddress => {
                "The address does not match the seeds and bump provided"
            },
            ErrorCode::StorageExceeded => "The record exceeds the storage reserved for it",
        }
    }
}

} // verus!
