//! The ways a stake intent can fail.

use vstd::prelude::*;

verus! {

/// What the transfer service reported when it refused a transfer. The code is
/// the service's own and is handed on as it came.
#[derive(Clone, Copy, Debug, PartialEq, Eq)]
pub struct TransferFailure {
    pub code: u64,
}

/// Every failure ends the call; none is retried and none leaves a record
/// half updated.
#[derive(Clone, Copy, Debug, PartialEq, Eq)]
pub enum StakeError {
    /// A required signer did not sign.
    Unauthorized,
    /// The delegate owner that signed is not the one stored on the member.
    InvalidMemberDelegateOwner,
    /// A delegated transfer was not co-signed by the vault's owner.
    InvalidTokenAuthority,
    /// The registrar is not a record of this program.
    InvalidRegistrar,
    /// The entity is not a record of this program under this registrar.
    InvalidEntity,
    /// The member is not a record of this program under this entity, or a
    /// delegated call names a member without a delegate owner.
    InvalidMember,
    /// The beneficiary that signed is not the one stored on the member.
    InvalidBeneficiary,
    /// The vault is not the one the registrar designates for the category.
    InvalidVault,
    /// The transfer service refused the transfer.
    Transfer(TransferFailure),
    /// A total would no longer fit in 64 bits.
    Overflow,
}

} // verus!
