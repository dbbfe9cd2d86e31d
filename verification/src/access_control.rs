//! The validation before any transfer or booking: who signed, which records
//! the call names, and whether they belong together.

use vstd::prelude::*;
use crate::error::StakeError;
use crate::identity::{Identity, Signer};
use crate::records::{Entity, Member, Registrar, Resolved, Vault};

verus! {

/// Everything the validation looks at. `is_mega` picks the vault that the
/// call must name; `is_delegate` picks who must have signed besides the
/// beneficiary.
#[derive(Clone, Copy, Debug, PartialEq, Eq)]
pub struct AccessControlRequest {
    /// This program: the owner that the pool's records must have.
    pub program_id: Identity,
    pub beneficiary: Signer,
    pub delegate_owner: Signer,
    pub token_authority: Signer,
    pub registrar: Resolved<Registrar>,
    pub entity: Resolved<Entity>,
    pub member: Resolved<Member>,
    pub vault: Resolved<Vault>,
    pub is_mega: bool,
    pub is_delegate: bool,
}

impl AccessControlRequest {
    /// The beneficiary signed, and so did the delegate owner of a delegated
    /// call or the token authority of a direct one.
    pub open spec fn signed(self) -> bool {
        &&& self.beneficiary.is_signer
        &&& if self.is_delegate {
            self.delegate_owner.is_signer
        } else {
            self.token_authority.is_signer
        }
    }

    /// The registrar is a record of this program.
    pub open spec fn registrar_valid(self) -> bool {
        &&& self.registrar.owner == self.program_id
        &&& self.registrar.record is Some
    }

    /// The entity is a record of this program, registered with the registrar.
    pub open spec fn entity_valid(self) -> bool {
        &&& self.entity.owner == self.program_id
        &&& self.entity.record matches Some(entity)
        &&& entity.registrar == self.registrar.address
    }

    /// The member is a record of this program and belongs to the entity.
    pub open spec fn member_valid(self) -> bool {
        &&& self.member.owner == self.program_id
        &&& self.member.record matches Some(member)
        &&& member.entity == self.entity.address
    }

    /// The beneficiary named in the call is the one stored on the member.
    pub open spec fn beneficiary_matches(self) -> bool {
        &&& self.member.record matches Some(member)
        &&& member.beneficiary == self.beneficiary.identity
    }

    /// The member has a delegate owner.
    pub open spec fn delegate_configured(self) -> bool {
        &&& self.member.record matches Some(member)
        &&& member.delegate_owner is Some
    }

    /// The vault resolved, and is the one that the registrar designates for
    /// the category of the call.
    pub open spec fn vault_valid(self) -> bool {
        &&& self.vault.record is Some
        &&& self.registrar.record matches Some(registrar)
        &&& self.vault.address == if self.is_mega {
            registrar.mega_vault
        } else {
            registrar.vault
        }
    }

    /// The delegate owner named in the call is the one stored on the member.
    pub open spec fn delegate_owner_matches(self) -> bool {
        &&& self.member.record matches Some(member)
        &&& member.delegate_owner == Some(self.delegate_owner.identity)
    }

    /// The token authority named in the call is the owner of the vault.
    pub open spec fn token_authority_owns_vault(self) -> bool {
        &&& self.vault.record matches Some(vault)
        &&& vault.owner == self.token_authority.identity
    }

    /// The verdict on the request: the error of the first rule that the
    /// request breaks, in the order in which the rules are listed here.
    pub open spec fn verdict(self) -> Result<(), StakeError> {
        if !self.signed() {
            Err(StakeError::Unauthorized)
        } else if !self.registrar_valid() {
            Err(StakeError::InvalidRegistrar)
        } else if !self.entity_valid() {
            Err(StakeError::InvalidEntity)
        } else if !self.member_valid() {
            Err(StakeError::InvalidMember)
        } else if !self.beneficiary_matches() {
            Err(StakeError::InvalidBeneficiary)
        } else if self.is_delegate && !self.delegate_configured() {
            Err(StakeError::InvalidMember)
        } else if !self.vault_valid() {
            Err(StakeError::InvalidVault)
        } else if self.is_delegate && !self.delegate_owner_matches() {
            Err(StakeError::InvalidMemberDelegateOwner)
        } else if self.is_delegate && !self.token_authority_owns_vault() {
            Err(StakeError::InvalidTokenAuthority)
        } else {
            Ok(())
        }
    }

    /// The request breaks no rule.
    pub open spec fn authorized(self) -> bool {
        self.verdict() is Ok
    }

    /// The records that the request names. Meaningful where the request
    /// breaks no rule: all four have then resolved.
    pub open spec fn records(self) -> Validated {
        Validated {
            registrar: self.registrar.record->Some_0,
            entity: self.entity.record->Some_0,
            member: self.member.record->Some_0,
            vault: self.vault.record->Some_0,
        }
    }
}

/// The registrar behind `resolved`, where it is a record of `program_id`.
pub fn registrar(resolved: &Resolved<Registrar>, program_id: &Identity) -> (r: Result<
    Registrar,
    StakeError,
>)
    ensures
        match r {
            Ok(registrar) => resolved.owner == *program_id && resolved.record == Some(registrar),
            Err(e) => e == StakeError::InvalidRegistrar && !(resolved.owner == *program_id
                && resolved.record is Some),
        },
{
    if resolved.owner != *program_id {
        return Err(StakeError::InvalidRegistrar);
    }
    match resolved.record {
        Some(registrar) => Ok(registrar),
        None => Err(StakeError::InvalidRegistrar),
    }
}

/// The entity behind `resolved`, where it is a record of `program_id` that is
/// registered with the registrar at `registrar`.
pub fn entity(resolved: &Resolved<Entity>, registrar: &Identity, program_id: &Identity) -> (r:
    Result<Entity, StakeError>)
    ensures
        match r {
            Ok(entity) => {
                &&& resolved.owner == *program_id
                &&& resolved.record == Some(entity)
                &&& entity.registrar == *registrar
            },
            Err(e) => e == StakeError::InvalidEntity && !{
                &&& resolved.owner == *program_id
                &&& resolved.record matches Some(entity)
                &&& entity.registrar == *registrar
            },
        },
{
    if resolved.owner != *program_id {
        return Err(StakeError::InvalidEntity);
    }
    match resolved.record {
        Some(entity) => {
            if entity.registrar != *registrar {
                return Err(StakeError::InvalidEntity);
            }
            Ok(entity)
        },
        None => Err(StakeError::InvalidEntity),
    }
}

/// What `member` says of a resolved member: the record, or the error of the
/// first of its rules that is broken.
pub open spec fn member_checked(
    resolved: Resolved<Member>,
    entity: Identity,
    beneficiary: Identity,
    is_delegate: bool,
    program_id: Identity,
) -> Result<Member, StakeError> {
    match resolved.record {
        Some(member) => {
            if resolved.owner != program_id || member.entity != entity {
                Err(StakeError::InvalidMember)
            } else if member.beneficiary != beneficiary {
                Err(StakeError::InvalidBeneficiary)
            } else if is_delegate && member.delegate_owner is None {
                Err(StakeError::InvalidMember)
            } else {
                Ok(member)
            }
        },
        None => Err(StakeError::InvalidMember),
    }
}

/// The member behind `resolved`, where it is a record of `program_id` that
/// belongs to the entity at `entity`, has `beneficiary` as its beneficiary
/// and, for a delegated call, has a delegate owner.
pub fn member(
    resolved: &Resolved<Member>,
    entity: &Identity,
    beneficiary: &Identity,
    is_delegate: bool,
    program_id: &Identity,
) -> (r: Result<Member, StakeError>)
    ensures
        r == member_checked(*resolved, *entity, *beneficiary, is_delegate, *program_id),
{
    if resolved.owner != *program_id {
        return Err(StakeError::InvalidMember);
    }
    match resolved.record {
        Some(member) => {
            if member.entity != *entity {
                return Err(StakeError::InvalidMember);
            }
            if member.beneficiary != *beneficiary {
                return Err(StakeError::InvalidBeneficiary);
            }
            if is_delegate && member.delegate_owner.is_none() {
                return Err(StakeError::InvalidMember);
            }
            Ok(member)
        },
        None => Err(StakeError::InvalidMember),
    }
}

/// The vault behind `resolved`, where it is the vault that `registrar`
/// designates for the category.
pub fn vault(resolved: &Resolved<Vault>, registrar: &Registrar, is_mega: bool) -> (r: Result<
    Vault,
    StakeError,
>)
    ensures
        match r {
            Ok(vault) => {
                &&& resolved.record == Some(vault)
                &&& resolved.address == if is_mega {
                    registrar.mega_vault
                } else {
                    registrar.vault
                }
            },
            Err(e) => e == StakeError::InvalidVault && !{
                &&& resolved.record is Some
                &&& resolved.address == if is_mega {
                    registrar.mega_vault
                } else {
                    registrar.vault
                }
            },
        },
{
    let designated = if is_mega {
        registrar.mega_vault
    } else {
        registrar.vault
    };
    if resolved.address != designated {
        return Err(StakeError::InvalidVault);
    }
    match resolved.record {
        Some(vault) => Ok(vault),
        None => Err(StakeError::InvalidVault),
    }
}

/// The four records of a request that broke no rule.
#[derive(Clone, Copy, Debug, PartialEq, Eq)]
pub struct Validated {
    pub registrar: Registrar,
    pub entity: Entity,
    pub member: Member,
    pub vault: Vault,
}

/// Applies the rules in their order and hands out the records that they
/// were applied to. The first rule broken names the error.
pub fn validate(req: &AccessControlRequest) -> (r: Result<Validated, StakeError>)
    ensures
        match r {
            Ok(validated) => req.verdict() is Ok && validated == req.records(),
            Err(e) => req.verdict() == Err::<(), StakeError>(e),
        },
{
    if !req.beneficiary.is_signer {
        return Err(StakeError::Unauthorized);
    }
    if req.is_delegate {
        if !req.delegate_owner.is_signer {
            return Err(StakeError::Unauthorized);
        }
    } else {
        if !req.token_authority.is_signer {
            return Err(StakeError::Unauthorized);
        }
    }
    let registrar = registrar(&req.registrar, &req.program_id)?;
    let entity = entity(&req.entity, &req.registrar.address, &req.program_id)?;
    let member = member(
        &req.member,
        &req.entity.address,
        &req.beneficiary.identity,
        req.is_delegate,
        &req.program_id,
    )?;
    let vault = vault(&req.vault, &registrar, req.is_mega)?;
    if req.is_delegate {
        match member.delegate_owner {
            Some(owner) => {
                if !req.delegate_owner.is_authenticated_as(&owner) {
                    return Err(StakeError::InvalidMemberDelegateOwner);
                }
            },
            None => {
                return Err(StakeError::InvalidMember);
            },
        }
        if req.token_authority.identity != vault.owner {
            return Err(StakeError::InvalidTokenAuthority);
        }
    }
    Ok(Validated { registrar, entity, member, vault })
}

/// Decides whether the call may proceed. Nothing is changed: the decision
/// only reads.
pub fn access_control(req: &AccessControlRequest) -> (r: Result<(), StakeError>)
    ensures
        r == req.verdict(),
{
    match validate(req) {
        Ok(_) => Ok(()),
        Err(e) => Err(e),
    }
}

} // verus!
