//! What follows the authorization: the transfer to order, and the booking once
//! the transfer has been made.

use vstd::prelude::*;
use crate::error::{StakeError, TransferFailure};
use crate::identity::Identity;
use crate::records::{Clock, Entity, Member, Registrar};
use crate::transfer::{
    signer_seeds, signer_seeds_of, token_transfer, token_transfer_instruction, TransferOrder,
    TransferOrderView,
};

verus! {

/// What the transition works from, beside the two records that it updates.
#[derive(Clone, Copy, Debug, PartialEq, Eq)]
pub struct StateTransitionRequest {
    pub amount: u64,
    pub is_mega: bool,
    pub is_delegate: bool,
    pub registrar: Registrar,
    /// Where the registrar is stored.
    pub registrar_address: Identity,
    pub clock: Clock,
    /// The funding source.
    pub depositor: Identity,
    /// The vault that receives the funds.
    pub vault: Identity,
    /// The identity under whose authority the funds move.
    pub token_authority: Identity,
}

impl StateTransitionRequest {
    /// The transfer that the request calls for. A delegated transfer carries
    /// the seeds of the authority derived from the registrar; a direct one
    /// carries none, the token authority having signed the call itself.
    pub open spec fn ordered_transfer(self) -> TransferOrderView {
        TransferOrderView {
            amount: self.amount,
            from: self.depositor,
            to: self.vault,
            authority: self.token_authority,
            signer_seeds: if self.is_delegate {
                Some(signer_seeds_of(self.registrar_address, self.registrar.nonce))
            } else {
                None
            },
            instruction: token_transfer_instruction(
                self.depositor,
                self.vault,
                self.token_authority,
                self.amount,
            ),
        }
    }
}

/// The result of booking, and the two records after it. A failed transfer
/// and a total that would not fit leave both records as they were; otherwise
/// both are credited with the amount and the entity is stamped with the
/// clock.
pub open spec fn settlement(
    req: StateTransitionRequest,
    entity: Entity,
    member: Member,
    transferred: Result<(), TransferFailure>,
) -> (Result<(), StakeError>, Entity, Member) {
    match transferred {
        Err(failure) => (Err(StakeError::Transfer(failure)), entity, member),
        Ok(_) => match (
            member.with_stake_intent(req.amount, req.is_mega),
            entity.with_stake_intent(req.amount, req.is_mega, req.clock),
        ) {
            (Some(credited_member), Some(credited_entity)) => (
                Ok(()),
                credited_entity,
                credited_member,
            ),
            _ => (Err(StakeError::Overflow), entity, member),
        },
    }
}

/// Orders the transfer of the request's amount from the depositor into the
/// vault.
pub fn transfer_order(req: &StateTransitionRequest) -> (r: Result<TransferOrder, StakeError>)
    ensures
        r is Ok,
        r->Ok_0@ == req.ordered_transfer(),
{
    let instruction = match token_transfer(
        &req.depositor,
        &req.vault,
        &req.token_authority,
        req.amount,
    ) {
        Ok(instruction) => instruction,
        Err(failure) => {
            return Err(StakeError::Transfer(failure));
        },
    };
    let seeds = if req.is_delegate {
        Some(signer_seeds(&req.registrar_address, req.registrar.nonce))
    } else {
        None
    };
    Ok(
        TransferOrder {
            amount: req.amount,
            from: req.depositor,
            to: req.vault,
            authority: req.token_authority,
            signer_seeds: seeds,
            instruction,
        },
    )
}

/// Books the stake intent once the host has reported on the transfer. The
/// member is credited first, then the entity; where the entity's total would
/// not fit, the member is put back as it was.
pub fn state_transition(
    req: &StateTransitionRequest,
    entity: &mut Entity,
    member: &mut Member,
    transferred: Result<(), TransferFailure>,
) -> (r: Result<(), StakeError>)
    ensures
        (r, *final(entity), *final(member)) == settlement(
            *req,
            *old(entity),
            *old(member),
            transferred,
        ),
{
    match transferred {
        Err(failure) => {
            return Err(StakeError::Transfer(failure));
        },
        Ok(_) => {},
    }
    let before = *member;
    member.add_stake_intent(req.amount, req.is_mega)?;
    match entity.add_stake_intent(req.amount, req.is_mega, &req.clock) {
        Ok(_) => Ok(()),
        Err(e) => {
            *member = before;
            Err(e)
        },
    }
}

} // verus!
