//! What holds of every call, stated over the functions that the contracts of
//! access control and of the processor speak of.

use vstd::prelude::*;
use crate::access_control::AccessControlRequest;
use crate::error::{StakeError, TransferFailure};
use crate::handler::{ActionView, Event, StakeIntent};

verus! {

/// A request is authorized only where every rule holds: the signatures are
/// there, the four records are valid and belong together, the beneficiary is
/// the member's, and, for a delegated call, the delegate owner is the one
/// stored on the member and the token authority is the vault's owner.
pub proof fn authorized_request_holds_every_rule(req: AccessControlRequest)
    requires
        req.authorized(),
    ensures
        req.signed(),
        req.registrar_valid(),
        req.entity_valid(),
        req.member_valid(),
        req.beneficiary_matches(),
        req.vault_valid(),
        req.is_delegate ==> req.delegate_configured() && req.delegate_owner_matches()
            && req.token_authority_owns_vault(),
{
}

/// A direct call is authorized only where the beneficiary and the token
/// authority have both signed and the beneficiary is the one stored on the
/// member.
pub proof fn direct_call_passes_only_signed_by_both(req: AccessControlRequest)
    requires
        !req.is_delegate,
        req.authorized(),
    ensures
        req.beneficiary.is_signer,
        req.token_authority.is_signer,
        req.beneficiary_matches(),
{
}

/// A direct call that lacks one of the two signatures is refused as
/// `Unauthorized`; one that has both but names another beneficiary than the
/// member's is refused as `InvalidBeneficiary`. Left out are the calls that
/// have both signatures and name a registrar, an entity or a member that is
/// not valid: the records are judged before the beneficiary is compared,
/// and the error names the record.
pub proof fn direct_call_refused(req: AccessControlRequest)
    requires
        !req.is_delegate,
        !(req.beneficiary.is_signer && req.token_authority.is_signer && req.beneficiary_matches()),
        !(req.beneficiary.is_signer && req.token_authority.is_signer) || (req.registrar_valid()
            && req.entity_valid() && req.member_valid()),
    ensures
        req.verdict() == if req.beneficiary.is_signer && req.token_authority.is_signer {
            Err::<(), StakeError>(StakeError::InvalidBeneficiary)
        } else {
            Err::<(), StakeError>(StakeError::Unauthorized)
        },
{
}

/// No delegated call is authorized under a delegate owner other than the
/// one stored on the member, whatever else it gets right.
pub proof fn delegated_call_needs_the_stored_delegate_owner(req: AccessControlRequest)
    requires
        req.is_delegate,
        !req.delegate_owner_matches(),
    ensures
        !req.authorized(),
{
}

/// A delegated call that breaks no earlier rule and comes from a delegate
/// owner other than the one stored on the member is refused as
/// `InvalidMemberDelegateOwner`.
pub proof fn delegate_owner_mismatch_is_named(req: AccessControlRequest)
    requires
        req.is_delegate,
        req.signed(),
        req.registrar_valid(),
        req.entity_valid(),
        req.member_valid(),
        req.beneficiary_matches(),
        req.delegate_configured(),
        req.vault_valid(),
        !req.delegate_owner_matches(),
    ensures
        req.verdict() == Err::<(), StakeError>(StakeError::InvalidMemberDelegateOwner),
{
}

/// A delegated call that breaks no earlier rule, comes from the stored
/// delegate owner, and is co-signed by another identity than the vault's
/// owner is refused as `InvalidTokenAuthority`.
pub proof fn token_authority_mismatch_is_named(req: AccessControlRequest)
    requires
        req.is_delegate,
        req.signed(),
        req.registrar_valid(),
        req.entity_valid(),
        req.member_valid(),
        req.beneficiary_matches(),
        req.delegate_configured(),
        req.vault_valid(),
        req.delegate_owner_matches(),
        !req.token_authority_owns_vault(),
    ensures
        req.verdict() == Err::<(), StakeError>(StakeError::InvalidTokenAuthority),
{
}

/// Whether a call is for the regular or for the mega category has no part in
/// the verdict beyond the choice of the vault that the call must name: two
/// requests that differ in the category alone get the same verdict, unless
/// one of them names the wrong vault.
pub proof fn category_only_selects_the_vault(req: AccessControlRequest, other: AccessControlRequest)
    requires
        other == (AccessControlRequest { is_mega: !req.is_mega, ..req }),
    ensures
        req.verdict() == other.verdict() || req.verdict() == Err::<(), StakeError>(
            StakeError::InvalidVault,
        ) || other.verdict() == Err::<(), StakeError>(StakeError::InvalidVault),
{
}

/// A call that is not authorized is finished with the verdict's error on
/// every event, and nothing is booked.
pub proof fn unauthorized_call_books_nothing(call: StakeIntent, event: Event)
    requires
        !call.access.authorized(),
    ensures
        call.action(event) == ActionView::Finish(Err(call.access.verdict()->Err_0)),
        call.after(event) == call,
{
}

/// Ordering the transfer books nothing.
pub proof fn submission_books_nothing(call: StakeIntent)
    ensures
        call.after(Event::Submitted) == call,
{
}

/// A failed transfer leaves the member and the entity as they were, and
/// ends an authorized call with the service's own failure.
pub proof fn failed_transfer_books_nothing(call: StakeIntent, failure: TransferFailure)
    ensures
        call.after(Event::Transferred(Err(failure))) == call,
        call.access.authorized() ==> call.action(Event::Transferred(Err(failure)))
            == ActionView::Finish(Err(StakeError::Transfer(failure))),
{
}

/// Where the call is authorized, the transfer is made, and both totals have
/// room for the amount, the call succeeds: the member's and the entity's total of
/// the selected category have each grown by exactly the amount, the totals
/// of the other category are as they were, and the entity carries the clock
/// value of the call.
pub proof fn made_transfer_is_booked(call: StakeIntent)
    requires
        call.access.authorized(),
        call.access.member.record->Some_0.stake_intent.of(call.access.is_mega) + call.amount
            <= u64::MAX,
        call.access.entity.record->Some_0.stake_intent.of(call.access.is_mega) + call.amount
            <= u64::MAX,
    ensures
        call.action(Event::Transferred(Ok(()))) == ActionView::Finish(Ok(())),
        ({
            let is_mega = call.access.is_mega;
            let member = call.access.member.record->Some_0;
            let entity = call.access.entity.record->Some_0;
            let after = call.after(Event::Transferred(Ok(())));
            let booked_member = after.access.member.record->Some_0;
            let booked_entity = after.access.entity.record->Some_0;
            &&& after.access.member.record is Some
            &&& after.access.entity.record is Some
            &&& booked_member.stake_intent.of(is_mega) == member.stake_intent.of(is_mega)
                + call.amount
            &&& booked_entity.stake_intent.of(is_mega) == entity.stake_intent.of(is_mega)
                + call.amount
            &&& booked_member.stake_intent.of(!is_mega) == member.stake_intent.of(!is_mega)
            &&& booked_entity.stake_intent.of(!is_mega) == entity.stake_intent.of(!is_mega)
            &&& booked_entity.last_update == call.clock.unix_timestamp
        }),
{
}

/// Where the amount would take the member's or the entity's total of the
/// selected category past 64 bits, the call fails with `Overflow` and the
/// member and the entity are as they were.
pub proof fn overflow_books_nothing(call: StakeIntent)
    requires
        call.access.authorized(),
        call.access.member.record->Some_0.stake_intent.of(call.access.is_mega) + call.amount
            > u64::MAX || call.access.entity.record->Some_0.stake_intent.of(call.access.is_mega)
            + call.amount > u64::MAX,
    ensures
        call.action(Event::Transferred(Ok(()))) == ActionView::Finish(Err(StakeError::Overflow)),
        call.after(Event::Transferred(Ok(()))) == call,
{
}

/// The member and the entity are booked together or not at all: after any
/// event the call is as it was, or both records carry the stake intent and
/// the call has succeeded.
pub proof fn booked_together_or_not_at_all(call: StakeIntent, event: Event)
    ensures
        ({
            let member = call.access.member.record->Some_0;
            let entity = call.access.entity.record->Some_0;
            let after = call.after(event);
            ||| after == call
            ||| {
                &&& call.action(event) == ActionView::Finish(Ok(()))
                &&& after.access.member.record == member.with_stake_intent(
                    call.amount,
                    call.access.is_mega,
                )
                &&& after.access.entity.record == entity.with_stake_intent(
                    call.amount,
                    call.access.is_mega,
                    call.clock,
                )
                &&& after.access.member.record is Some
                &&& after.access.entity.record is Some
            }
        }),
{
}

/// No event makes a total smaller.
pub proof fn totals_never_decrease(call: StakeIntent, event: Event, is_mega: bool)
    requires
        call.access.authorized(),
    ensures
        call.after(event).access.member.record->Some_0.stake_intent.of(is_mega)
            >= call.access.member.record->Some_0.stake_intent.of(is_mega),
        call.after(event).access.entity.record->Some_0.stake_intent.of(is_mega)
            >= call.access.entity.record->Some_0.stake_intent.of(is_mega),
{
}

/// An event changes nothing of a call but the stake-intent totals of its
/// member and of its entity and the entity's time stamp: the signers, the
/// registrar, the vault, the flags, the amount and the clock stay, and so do
/// the identities that the two records hold. A call that was authorized
/// is authorized still.
pub proof fn only_the_books_change(call: StakeIntent, event: Event)
    ensures
        ({
            let after = call.after(event);
            &&& after.depositor == call.depositor
            &&& after.amount == call.amount
            &&& after.clock == call.clock
            &&& after.access.program_id == call.access.program_id
            &&& after.access.beneficiary == call.access.beneficiary
            &&& after.access.delegate_owner == call.access.delegate_owner
            &&& after.access.token_authority == call.access.token_authority
            &&& after.access.registrar == call.access.registrar
            &&& after.access.vault == call.access.vault
            &&& after.access.is_mega == call.access.is_mega
            &&& after.access.is_delegate == call.access.is_delegate
            &&& after.access.entity.address == call.access.entity.address
            &&& after.access.entity.owner == call.access.entity.owner
            &&& after.access.member.address == call.access.member.address
            &&& after.access.member.owner == call.access.member.owner
            &&& after.access.verdict() == call.access.verdict()
            &&& call.access.authorized() ==> {
                let member = call.access.member.record->Some_0;
                let entity = call.access.entity.record->Some_0;
                let booked_member = after.access.member.record->Some_0;
                let booked_entity = after.access.entity.record->Some_0;
                &&& booked_member.entity == member.entity
                &&& booked_member.beneficiary == member.beneficiary
                &&& booked_member.delegate_owner == member.delegate_owner
                &&& booked_entity.registrar == entity.registrar
            }
        }),
{
}

} // verus!
