//! The processor of one stake intent, as a function from what the host
//! reports to what the host does next.

use vstd::prelude::*;
use crate::access_control::{validate, AccessControlRequest};
use crate::error::{StakeError, TransferFailure};
use crate::identity::Identity;
use crate::records::{Clock, Entity, Member, Resolved};
use crate::state_transition::{
    settlement, state_transition, transfer_order, StateTransitionRequest,
};
use crate::transfer::{TransferOrder, TransferOrderView};

verus! {

/// One call: who asks, for which records, how much, and when. The entity and
/// the member inside `access` are the records that a finished call has
/// updated.
#[derive(Clone, Copy, Debug, PartialEq, Eq)]
pub struct StakeIntent {
    pub access: AccessControlRequest,
    /// The funding source.
    pub depositor: Identity,
    pub amount: u64,
    pub clock: Clock,
}

/// What the host reports to the processor.
#[derive(Clone, Copy, Debug, PartialEq, Eq)]
pub enum Event {
    /// The call has arrived and nothing has been done for it.
    Submitted,
    /// The ordered transfer was attempted, with this outcome.
    Transferred(Result<(), TransferFailure>),
}

/// What the host does next.
#[derive(Debug, PartialEq, Eq)]
pub enum Action {
    /// Make this transfer, then report `Event::Transferred`.
    Transfer(TransferOrder),
    /// The call is over, with this result.
    Finish(Result<(), StakeError>),
}

/// An action as a mathematical value.
pub enum ActionView {
    Transfer(TransferOrderView),
    Finish(Result<(), StakeError>),
}

impl View for Action {
    type V = ActionView;

    open spec fn view(&self) -> ActionView {
        match self {
            Action::Transfer(order) => ActionView::Transfer(order@),
            Action::Finish(result) => ActionView::Finish(*result),
        }
    }
}

impl StakeIntent {
    /// What the transition works from. Meaningful where the call is
    /// authorized: the registrar has then resolved.
    pub open spec fn transition(self) -> StateTransitionRequest {
        StateTransitionRequest {
            amount: self.amount,
            is_mega: self.access.is_mega,
            is_delegate: self.access.is_delegate,
            registrar: self.access.registrar.record->Some_0,
            registrar_address: self.access.registrar.address,
            clock: self.clock,
            depositor: self.depositor,
            vault: self.access.vault.address,
            token_authority: self.access.token_authority.identity,
        }
    }

    /// The call with other records for its entity and its member.
    pub open spec fn with_records(self, entity: Entity, member: Member) -> StakeIntent {
        StakeIntent {
            access: AccessControlRequest {
                entity: Resolved {
                    address: self.access.entity.address,
                    owner: self.access.entity.owner,
                    record: Some(entity),
                },
                member: Resolved {
                    address: self.access.member.address,
                    owner: self.access.member.owner,
                    record: Some(member),
                },
                ..self.access
            },
            ..self
        }
    }

    /// The booking that a report on the transfer leads to, where the call is
    /// authorized.
    pub open spec fn settled(self, transferred: Result<(), TransferFailure>) -> (
        Result<(), StakeError>,
        Entity,
        Member,
    ) {
        settlement(
            self.transition(),
            self.access.entity.record->Some_0,
            self.access.member.record->Some_0,
            transferred,
        )
    }

    /// What the host is told to do on `event`.
    ///
    /// A call that is not authorized is over, whatever the event. One that
    /// is authorized is answered with the transfer to make when it arrives,
    /// and with the result of the booking when the transfer is reported.
    pub open spec fn action(self, event: Event) -> ActionView {
        match self.access.verdict() {
            Err(e) => ActionView::Finish(Err(e)),
            Ok(_) => match event {
                Event::Submitted => ActionView::Transfer(self.transition().ordered_transfer()),
                Event::Transferred(transferred) => ActionView::Finish(self.settled(transferred).0),
            },
        }
    }

    /// The call after `event`: its entity and member booked where the call
    /// is authorized and a transfer is reported made, and unchanged in every
    /// other case.
    pub open spec fn after(self, event: Event) -> StakeIntent {
        match (self.access.verdict(), event) {
            (Ok(_), Event::Transferred(transferred)) => self.with_records(
                self.settled(transferred).1,
                self.settled(transferred).2,
            ),
            _ => self,
        }
    }
}

/// Takes a stake intent one step further.
///
/// The host calls with `Event::Submitted`, makes the transfer that comes
/// back, and calls again with `Event::Transferred`. The request is validated
/// at every step, so that no report, in or out of turn, books anything for a
/// call that is not authorized. Nothing here remembers an earlier call: a
/// call that is repeated is booked again.
///
/// An amount of zero is taken like any other: the transfer is ordered, and
/// the booking leaves the totals and stamps the entity.
pub fn handler(call: &mut StakeIntent, event: Event) -> (action: Action)
    ensures
        action@ == old(call).action(event),
        *final(call) == old(call).after(event),
{
    let validated = match validate(&call.access) {
        Ok(validated) => validated,
        Err(e) => {
            return Action::Finish(Err(e));
        },
    };
    let req = StateTransitionRequest {
        amount: call.amount,
        is_mega: call.access.is_mega,
        is_delegate: call.access.is_delegate,
        registrar: validated.registrar,
        registrar_address: call.access.registrar.address,
        clock: call.clock,
        depositor: call.depositor,
        vault: call.access.vault.address,
        token_authority: call.access.token_authority.identity,
    };
    match event {
        Event::Submitted => match transfer_order(&req) {
            Ok(order) => Action::Transfer(order),
            Err(e) => Action::Finish(Err(e)),
        },
        Event::Transferred(transferred) => {
            let mut entity = validated.entity;
            let mut member = validated.member;
            let result = state_transition(&req, &mut entity, &mut member, transferred);
            call.access.entity.record = Some(entity);
            call.access.member.record = Some(member);
            Action::Finish(result)
        },
    }
}

} // verus!
