//! The records a stake intent reads and updates.
//!
//! Each record holds what a stake intent reads or writes and nothing else:
//! activated stake, the pool's policy and the balance of a vault are kept by
//! the host and are not touched here.

use vstd::prelude::*;
use crate::error::StakeError;
use crate::identity::Identity;

verus! {

/// The time as the host read it for the present call.
#[derive(Clone, Copy, Debug, PartialEq, Eq)]
pub struct Clock {
    pub unix_timestamp: i64,
}

/// Configuration of one staking pool.
#[derive(Clone, Copy, Debug, PartialEq, Eq)]
pub struct Registrar {
    /// The byte from which the authority over the pool's vaults is derived.
    pub nonce: u8,
    /// The vault that holds regular stake.
    pub vault: Identity,
    /// The vault that holds mega stake.
    pub mega_vault: Identity,
}

/// A custody record for transferred value.
#[derive(Clone, Copy, Debug, PartialEq, Eq)]
pub struct Vault {
    /// The authority that controls the vault.
    pub owner: Identity,
}

/// Stake-intent totals, one per category.
#[derive(Clone, Copy, Debug, PartialEq, Eq)]
pub struct Totals {
    pub regular: u64,
    pub mega: u64,
}

impl Totals {
    /// The total of the category that `is_mega` selects.
    pub open spec fn of(self, is_mega: bool) -> u64 {
        if is_mega {
            self.mega
        } else {
            self.regular
        }
    }

    /// The totals after `amount` is added to the selected category, where the
    /// sum fits in 64 bits.
    pub open spec fn credited(self, amount: u64, is_mega: bool) -> Option<Totals> {
        if self.of(is_mega) + amount > u64::MAX {
            None
        } else if is_mega {
            Some(Totals { regular: self.regular, mega: (self.mega + amount) as u64 })
        } else {
            Some(Totals { regular: (self.regular + amount) as u64, mega: self.mega })
        }
    }

    /// Adds `amount` to the selected category. `None` where the sum does not
    /// fit; a sum is never truncated.
    pub fn credit(&self, amount: u64, is_mega: bool) -> (r: Option<Totals>)
        ensures
            r == self.credited(amount, is_mega),
    {
        if is_mega {
            match self.mega.checked_add(amount) {
                Some(mega) => Some(Totals { regular: self.regular, mega }),
                None => None,
            }
        } else {
            match self.regular.checked_add(amount) {
                Some(regular) => Some(Totals { regular, mega: self.mega }),
                None => None,
            }
        }
    }
}

/// The stake record of one participant.
#[derive(Clone, Copy, Debug, PartialEq, Eq)]
pub struct Member {
    /// The entity the member belongs to.
    pub entity: Identity,
    /// The identity that directs the member's stake.
    pub beneficiary: Identity,
    /// The one identity that may authorize delegated transfers, once set.
    pub delegate_owner: Option<Identity>,
    /// What the member has committed, by category.
    pub stake_intent: Totals,
}

impl Member {
    /// The member after a stake intent of `amount`, where the total fits.
    pub open spec fn with_stake_intent(self, amount: u64, is_mega: bool) -> Option<Member> {
        match self.stake_intent.credited(amount, is_mega) {
            Some(stake_intent) => Some(
                Member {
                    entity: self.entity,
                    beneficiary: self.beneficiary,
                    delegate_owner: self.delegate_owner,
                    stake_intent,
                },
            ),
            None => None,
        }
    }

    /// Books a stake intent of `amount` on the member.
    pub fn add_stake_intent(&mut self, amount: u64, is_mega: bool) -> (r: Result<(), StakeError>)
        ensures
            match old(self).with_stake_intent(amount, is_mega) {
                Some(member) => r == Ok::<(), StakeError>(()) && *final(self) == member,
                None => r == Err::<(), StakeError>(StakeError::Overflow) && *final(self) == *old(
                    self,
                ),
            },
    {
        match self.stake_intent.credit(amount, is_mega) {
            Some(stake_intent) => {
                self.stake_intent = stake_intent;
                Ok(())
            },
            None => Err(StakeError::Overflow),
        }
    }
}

/// The aggregate stake record of a group of members.
#[derive(Clone, Copy, Debug, PartialEq, Eq)]
pub struct Entity {
    /// The registrar the entity is registered with.
    pub registrar: Identity,
    /// What the entity's members have committed, by category.
    pub stake_intent: Totals,
    /// The clock value of the last stake intent booked.
    pub last_update: i64,
}

impl Entity {
    /// The entity after a stake intent of `amount` at time `clock`, where the
    /// total fits.
    pub open spec fn with_stake_intent(self, amount: u64, is_mega: bool, clock: Clock) -> Option<
        Entity,
    > {
        match self.stake_intent.credited(amount, is_mega) {
            Some(stake_intent) => Some(
                Entity {
                    registrar: self.registrar,
                    stake_intent,
                    last_update: clock.unix_timestamp,
                },
            ),
            None => None,
        }
    }

    /// Books a stake intent of `amount` on the entity and stamps it with the
    /// clock.
    pub fn add_stake_intent(&mut self, amount: u64, is_mega: bool, clock: &Clock) -> (r: Result<
        (),
        StakeError,
    >)
        ensures
            match old(self).with_stake_intent(amount, is_mega, *clock) {
                Some(entity) => r == Ok::<(), StakeError>(()) && *final(self) == entity,
                None => r == Err::<(), StakeError>(StakeError::Overflow) && *final(self) == *old(
                    self,
                ),
            },
    {
        match self.stake_intent.credit(amount, is_mega) {
            Some(stake_intent) => {
                self.stake_intent = stake_intent;
                self.last_update = clock.unix_timestamp;
                Ok(())
            },
            None => Err(StakeError::Overflow),
        }
    }
}

/// A record as the host resolved it from storage: where it lives, which
/// program owns that storage, and the record itself where the storage held
/// one of the expected kind.
#[derive(Debug, PartialEq, Eq)]
pub struct Resolved<T> {
    pub address: Identity,
    pub owner: Identity,
    pub record: Option<T>,
}

impl<T: Copy> Clone for Resolved<T> {
    fn clone(&self) -> (r: Self)
        ensures
            r == *self,
    {
        *self
    }
}

impl<T: Copy> Copy for Resolved<T> {

}

} // verus!
