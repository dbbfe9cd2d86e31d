//! Stake-intent processing for a staking pool.
//!
//! A stake intent moves funds from a participant's funding source into the
//! pool's vault and books the amount on the participant's `Member` record and
//! on the `Entity` the member belongs to. The crate decides; it never performs
//! the transfer itself. The host asks [`handler::handler`] what to do, carries
//! out the ordered transfer, and reports how it went.

pub mod access_control;
pub mod error;
pub mod handler;
pub mod identity;
pub mod laws;
pub mod records;
pub mod state_transition;
pub mod transfer;
