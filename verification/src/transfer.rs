//! The order that the processor hands to the host: which transfer to make,
//! and with which signing proof.

use vstd::prelude::*;
use vstd::bytes::spec_u64_to_le_bytes;
use crate::error::TransferFailure;
use crate::identity::Identity;
use solana_sdk::pubkey::Pubkey;

verus! {

/// One account that an instruction names, and how the instruction uses it.
#[derive(Clone, Copy, Debug, PartialEq, Eq)]
pub struct AccountMeta {
    pub pubkey: Identity,
    /// The instruction needs this account's signature.
    pub is_signer: bool,
    /// The instruction may write to this account.
    pub is_writable: bool,
}

/// An instruction for another program, ready to be invoked.
#[derive(Debug, PartialEq, Eq)]
pub struct Instruction {
    /// The program that executes the instruction.
    pub program_id: Identity,
    pub accounts: Vec<AccountMeta>,
    pub data: Vec<u8>,
}

/// An instruction as a mathematical value.
pub struct InstructionView {
    pub program_id: Identity,
    pub accounts: Seq<AccountMeta>,
    pub data: Seq<u8>,
}

impl View for Instruction {
    type V = InstructionView;

    open spec fn view(&self) -> InstructionView {
        InstructionView { program_id: self.program_id, accounts: self.accounts@, data: self.data@ }
    }
}

/// The transfer that the host is to carry out.
#[derive(Debug, PartialEq, Eq)]
pub struct TransferOrder {
    pub amount: u64,
    /// The funding source.
    pub from: Identity,
    /// The vault that receives the funds.
    pub to: Identity,
    /// The identity under whose authority the funds move.
    pub authority: Identity,
    /// The seeds of the derived authority that signs a delegated transfer;
    /// `None` where the authority's own signature on the call suffices.
    pub signer_seeds: Option<Vec<Vec<u8>>>,
    /// The token program's instruction that makes the transfer.
    pub instruction: Instruction,
}

/// A transfer order as a mathematical value.
pub struct TransferOrderView {
    pub amount: u64,
    pub from: Identity,
    pub to: Identity,
    pub authority: Identity,
    pub signer_seeds: Option<Seq<Seq<u8>>>,
    pub instruction: InstructionView,
}

impl View for TransferOrder {
    type V = TransferOrderView;

    open spec fn view(&self) -> TransferOrderView {
        TransferOrderView {
            amount: self.amount,
            from: self.from,
            to: self.to,
            authority: self.authority,
            signer_seeds: match self.signer_seeds {
                Some(seeds) => Some(seeds.deep_view()),
                None => None,
            },
            instruction: self.instruction@,
        }
    }
}

/// The identity of the token program.
pub const TOKEN_PROGRAM: [u8; 32] = [
    6, 221, 246, 225, 215, 101, 161, 147, 217, 203, 225, 70, 206, 235, 121, 172,
    28, 180, 133, 237, 95, 91, 55, 145, 58, 140, 245, 133, 126, 255, 0, 169,
];

/// The token program's transfer of `amount` from `source` to `destination`
/// under a single `authority`: the two accounts writable, the authority as
/// the one signer, and as data the tag 3 followed by the amount, low byte
/// first.
pub open spec fn token_transfer_instruction(
    source: Identity,
    destination: Identity,
    authority: Identity,
    amount: u64,
) -> InstructionView {
    InstructionView {
        program_id: Identity { bytes: TOKEN_PROGRAM },
        accounts: seq![
            AccountMeta { pubkey: source, is_signer: false, is_writable: true },
            AccountMeta { pubkey: destination, is_signer: false, is_writable: true },
            AccountMeta { pubkey: authority, is_signer: true, is_writable: false },
        ],
        data: seq![3u8] + spec_u64_to_le_bytes(amount),
    }
}

/// Builds the token program's transfer instruction by a call of
/// `spl_token::instruction::transfer` with `spl_token::ID` as the program and
/// no further signers. Identities go in and come out as `Pubkey`s of the
/// same 32 bytes. The contract is not proved: it restates what that function
/// puts together, which is the program's identity, the three accounts with
/// their flags, and the packed `Transfer` data. The function has no failing
/// path, so success is part of the claim.
#[verifier::external_body]
pub(crate) fn token_transfer(
    source: &Identity,
    destination: &Identity,
    authority: &Identity,
    amount: u64,
) -> (r: Result<Instruction, TransferFailure>)
    ensures
        r is Ok,
        r->Ok_0@ == token_transfer_instruction(*source, *destination, *authority, amount),
{
    let from = Pubkey::new_from_array(source.bytes);
    let to = Pubkey::new_from_array(destination.bytes);
    let by = Pubkey::new_from_array(authority.bytes);
    let made = spl_token::instruction::transfer(&spl_token::ID, &from, &to, &by, &[], amount);
    let ix = made.map_err(|e| TransferFailure { code: u64::from(e) })?;
    let accounts = ix.accounts.iter().map(|m| AccountMeta {
        pubkey: Identity { bytes: m.pubkey.to_bytes() },
        is_signer: m.is_signer,
        is_writable: m.is_writable,
    });
    Ok(Instruction {
        program_id: Identity { bytes: ix.program_id.to_bytes() },
        accounts: accounts.collect(),
        data: ix.data,
    })
}

/// The seeds from which the authority over a registrar's vaults is derived:
/// the registrar's address, then its nonce.
pub open spec fn signer_seeds_of(registrar: Identity, nonce: u8) -> Seq<Seq<u8>> {
    seq![registrar.bytes@, seq![nonce]]
}

/// The signing proof of a delegated transfer. It depends on the registrar's
/// address and nonce and on nothing else.
pub fn signer_seeds(registrar: &Identity, nonce: u8) -> (seeds: Vec<Vec<u8>>)
    ensures
        seeds.deep_view() == signer_seeds_of(*registrar, nonce),
{
    let mut address: Vec<u8> = Vec::new();
    let mut i: usize = 0;
    while i < 32
        invariant
            i <= 32,
            address@ == registrar.bytes@.take(i as int),
        decreases 32 - i,
    {
        address.push(registrar.bytes[i]);
        i += 1;
    }
    let mut last: Vec<u8> = Vec::new();
    last.push(nonce);
    let mut seeds: Vec<Vec<u8>> = Vec::new();
    seeds.push(address);
    seeds.push(last);
    assert(seeds.deep_view() =~~= signer_seeds_of(*registrar, nonce));
    seeds
}

} // verus!
