use solana_sdk::pubkey::Pubkey;
use stake_intent::identity::Identity;
use stake_intent::records::{Clock, Registrar};
use stake_intent::state_transition::{transfer_order, StateTransitionRequest};
use stake_intent::transfer::{signer_seeds, AccountMeta, Instruction, TOKEN_PROGRAM};
use std::str::FromStr;

fn id(b: u8) -> Identity {
    Identity { bytes: [b; 32] }
}

fn request(amount: u64, is_delegate: bool) -> StateTransitionRequest {
    StateTransitionRequest {
        amount,
        is_mega: false,
        is_delegate,
        registrar: Registrar { nonce: 254, vault: id(6), mega_vault: id(7) },
        registrar_address: id(3),
        clock: Clock { unix_timestamp: 0 },
        depositor: id(20),
        vault: id(6),
        token_authority: id(12),
    }
}

#[test]
fn token_program_is_the_published_one() {
    let published = Pubkey::from_str("TokenkegQfeZyiNwAJbNbGKPFXCWuBvf9Ss623VQ5DA").unwrap();
    assert_eq!(TOKEN_PROGRAM, published.to_bytes());
    assert_eq!(TOKEN_PROGRAM, spl_token::id().to_bytes());
}

#[test]
fn signer_seeds_are_the_registrar_address_and_the_nonce() {
    let mut registrar = id(3);
    registrar.bytes[0] = 200;
    registrar.bytes[31] = 100;
    let seeds = signer_seeds(&registrar, 254);
    assert_eq!(seeds, vec![registrar.bytes.to_vec(), vec![254u8]]);
}

#[test]
fn signer_seeds_depend_on_nothing_else() {
    assert_eq!(signer_seeds(&id(3), 0), signer_seeds(&id(3), 0));
    assert_ne!(signer_seeds(&id(3), 0), signer_seeds(&id(3), 1));
    assert_ne!(signer_seeds(&id(3), 0), signer_seeds(&id(4), 0));
}

#[test]
fn direct_order_carries_no_seeds() {
    let order = transfer_order(&request(1000, false)).unwrap();
    assert_eq!(order.amount, 1000);
    assert_eq!(order.from, id(20));
    assert_eq!(order.to, id(6));
    assert_eq!(order.authority, id(12));
    assert_eq!(order.signer_seeds, None);
}

#[test]
fn delegated_order_carries_the_derived_seeds() {
    let order = transfer_order(&request(1000, true)).unwrap();
    assert_eq!(order.signer_seeds, Some(vec![vec![3u8; 32], vec![254u8]]));
    assert_eq!(order.amount, 1000);
    assert_eq!(order.from, id(20));
    assert_eq!(order.to, id(6));
    assert_eq!(order.authority, id(12));
}

#[test]
fn ordered_instruction_is_the_token_transfer() {
    let order = transfer_order(&request(1000, false)).unwrap();
    assert_eq!(
        order.instruction,
        Instruction {
            program_id: Identity { bytes: TOKEN_PROGRAM },
            accounts: vec![
                AccountMeta { pubkey: id(20), is_signer: false, is_writable: true },
                AccountMeta { pubkey: id(6), is_signer: false, is_writable: true },
                AccountMeta { pubkey: id(12), is_signer: true, is_writable: false },
            ],
            data: vec![3, 0xe8, 0x03, 0, 0, 0, 0, 0, 0],
        }
    );
}

#[test]
fn ordered_instruction_packs_the_amount_low_byte_first() {
    let order = transfer_order(&request(0x0102_0304_0506_0708, true)).unwrap();
    assert_eq!(order.instruction.data, vec![3, 8, 7, 6, 5, 4, 3, 2, 1]);
    let order = transfer_order(&request(0, true)).unwrap();
    assert_eq!(order.instruction.data, vec![3, 0, 0, 0, 0, 0, 0, 0, 0]);
    let order = transfer_order(&request(u64::MAX, true)).unwrap();
    assert_eq!(order.instruction.data, vec![3, 255, 255, 255, 255, 255, 255, 255, 255]);
}

#[test]
fn ordered_instruction_is_what_the_token_crate_builds() {
    let order = transfer_order(&request(77, true)).unwrap();
    let built = spl_token::instruction::transfer(
        &spl_token::id(),
        &Pubkey::new_from_array([20; 32]),
        &Pubkey::new_from_array([6; 32]),
        &Pubkey::new_from_array([12; 32]),
        &[],
        77,
    )
    .unwrap();
    assert_eq!(order.instruction.program_id.bytes, built.program_id.to_bytes());
    assert_eq!(order.instruction.data, built.data);
    assert_eq!(order.instruction.accounts.len(), built.accounts.len());
    for (ours, theirs) in order.instruction.accounts.iter().zip(built.accounts.iter()) {
        assert_eq!(ours.pubkey.bytes, theirs.pubkey.to_bytes());
        assert_eq!(ours.is_signer, theirs.is_signer);
        assert_eq!(ours.is_writable, theirs.is_writable);
    }
    let read = spl_token::instruction::TokenInstruction::unpack(&order.instruction.data).unwrap();
    assert_eq!(read, spl_token::instruction::TokenInstruction::Transfer { amount: 77 });
}
