use std::str::FromStr;

use epnft_standard::address::Address;
use epnft_standard::dispatch::{fallback, EXECUTE_DISCRIMINATOR};
use epnft_standard::error::TransferHookErr;
use epnft_standard::instruction::{classify, has_tag, read_u64_le, AccountRef, Instruction};
use epnft_standard::policy::{
    Policy, TrailingPattern, BUY_INSTRUCTION_BURGER_MARKETPLACE,
    DELIST_INSTRUCTION_BURGER_MARKETPLACE, LIST_INSTRUCTION_BURGER_MARKETPLACE,
    MARKETPLACE_PROGRAM_ID,
};
use epnft_standard::rules::{royalty_for, transfer_hook};
use spl_transfer_hook_interface::instruction::TransferHookInstruction;
use spl_transfer_hook_interface::solana_program::pubkey::Pubkey;

fn addr(s: &str) -> Address {
    Address::new(Pubkey::from_str(s).unwrap().to_bytes())
}

fn token_program() -> Address {
    addr("TokenzQdBNbLqP5VEhdkAS6EPFLC1PHnBqCXEpPxuEb")
}

fn ata_program() -> Address {
    addr("ATokenGPvbdGVxr1b2hvZbsiqW5xWH25efTNsLJA8knL")
}

fn system_program() -> Address {
    addr("11111111111111111111111111111111")
}

fn marketplace() -> Address {
    addr("AhC8ej2B8LYF86ic16ZFZ4EGAxgcNz7Hvbx1pYdiAHqm")
}

fn stranger() -> Address {
    Address::new([7u8; 32])
}

fn policy() -> Policy {
    Policy::standard(token_program(), ata_program(), system_program())
}

fn account(a: Address) -> AccountRef {
    AccountRef { address: a, is_signer: false, is_writable: true }
}

fn ix(program_id: Address, data: Vec<u8>) -> Instruction {
    Instruction { program_id, accounts: vec![], data }
}

fn direct_transfer() -> Instruction {
    ix(token_program(), vec![12, 0, 0, 0, 0, 0, 0, 0, 1])
}

fn create_ata() -> Instruction {
    ix(ata_program(), vec![1])
}

fn marketplace_call(tag: [u8; 8], price: Option<u64>) -> Instruction {
    let mut data = tag.to_vec();
    if let Some(p) = price {
        data.extend_from_slice(&p.to_le_bytes());
    }
    ix(marketplace(), data)
}

fn native_transfer(lamports: u64, recipient: Address) -> Instruction {
    let mut data = vec![2u8, 0, 0, 0];
    data.extend_from_slice(&lamports.to_le_bytes());
    Instruction {
        program_id: system_program(),
        accounts: vec![account(Address::new([9u8; 32])), account(recipient)],
        data,
    }
}

fn zero() -> Address {
    Address::new([0u8; 32])
}

#[test]
fn lone_direct_transfer_allowed() {
    let tx = vec![direct_transfer()];
    assert_eq!(transfer_hook(&policy(), &tx, 0, 1), Ok(()));
}

#[test]
fn direct_transfer_after_account_creation_allowed() {
    let tx = vec![create_ata(), direct_transfer()];
    assert_eq!(transfer_hook(&policy(), &tx, 1, 1), Ok(()));
}

#[test]
fn second_position_after_other_program_denied() {
    let tx = vec![ix(stranger(), vec![1]), direct_transfer()];
    assert_eq!(transfer_hook(&policy(), &tx, 1, 1), Err(TransferHookErr::InvalidProgram1));
}

#[test]
fn second_position_after_other_opcode_denied() {
    let tx = vec![ix(ata_program(), vec![0]), direct_transfer()];
    assert_eq!(transfer_hook(&policy(), &tx, 1, 1), Err(TransferHookErr::InvalidIx1));
    let tx = vec![ix(ata_program(), vec![]), direct_transfer()];
    assert_eq!(transfer_hook(&policy(), &tx, 1, 1), Err(TransferHookErr::InvalidIx1));
}

#[test]
fn deep_position_denied() {
    let tx = vec![create_ata(), create_ata(), direct_transfer()];
    assert_eq!(
        transfer_hook(&policy(), &tx, 2, 1),
        Err(TransferHookErr::InvalidInstructionPosition)
    );
    let tx = vec![direct_transfer()];
    assert_eq!(
        transfer_hook(&policy(), &tx, 5, 1),
        Err(TransferHookErr::InvalidInstructionPosition)
    );
}

#[test]
fn missing_transfer_instruction_denied() {
    let tx: Vec<Instruction> = vec![];
    assert_eq!(
        transfer_hook(&policy(), &tx, 0, 1),
        Err(TransferHookErr::MissingTransferInstruction)
    );
}

#[test]
fn marketplace_buy_with_royalty_allowed() {
    let tx = vec![
        marketplace_call(BUY_INSTRUCTION_BURGER_MARKETPLACE, Some(1000)),
        native_transfer(10, zero()),
    ];
    assert_eq!(transfer_hook(&policy(), &tx, 0, 1), Ok(()));
}

#[test]
fn marketplace_buy_with_short_royalty_denied() {
    let tx = vec![
        marketplace_call(BUY_INSTRUCTION_BURGER_MARKETPLACE, Some(1000)),
        native_transfer(9, zero()),
    ];
    assert_eq!(transfer_hook(&policy(), &tx, 0, 1), Err(TransferHookErr::RoyaltyAmount));
}

#[test]
fn marketplace_buy_with_wrong_recipient_denied() {
    let tx = vec![
        marketplace_call(BUY_INSTRUCTION_BURGER_MARKETPLACE, Some(1000)),
        native_transfer(10, stranger()),
    ];
    assert_eq!(transfer_hook(&policy(), &tx, 0, 1), Err(TransferHookErr::RoyaltyRecipient));
}

#[test]
fn marketplace_buy_without_royalty_denied() {
    let tx = vec![marketplace_call(BUY_INSTRUCTION_BURGER_MARKETPLACE, Some(1000))];
    assert_eq!(transfer_hook(&policy(), &tx, 0, 1), Err(TransferHookErr::RoyaltyMissing));
}

#[test]
fn marketplace_buy_with_royalty_by_other_program_denied() {
    let mut pay = native_transfer(10, zero());
    pay.program_id = stranger();
    let tx = vec![marketplace_call(BUY_INSTRUCTION_BURGER_MARKETPLACE, Some(1000)), pay];
    assert_eq!(transfer_hook(&policy(), &tx, 0, 1), Err(TransferHookErr::RoyaltyProgram));
}

#[test]
fn marketplace_buy_with_other_native_opcode_denied() {
    let mut pay = native_transfer(10, zero());
    pay.data[0] = 3;
    let tx = vec![marketplace_call(BUY_INSTRUCTION_BURGER_MARKETPLACE, Some(1000)), pay];
    assert_eq!(transfer_hook(&policy(), &tx, 0, 1), Err(TransferHookErr::RoyaltyOpcode));
}

#[test]
fn marketplace_buy_without_price_denied() {
    let tx = vec![
        marketplace_call(BUY_INSTRUCTION_BURGER_MARKETPLACE, None),
        native_transfer(0, zero()),
    ];
    assert_eq!(
        transfer_hook(&policy(), &tx, 0, 1),
        Err(TransferHookErr::UnauthorizedInstruction2)
    );
}

#[test]
fn marketplace_list_allowed_with_trailing_instructions() {
    let tx = vec![
        marketplace_call(LIST_INSTRUCTION_BURGER_MARKETPLACE, None),
        ix(stranger(), vec![1, 2, 3]),
        ix(stranger(), vec![]),
    ];
    assert_eq!(transfer_hook(&policy(), &tx, 0, 1), Ok(()));
}

#[test]
fn marketplace_delist_allowed() {
    let tx = vec![create_ata(), marketplace_call(DELIST_INSTRUCTION_BURGER_MARKETPLACE, None)];
    assert_eq!(transfer_hook(&policy(), &tx, 1, 1), Ok(()));
}

#[test]
fn marketplace_unknown_opcode_denied() {
    let tx = vec![marketplace_call([0u8; 8], None)];
    assert_eq!(
        transfer_hook(&policy(), &tx, 0, 1),
        Err(TransferHookErr::UnauthorizedInstruction2)
    );
    let tx = vec![ix(marketplace(), vec![244, 251])];
    assert_eq!(
        transfer_hook(&policy(), &tx, 0, 1),
        Err(TransferHookErr::UnauthorizedInstruction2)
    );
}

#[test]
fn direct_transfer_with_two_trailing_denied() {
    let tx = vec![direct_transfer(), native_transfer(1, zero()), native_transfer(1, zero())];
    assert_eq!(
        transfer_hook(&policy(), &tx, 0, 1),
        Err(TransferHookErr::UnauthorizedTrailingProgram)
    );
    let mut open = policy();
    open.trailing_allowed.push(TrailingPattern { program: system_program(), opcode: 2 });
    assert_eq!(
        transfer_hook(&open, &tx, 0, 1),
        Err(TransferHookErr::UnauthorizedTrailingInstruction)
    );
}

#[test]
fn direct_transfer_with_one_allowed_trailing() {
    let tx = vec![direct_transfer(), native_transfer(1, zero())];
    assert_eq!(
        transfer_hook(&policy(), &tx, 0, 1),
        Err(TransferHookErr::UnauthorizedTrailingProgram)
    );
    let mut open = policy();
    open.trailing_allowed.push(TrailingPattern { program: system_program(), opcode: 1 });
    open.trailing_allowed.push(TrailingPattern { program: system_program(), opcode: 2 });
    assert_eq!(transfer_hook(&open, &tx, 0, 1), Ok(()));
}

#[test]
fn unknown_caller_denied() {
    let tx = vec![ix(stranger(), vec![])];
    assert_eq!(transfer_hook(&policy(), &tx, 0, 1), Err(TransferHookErr::UnauthorizedCpi));
    let tx = vec![create_ata(), ix(stranger(), vec![]), native_transfer(10, zero())];
    assert_eq!(transfer_hook(&policy(), &tx, 1, 1), Err(TransferHookErr::UnauthorizedCpi));
}

#[test]
fn evaluation_repeatable() {
    let tx = vec![
        marketplace_call(BUY_INSTRUCTION_BURGER_MARKETPLACE, Some(1000)),
        native_transfer(9, zero()),
    ];
    let p = policy();
    let first = transfer_hook(&p, &tx, 0, 3);
    let second = transfer_hook(&p, &tx, 0, 3);
    assert_eq!(first, second);
    assert_eq!(first, Err(TransferHookErr::RoyaltyAmount));
}

#[test]
fn royalty_is_one_percent_rounded_down() {
    let p = policy();
    assert_eq!(royalty_for(&p, 1000), 10);
    assert_eq!(royalty_for(&p, 199), 1);
    assert_eq!(royalty_for(&p, 99), 0);
    assert_eq!(royalty_for(&p, u64::MAX), (u64::MAX / 100) as u128);
}

#[test]
fn execute_callback_is_decided_by_rules() {
    let data = TransferHookInstruction::Execute { amount: 42 }.pack();
    assert_eq!(&data[..8], &EXECUTE_DISCRIMINATOR[..]);
    let ok_tx = vec![direct_transfer()];
    assert_eq!(fallback(&policy(), &ok_tx, 0, &data), Ok(()));
    let bad_tx = vec![ix(stranger(), vec![])];
    assert_eq!(fallback(&policy(), &bad_tx, 0, &data), Err(TransferHookErr::UnauthorizedCpi));
}

#[test]
fn other_callbacks_refused() {
    let tx = vec![direct_transfer()];
    let init = TransferHookInstruction::InitializeExtraAccountMetaList {
        extra_account_metas: vec![],
    }
    .pack();
    assert_eq!(fallback(&policy(), &tx, 0, &init), Err(TransferHookErr::InvalidCallback));
    let short = EXECUTE_DISCRIMINATOR[..].to_vec();
    assert_eq!(fallback(&policy(), &tx, 0, &short), Err(TransferHookErr::InvalidCallback));
    assert_eq!(fallback(&policy(), &tx, 0, &[1, 2, 3]), Err(TransferHookErr::InvalidCallback));
}

#[test]
fn marketplace_constants_match_program_identity() {
    assert_eq!(marketplace().bytes, MARKETPLACE_PROGRAM_ID);
    assert!(policy().marketplace == marketplace());
}

#[test]
fn read_u64_le_reads_little_endian() {
    let data = vec![9u8, 0x08, 0x07, 0x06, 0x05, 0x04, 0x03, 0x02, 0x01];
    assert_eq!(read_u64_le(&data, 1), Some(0x0102030405060708));
    assert_eq!(read_u64_le(&data, 2), None);
    assert_eq!(read_u64_le(&data, 100), None);
}

#[test]
fn has_tag_needs_full_prefix() {
    let tag = [1u8, 2, 3, 4, 5, 6, 7, 8];
    assert!(has_tag(&vec![1, 2, 3, 4, 5, 6, 7, 8, 9], &tag));
    assert!(!has_tag(&vec![1, 2, 3, 4, 5, 6, 7], &tag));
    assert!(!has_tag(&vec![1, 2, 3, 4, 5, 6, 7, 9], &tag));
}

#[test]
fn classify_past_end_is_none() {
    let tx = vec![direct_transfer()];
    assert!(classify(&tx, 0).is_some());
    assert!(classify(&tx, 1).is_none());
}

#[test]
fn request_with_overstated_count_refused() {
    let tx = vec![direct_transfer()];
    let mut init = TransferHookInstruction::InitializeExtraAccountMetaList {
        extra_account_metas: vec![],
    }
    .pack();
    init.truncate(8);
    init.extend_from_slice(&[1, 0, 0, 0]);
    assert_eq!(fallback(&policy(), &tx, 0, &init), Err(TransferHookErr::InvalidCallback));
}
