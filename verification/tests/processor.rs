use safe_transfer::account::{AccountMeta, Pubkey};
use safe_transfer::error::AppError;
use safe_transfer::process_instruction;
use safe_transfer::processor::safe_transfer::{
    legacy_token_program_id, token_2022_program_id, Command, TokenProgramVariant,
};
use safe_transfer::processor::Processor;

fn key(b: u8) -> Pubkey {
    [b; 32]
}

fn meta(k: u8, o: u8) -> AccountMeta {
    AccountMeta { key: key(k), owner: key(o) }
}

/// Seven roles in protocol order; `to` gets the given ownership marker and
/// `token_program` the given identity.
fn seven_accounts(to_owner: Pubkey, token_program: Pubkey) -> Vec<AccountMeta> {
    vec![
        meta(1, 9),
        meta(2, 9),
        meta(3, 9),
        AccountMeta { key: key(4), owner: to_owner },
        meta(5, 9),
        meta(6, 9),
        AccountMeta { key: token_program, owner: key(9) },
    ]
}

fn amount_payload(opcode: u8, amount: u64) -> Vec<u8> {
    let mut data = vec![opcode];
    data.extend_from_slice(&amount.to_le_bytes());
    data
}

#[test]
fn scenario_legacy_with_provisioning() {
    let accounts = seven_accounts([0; 32], legacy_token_program_id());
    let data = amount_payload(0, 1000);
    let plan = process_instruction(&key(7), &accounts, &data).unwrap();
    assert!(plan.create_destination);
    assert_eq!(plan.variant, TokenProgramVariant::Legacy);
    assert_eq!(plan.amount, 1000);
    assert_eq!(
        plan.commands(),
        vec![Command::CreateDestination, Command::TransferLegacy { amount: 1000 }]
    );
}

#[test]
fn scenario_v2_already_provisioned() {
    let accounts = seven_accounts(key(8), token_2022_program_id());
    let data = amount_payload(0, 0);
    let plan = process_instruction(&key(7), &accounts, &data).unwrap();
    assert!(!plan.create_destination);
    assert_eq!(plan.variant, TokenProgramVariant::V2);
    assert_eq!(plan.amount, 0);
    assert_eq!(plan.commands(), vec![Command::TransferV2 { amount: 0 }]);
}

#[test]
fn scenario_unknown_opcode() {
    let accounts = seven_accounts([0; 32], legacy_token_program_id());
    let data = amount_payload(1, 1000);
    let r = process_instruction(&key(7), &accounts, &data);
    assert_eq!(r, Err(AppError::InvalidInstruction));
}

#[test]
fn scenario_six_accounts() {
    let mut accounts = seven_accounts([0; 32], legacy_token_program_id());
    accounts.pop();
    let data = amount_payload(0, 1000);
    let r = process_instruction(&key(7), &accounts, &data);
    assert_eq!(r, Err(AppError::InvalidAccount));
}

#[test]
fn scenario_short_payload() {
    let accounts = seven_accounts([0; 32], legacy_token_program_id());
    let data = vec![0, 1, 2, 3, 4, 5];
    let r = process_instruction(&key(7), &accounts, &data);
    assert_eq!(r, Err(AppError::InvalidSafeTransferParameters));
}

#[test]
fn scenario_unknown_token_program() {
    let accounts = seven_accounts(key(8), key(11));
    let data = amount_payload(0, 1000);
    let r = process_instruction(&key(7), &accounts, &data);
    assert_eq!(r, Err(AppError::InvalidTokenProgram));
}

#[test]
fn unknown_token_program_plans_nothing() {
    // Even with an uninitialised destination, an unknown token program
    // identity fails before any invocation is planned: routing fails closed
    // ahead of provisioning.
    let accounts = seven_accounts([0; 32], key(11));
    let data = amount_payload(0, 1000);
    let r = process_instruction(&key(7), &accounts, &data);
    assert_eq!(r, Err(AppError::InvalidTokenProgram));
}

#[test]
fn empty_buffer_rejected() {
    let accounts = seven_accounts([0; 32], legacy_token_program_id());
    let r = process_instruction(&key(7), &accounts, &[]);
    assert_eq!(r, Err(AppError::InvalidInstruction));
}

#[test]
fn opcode_gate_ignores_payload() {
    let accounts = seven_accounts([0; 32], legacy_token_program_id());
    for opcode in [1u8, 2, 17, 255] {
        let r = process_instruction(&key(7), &accounts, &amount_payload(opcode, 42));
        assert_eq!(r, Err(AppError::InvalidInstruction));
    }
}

#[test]
fn trailing_accounts_ignored() {
    let data = amount_payload(0, 5);
    let seven = seven_accounts([0; 32], token_2022_program_id());
    let mut eight = seven.clone();
    eight.push(meta(200, 201));
    let r7 = process_instruction(&key(7), &seven, &data);
    let r8 = process_instruction(&key(7), &eight, &data);
    assert_eq!(r7, r8);
}

#[test]
fn process_matches_entry_point() {
    let accounts = seven_accounts([0; 32], legacy_token_program_id());
    let data = amount_payload(0, 77);
    assert_eq!(
        Processor::process(&key(7), &accounts, &data),
        process_instruction(&key(7), &accounts, &data)
    );
}

#[test]
fn empty_payload_after_opcode() {
    let accounts = seven_accounts([0; 32], legacy_token_program_id());
    let r = process_instruction(&key(7), &accounts, &[0]);
    assert_eq!(r, Err(AppError::InvalidSafeTransferParameters));
}

#[test]
fn nine_byte_payload_rejected() {
    let accounts = seven_accounts([0; 32], legacy_token_program_id());
    let mut data = amount_payload(0, 1000);
    data.push(0);
    let r = process_instruction(&key(7), &accounts, &data);
    assert_eq!(r, Err(AppError::InvalidSafeTransferParameters));
}

#[test]
fn arity_checked_before_payload() {
    let r = process_instruction(&key(7), &Vec::new(), &vec![0, 1, 2]);
    assert_eq!(r, Err(AppError::InvalidAccount));
}
