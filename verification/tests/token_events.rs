use pumpfun_substream::errors::ParseError;
use pumpfun_substream::ledger::{get_context, TransactionContext};
use pumpfun_substream::model::{Instruction, TokenAccount, Transaction, TOKEN_PROGRAM_ID};
use pumpfun_substream::spl_token::{
    parse_instruction, parse_transaction, parse_transfer_instruction,
};
use pumpfun_substream::token_events::Event;
use pumpfun_substream::token_instruction::{AuthorityType, TokenInstruction};

fn addr(n: u8) -> Vec<u8> {
    vec![n; 32]
}

fn token_instr(accounts: Vec<Vec<u8>>, data: Vec<u8>) -> Instruction {
    Instruction {
        program_id: TOKEN_PROGRAM_ID.to_vec(),
        accounts,
        data,
        inner_instructions: Vec::new(),
        logs: Some(Vec::new()),
    }
}

fn account(n: u8, pre: u64, post: u64) -> TokenAccount {
    TokenAccount {
        address: addr(n),
        owner: addr(100 + n),
        mint: addr(200),
        pre_balance: pre,
        post_balance: post,
    }
}

fn transfer_data(amount: u64) -> Vec<u8> {
    let mut d = vec![3u8];
    d.extend_from_slice(&amount.to_le_bytes());
    d
}

fn context_with(accounts: Vec<TokenAccount>) -> TransactionContext {
    TransactionContext { signature: vec![9; 64], accounts }
}

#[test]
fn unpack_transfer_reads_little_endian_amount() {
    let data = transfer_data(0x0102030405060708);
    match TokenInstruction::unpack(&data) {
        Ok(TokenInstruction::Transfer { amount }) => assert_eq!(amount, 0x0102030405060708),
        other => panic!("unexpected: {:?}", other),
    }
}

#[test]
fn unpack_initialize_mint_with_freeze_authority() {
    let mut data = vec![0u8, 6];
    data.extend_from_slice(&[7; 32]);
    data.push(1);
    data.extend_from_slice(&[8; 32]);
    match TokenInstruction::unpack(&data) {
        Ok(TokenInstruction::InitializeMint { decimals, mint_authority, freeze_authority }) => {
            assert_eq!(decimals, 6);
            assert_eq!(mint_authority, vec![7; 32]);
            assert_eq!(freeze_authority, Some(vec![8; 32]));
        },
        other => panic!("unexpected: {:?}", other),
    }
}

#[test]
fn unpack_initialize_mint_without_freeze_authority() {
    let mut data = vec![20u8, 9];
    data.extend_from_slice(&[7; 32]);
    data.push(0);
    match TokenInstruction::unpack(&data) {
        Ok(TokenInstruction::InitializeMint2 { decimals, freeze_authority, .. }) => {
            assert_eq!(decimals, 9);
            assert_eq!(freeze_authority, None);
        },
        other => panic!("unexpected: {:?}", other),
    }
}

#[test]
fn unpack_rejects_truncated_transfer() {
    let data = vec![3u8, 1, 2];
    assert_eq!(TokenInstruction::unpack(&data), Err(ParseError::TruncatedPayload));
}

#[test]
fn unpack_rejects_empty_payload() {
    let data: Vec<u8> = Vec::new();
    assert_eq!(TokenInstruction::unpack(&data), Err(ParseError::TruncatedPayload));
}

#[test]
fn unpack_reports_unknown_discriminant() {
    let data = vec![200u8, 1, 2, 3];
    assert_eq!(TokenInstruction::unpack(&data), Err(ParseError::UnknownDiscriminant));
}

#[test]
fn transfer_event_uses_positional_accounts_and_ledger() {
    let ctx = context_with(vec![account(1, 100, 100), account(2, 50, 50)]);
    let instr = token_instr(vec![addr(1), addr(2), addr(3)], transfer_data(30));
    let event = parse_transfer_instruction(&instr, &ctx).unwrap();
    assert_eq!(event.source.address, addr(1));
    assert_eq!(event.destination.address, addr(2));
    assert_eq!(event.authority, addr(3));
    assert_eq!(event.amount, 30);
}

#[test]
fn transfer_checked_shifts_destination_and_authority() {
    let ctx = context_with(vec![account(1, 100, 100), account(4, 0, 0)]);
    let mut data = vec![12u8];
    data.extend_from_slice(&55u64.to_le_bytes());
    data.push(6);
    let instr = token_instr(vec![addr(1), addr(9), addr(4), addr(5)], data);
    let event = parse_transfer_instruction(&instr, &ctx).unwrap();
    assert_eq!(event.source.address, addr(1));
    assert_eq!(event.destination.address, addr(4));
    assert_eq!(event.authority, addr(5));
    assert_eq!(event.amount, 55);
}

#[test]
fn transfer_with_untracked_source_is_a_ledger_failure() {
    let ctx = context_with(vec![account(2, 50, 50)]);
    let instr = token_instr(vec![addr(1), addr(2), addr(3)], transfer_data(30));
    assert_eq!(parse_instruction(&instr, &ctx), Err(ParseError::LedgerLookupFailed));
}

#[test]
fn transfer_with_short_account_list_is_a_schema_failure() {
    let ctx = context_with(vec![account(1, 100, 100)]);
    let instr = token_instr(vec![addr(1), addr(2)], transfer_data(30));
    assert_eq!(parse_instruction(&instr, &ctx), Err(ParseError::MissingAccounts));
}

#[test]
fn wrong_program_is_rejected() {
    let ctx = context_with(Vec::new());
    let mut instr = token_instr(vec![addr(1)], transfer_data(1));
    instr.program_id = vec![42; 32];
    assert_eq!(parse_instruction(&instr, &ctx), Err(ParseError::WrongProgram));
}

#[test]
fn unknown_discriminant_yields_no_event_and_no_error() {
    let ctx = context_with(Vec::new());
    let instr = token_instr(vec![addr(1)], vec![201, 5, 5]);
    assert_eq!(parse_instruction(&instr, &ctx), Ok(None));
}

#[test]
fn amount_conversions_yield_no_event() {
    let ctx = context_with(Vec::new());
    let mut data = vec![23u8];
    data.extend_from_slice(&5u64.to_le_bytes());
    let instr = token_instr(Vec::new(), data);
    assert_eq!(parse_instruction(&instr, &ctx), Ok(None));
}

#[test]
fn multisig_signers_start_after_rent_sysvar() {
    let ctx = context_with(Vec::new());
    let instr = token_instr(vec![addr(1), addr(2), addr(3), addr(4)], vec![2u8, 2]);
    match parse_instruction(&instr, &ctx) {
        Ok(Some(Event::InitializeMultisig(e))) => {
            assert_eq!(e.multisig, addr(1));
            assert_eq!(e.signers, vec![addr(3), addr(4)]);
            assert_eq!(e.m, 2);
        },
        other => panic!("unexpected: {:?}", other),
    }
}

#[test]
fn multisig_without_rent_sysvar_starts_at_one() {
    let ctx = context_with(Vec::new());
    let instr = token_instr(vec![addr(1), addr(3), addr(4)], vec![19u8, 1]);
    match parse_instruction(&instr, &ctx) {
        Ok(Some(Event::InitializeMultisig(e))) => {
            assert_eq!(e.signers, vec![addr(3), addr(4)]);
        },
        other => panic!("unexpected: {:?}", other),
    }
}

#[test]
fn set_authority_decodes_kind_and_new_authority() {
    let ctx = context_with(Vec::new());
    let mut data = vec![6u8, 2, 1];
    data.extend_from_slice(&[5; 32]);
    let instr = token_instr(vec![addr(1), addr(2)], data);
    match parse_instruction(&instr, &ctx) {
        Ok(Some(Event::SetAuthority(e))) => {
            assert_eq!(e.mint, addr(1));
            assert_eq!(e.authority, addr(2));
            assert_eq!(e.authority_type, AuthorityType::AccountOwner);
            assert_eq!(e.new_authority, Some(vec![5; 32]));
        },
        other => panic!("unexpected: {:?}", other),
    }
}

#[test]
fn event_mismatch_when_asking_for_a_different_kind() {
    let ctx = context_with(vec![account(1, 10, 10)]);
    let instr = token_instr(vec![addr(1)], vec![5u8]);
    assert_eq!(parse_transfer_instruction(&instr, &ctx), Err(ParseError::EventMismatch));
}

#[test]
fn transaction_ledger_updates_before_each_instruction() {
    let transfer = token_instr(vec![addr(1), addr(2), addr(3)], transfer_data(30));
    let tx = Transaction {
        signature: vec![7; 64],
        failed: false,
        instructions: vec![transfer],
        token_balances: vec![account(1, 100, 100), account(2, 50, 50)],
    };
    let events = parse_transaction(&tx).unwrap();
    assert_eq!(events.len(), 1);
    match &events[0].event {
        Some(Event::Transfer(e)) => {
            assert_eq!(e.source.pre_balance, 100);
            assert_eq!(e.source.post_balance, 70);
            assert_eq!(e.destination.pre_balance, 50);
            assert_eq!(e.destination.post_balance, 80);
        },
        other => panic!("unexpected: {:?}", other),
    }
}

#[test]
fn failed_transaction_yields_no_token_events() {
    let transfer = token_instr(vec![addr(1), addr(2), addr(3)], transfer_data(30));
    let tx = Transaction {
        signature: vec![7; 64],
        failed: true,
        instructions: vec![transfer],
        token_balances: vec![account(1, 100, 100)],
    };
    assert_eq!(parse_transaction(&tx).unwrap().len(), 0);
}

#[test]
fn aborting_transfer_reports_the_signature() {
    let bad = token_instr(vec![addr(1), addr(2), addr(3)], transfer_data(30));
    let tx = Transaction {
        signature: vec![7; 64],
        failed: false,
        instructions: vec![bad],
        token_balances: Vec::new(),
    };
    let err = parse_transaction(&tx).unwrap_err();
    assert_eq!(err.signature, vec![7; 64]);
    assert_eq!(err.cause, ParseError::LedgerLookupFailed);
}

#[test]
fn ledger_updates_are_order_dependent() {
    let t10 = token_instr(vec![addr(1), addr(2), addr(3)], transfer_data(10));
    let t20 = token_instr(vec![addr(1), addr(4), addr(3)], transfer_data(20));
    let balances = vec![account(1, 100, 100), account(2, 0, 0), account(4, 0, 0)];

    let tx = Transaction {
        signature: vec![7; 64],
        failed: false,
        instructions: vec![t10, t20],
        token_balances: balances,
    };
    let mut ctx_a = get_context(&tx);
    ctx_a.update_balance(&tx.instructions[0]);
    ctx_a.update_balance(&tx.instructions[1]);
    let mut ctx_b = get_context(&tx);
    ctx_b.update_balance(&tx.instructions[1]);
    ctx_b.update_balance(&tx.instructions[0]);

    let snap_a = ctx_a.get_token_account(&vec![1; 32]).unwrap();
    let snap_b = ctx_b.get_token_account(&vec![1; 32]).unwrap();
    assert_eq!(snap_a.pre_balance, 90);
    assert_eq!(snap_b.pre_balance, 80);
    assert_eq!(snap_a.post_balance, 70);
    assert_eq!(snap_b.post_balance, 70);
    assert_ne!(snap_a, snap_b);
}
