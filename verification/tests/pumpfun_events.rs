use pumpfun_substream::errors::{LogError, ParseError};
use pumpfun_substream::model::{
    Block, Instruction, Log, TokenAccount, Transaction, PUMPFUN_PROGRAM_ID, SYSTEM_PROGRAM_ID,
    TOKEN_PROGRAM_ID,
};
use pumpfun_substream::pumpfun::{parse_block, parse_instruction, parse_transaction};
use pumpfun_substream::pumpfun_events::{Direction, Event};
use pumpfun_substream::pumpfun_instruction::{
    PumpfunInstruction, BUY_DISCRIMINANT, CREATE_DISCRIMINANT, SELL_DISCRIMINANT,
    SET_PARAMS_DISCRIMINANT, WITHDRAW_DISCRIMINANT,
};
use pumpfun_substream::pumpfun_log::{parse_pumpfun_log, PumpfunLog, TRADE_LOG_DISCRIMINANT};
use pumpfun_substream::ledger::TransactionContext;

fn addr(n: u8) -> Vec<u8> {
    vec![n; 32]
}

fn account(n: u8, pre: u64, post: u64) -> TokenAccount {
    TokenAccount {
        address: addr(n),
        owner: addr(100 + n),
        mint: addr(200),
        pre_balance: pre,
        post_balance: post,
    }
}

fn eight_accounts() -> Vec<Vec<u8>> {
    (1..=8).map(addr).collect()
}

fn buy_data(amount: u64, max_sol_cost: u64) -> Vec<u8> {
    let mut d = BUY_DISCRIMINANT.to_vec();
    d.extend_from_slice(&amount.to_le_bytes());
    d.extend_from_slice(&max_sol_cost.to_le_bytes());
    d
}

fn sell_data(amount: u64, min_sol_output: u64) -> Vec<u8> {
    let mut d = SELL_DISCRIMINANT.to_vec();
    d.extend_from_slice(&amount.to_le_bytes());
    d.extend_from_slice(&min_sol_output.to_le_bytes());
    d
}

fn system_transfer_child(lamports: u64) -> Instruction {
    let mut data = 2u32.to_le_bytes().to_vec();
    data.extend_from_slice(&lamports.to_le_bytes());
    Instruction {
        program_id: SYSTEM_PROGRAM_ID.to_vec(),
        accounts: vec![addr(7), addr(4)],
        data,
        inner_instructions: Vec::new(),
        logs: Some(Vec::new()),
    }
}

fn token_transfer_child(source: u8, destination: u8, amount: u64) -> Instruction {
    let mut data = vec![3u8];
    data.extend_from_slice(&amount.to_le_bytes());
    Instruction {
        program_id: TOKEN_PROGRAM_ID.to_vec(),
        accounts: vec![addr(source), addr(destination), addr(9)],
        data,
        inner_instructions: Vec::new(),
        logs: Some(Vec::new()),
    }
}

fn trade_log_data(
    sol_amount: u64,
    virtual_sol: u64,
    virtual_token: u64,
    real_sol: u64,
    real_token: u64,
) -> Vec<u8> {
    let mut d = TRADE_LOG_DISCRIMINANT.to_vec();
    d.extend_from_slice(&[5; 32]);
    d.extend_from_slice(&sol_amount.to_le_bytes());
    d.extend_from_slice(&77u64.to_le_bytes());
    d.push(1);
    d.extend_from_slice(&[6; 32]);
    d.extend_from_slice(&123456789u64.to_le_bytes());
    d.extend_from_slice(&virtual_sol.to_le_bytes());
    d.extend_from_slice(&virtual_token.to_le_bytes());
    d.extend_from_slice(&real_sol.to_le_bytes());
    d.extend_from_slice(&real_token.to_le_bytes());
    d
}

fn pumpfun_instr(data: Vec<u8>, inner: Vec<Instruction>, logs: Option<Vec<Log>>) -> Instruction {
    Instruction {
        program_id: PUMPFUN_PROGRAM_ID.to_vec(),
        accounts: eight_accounts(),
        data,
        inner_instructions: inner,
        logs,
    }
}

fn transaction_of(instructions: Vec<Instruction>, balances: Vec<TokenAccount>) -> Transaction {
    Transaction {
        signature: vec![8; 64],
        failed: false,
        instructions,
        token_balances: balances,
    }
}

fn context_with(accounts: Vec<TokenAccount>) -> TransactionContext {
    TransactionContext { signature: vec![8; 64], accounts }
}

#[test]
fn create_event_fields_come_from_fixed_positions() {
    let mut data = CREATE_DISCRIMINANT.to_vec();
    data.extend_from_slice(&4u32.to_le_bytes());
    data.extend_from_slice(b"coin");
    data.extend_from_slice(&3u32.to_le_bytes());
    data.extend_from_slice(b"CNS");
    data.extend_from_slice(&9u32.to_le_bytes());
    data.extend_from_slice(b"ipfs://xy");
    let instr = pumpfun_instr(data, Vec::new(), Some(Vec::new()));
    let ctx = context_with(Vec::new());
    match parse_instruction(&instr, &ctx) {
        Ok(Some(Event::Create(e))) => {
            assert_eq!(e.user, addr(8));
            assert_eq!(e.mint, addr(1));
            assert_eq!(e.bonding_curve, addr(3));
            assert_eq!(e.associated_bonding_curve, addr(3));
            assert_eq!(e.metadata, addr(7));
            assert_eq!(e.name, b"coin".to_vec());
            assert_eq!(e.symbol, b"CNS".to_vec());
            assert_eq!(e.uri, b"ipfs://xy".to_vec());
        },
        other => panic!("unexpected: {:?}", other),
    }
}

#[test]
fn create_with_truncated_string_is_rejected() {
    let mut data = CREATE_DISCRIMINANT.to_vec();
    data.extend_from_slice(&10u32.to_le_bytes());
    data.extend_from_slice(b"coin");
    let instr = pumpfun_instr(data, Vec::new(), Some(Vec::new()));
    let ctx = context_with(Vec::new());
    assert_eq!(parse_instruction(&instr, &ctx), Err(ParseError::TruncatedPayload));
}

#[test]
fn buy_without_native_transfer_child_is_a_correlation_failure() {
    let instr = pumpfun_instr(
        buy_data(10, 999),
        vec![token_transfer_child(7, 4, 10)],
        Some(Vec::new()),
    );
    let ctx = context_with(vec![account(7, 3, 3), account(4, 40, 40)]);
    assert_eq!(parse_instruction(&instr, &ctx), Err(ParseError::CorrelationFailed));
}

#[test]
fn buy_without_token_transfer_child_is_a_correlation_failure() {
    let instr = pumpfun_instr(buy_data(10, 999), vec![system_transfer_child(5)], Some(Vec::new()));
    let ctx = context_with(Vec::new());
    assert_eq!(parse_instruction(&instr, &ctx), Err(ParseError::CorrelationFailed));
}

#[test]
fn buy_with_trade_log_populates_all_reserve_fields() {
    let logs = vec![
        Log::Message(b"invoke".to_vec()),
        Log::Data(trade_log_data(5, 11, 12, 13, 14)),
    ];
    let instr = pumpfun_instr(
        buy_data(10, 999),
        vec![system_transfer_child(5), token_transfer_child(7, 4, 10)],
        Some(logs),
    );
    let ctx = context_with(vec![account(7, 3, 3), account(4, 40, 40)]);
    match parse_instruction(&instr, &ctx) {
        Ok(Some(Event::Swap(e))) => {
            assert_eq!(e.user, addr(7));
            assert_eq!(e.mint, addr(3));
            assert_eq!(e.bonding_curve, addr(4));
            assert_eq!(e.sol_amount, Some(5));
            assert_eq!(e.token_amount, 10);
            assert_eq!(e.direction, Direction::Token);
            assert_eq!(e.virtual_sol_reserves, Some(11));
            assert_eq!(e.virtual_token_reserves, Some(12));
            assert_eq!(e.real_sol_reserves, Some(13));
            assert_eq!(e.real_token_reserves, Some(14));
            assert_eq!(e.user_token_pre_balance, 40);
        },
        other => panic!("unexpected: {:?}", other),
    }
}

#[test]
fn buy_without_trade_log_leaves_reserves_unset() {
    let instr = pumpfun_instr(
        buy_data(10, 999),
        vec![system_transfer_child(5), token_transfer_child(7, 4, 10)],
        Some(vec![Log::Message(b"plain".to_vec())]),
    );
    let ctx = context_with(vec![account(7, 3, 3), account(4, 40, 40)]);
    match parse_instruction(&instr, &ctx) {
        Ok(Some(Event::Swap(e))) => {
            assert_eq!(e.sol_amount, Some(5));
            assert_eq!(e.virtual_sol_reserves, None);
            assert_eq!(e.virtual_token_reserves, None);
            assert_eq!(e.real_sol_reserves, None);
            assert_eq!(e.real_token_reserves, None);
            assert_eq!(e.user_token_pre_balance, 40);
        },
        other => panic!("unexpected: {:?}", other),
    }
}

#[test]
fn sell_takes_sol_amount_from_the_trade_log() {
    let logs = vec![Log::Data(trade_log_data(21, 11, 12, 13, 14))];
    let instr = pumpfun_instr(sell_data(10, 1), vec![token_transfer_child(7, 4, 10)], Some(logs));
    let ctx = context_with(vec![account(7, 33, 33), account(4, 40, 40)]);
    match parse_instruction(&instr, &ctx) {
        Ok(Some(Event::Swap(e))) => {
            assert_eq!(e.direction, Direction::Sol);
            assert_eq!(e.sol_amount, Some(21));
            assert_eq!(e.user_token_pre_balance, 33);
        },
        other => panic!("unexpected: {:?}", other),
    }
}

#[test]
fn sell_with_truncated_log_capture_still_produces_the_event() {
    let instr = pumpfun_instr(sell_data(10, 1), vec![token_transfer_child(7, 4, 10)], None);
    let ctx = context_with(vec![account(7, 33, 33), account(4, 40, 40)]);
    match parse_instruction(&instr, &ctx) {
        Ok(Some(Event::Swap(e))) => {
            assert_eq!(e.sol_amount, None);
            assert_eq!(e.virtual_sol_reserves, None);
        },
        other => panic!("unexpected: {:?}", other),
    }
}

#[test]
fn withdraw_takes_the_mint_from_position_two() {
    let instr = pumpfun_instr(WITHDRAW_DISCRIMINANT.to_vec(), Vec::new(), Some(Vec::new()));
    let ctx = context_with(Vec::new());
    match parse_instruction(&instr, &ctx) {
        Ok(Some(Event::Withdraw(e))) => assert_eq!(e.mint, addr(3)),
        other => panic!("unexpected: {:?}", other),
    }
}

#[test]
fn set_params_copies_the_payload_verbatim() {
    let mut data = SET_PARAMS_DISCRIMINANT.to_vec();
    data.extend_from_slice(&[9; 32]);
    data.extend_from_slice(&1u64.to_le_bytes());
    data.extend_from_slice(&2u64.to_le_bytes());
    data.extend_from_slice(&3u64.to_le_bytes());
    data.extend_from_slice(&4u64.to_le_bytes());
    data.extend_from_slice(&5u64.to_le_bytes());
    let instr = pumpfun_instr(data, Vec::new(), Some(Vec::new()));
    let ctx = context_with(Vec::new());
    match parse_instruction(&instr, &ctx) {
        Ok(Some(Event::SetParams(e))) => {
            assert_eq!(e.user, addr(1));
            assert_eq!(e.fee_recipient, vec![9; 32]);
            assert_eq!(e.initial_virtual_token_reserves, 1);
            assert_eq!(e.initial_virtual_sol_reserves, 2);
            assert_eq!(e.initial_real_token_reserves, 3);
            assert_eq!(e.token_total_supply, 4);
            assert_eq!(e.fee_basis_points, 5);
        },
        other => panic!("unexpected: {:?}", other),
    }
}

#[test]
fn unknown_pumpfun_discriminant_yields_no_event_and_no_error() {
    let instr = pumpfun_instr(vec![1, 2, 3, 4, 5, 6, 7, 8, 9], Vec::new(), Some(Vec::new()));
    let ctx = context_with(Vec::new());
    assert_eq!(parse_instruction(&instr, &ctx), Ok(None));
}

#[test]
fn decoding_differs_exactly_in_the_changed_field() {
    let d1 = buy_data(10, 999);
    let d2 = buy_data(11, 999);
    let b1 = match PumpfunInstruction::unpack(&d1) {
        Ok(PumpfunInstruction::Buy(b)) => b,
        other => panic!("unexpected: {:?}", other),
    };
    let b2 = match PumpfunInstruction::unpack(&d2) {
        Ok(PumpfunInstruction::Buy(b)) => b,
        other => panic!("unexpected: {:?}", other),
    };
    assert_ne!(b1.amount, b2.amount);
    assert_eq!(b1.max_sol_cost, b2.max_sol_cost);
}

#[test]
fn failed_transaction_yields_no_events() {
    let instr = pumpfun_instr(WITHDRAW_DISCRIMINANT.to_vec(), Vec::new(), Some(Vec::new()));
    let mut tx = transaction_of(vec![instr], Vec::new());
    tx.failed = true;
    assert_eq!(parse_transaction(&tx).unwrap().len(), 0);
}

#[test]
fn nested_pumpfun_instructions_are_also_decoded() {
    let mut outer = Instruction {
        program_id: vec![42; 32],
        accounts: Vec::new(),
        data: Vec::new(),
        inner_instructions: Vec::new(),
        logs: Some(Vec::new()),
    };
    outer.inner_instructions.push(pumpfun_instr(
        WITHDRAW_DISCRIMINANT.to_vec(),
        Vec::new(),
        Some(Vec::new()),
    ));
    let tx = transaction_of(vec![outer], Vec::new());
    let events = parse_transaction(&tx).unwrap();
    assert_eq!(events.len(), 1);
    assert!(matches!(events[0], Event::Withdraw(_)));
}

#[test]
fn block_groups_events_by_transaction_and_skips_empty_ones() {
    let withdraw = pumpfun_instr(WITHDRAW_DISCRIMINANT.to_vec(), Vec::new(), Some(Vec::new()));
    let mut with_events = transaction_of(vec![withdraw], Vec::new());
    with_events.signature = vec![1; 64];
    let empty = Transaction {
        signature: vec![2; 64],
        failed: false,
        instructions: Vec::new(),
        token_balances: Vec::new(),
    };
    let block = Block { transactions: vec![empty, with_events] };
    let groups = parse_block(&block).unwrap();
    assert_eq!(groups.len(), 1);
    assert_eq!(groups[0].signature, vec![1; 64]);
    assert_eq!(groups[0].events.len(), 1);
}

#[test]
fn processing_a_block_twice_is_deterministic() {
    let logs = vec![Log::Data(trade_log_data(5, 11, 12, 13, 14))];
    let buy = pumpfun_instr(
        buy_data(10, 999),
        vec![system_transfer_child(5), token_transfer_child(7, 4, 10)],
        Some(logs),
    );
    let tx = transaction_of(vec![buy], vec![account(7, 3, 3), account(4, 40, 40)]);
    let block = Block { transactions: vec![tx] };
    let first = parse_block(&block).unwrap();
    let second = parse_block(&block).unwrap();
    assert_eq!(first, second);
}

#[test]
fn block_aborts_on_the_first_failing_transaction() {
    let bad_buy = pumpfun_instr(buy_data(10, 999), Vec::new(), Some(Vec::new()));
    let mut tx = transaction_of(vec![bad_buy], Vec::new());
    tx.signature = vec![3; 64];
    let block = Block { transactions: vec![tx] };
    let err = parse_block(&block).unwrap_err();
    assert_eq!(err.signature, vec![3; 64]);
    assert_eq!(err.cause, ParseError::CorrelationFailed);
}

#[test]
fn log_scan_finds_the_first_data_line() {
    let logs = vec![
        Log::Message(b"Program invoke".to_vec()),
        Log::Data(trade_log_data(5, 11, 12, 13, 14)),
    ];
    let instr = pumpfun_instr(buy_data(1, 1), Vec::new(), Some(logs));
    match parse_pumpfun_log(&instr) {
        Ok(PumpfunLog::Trade(t)) => {
            assert_eq!(t.sol_amount, 5);
            assert_eq!(t.token_amount, 77);
            assert!(t.is_buy);
            assert_eq!(t.virtual_sol_reserves, 11);
            assert_eq!(t.virtual_token_reserves, 12);
            assert_eq!(t.real_sol_reserves, 13);
            assert_eq!(t.real_token_reserves, 14);
        },
        other => panic!("unexpected: {:?}", other),
    }
}

#[test]
fn absent_data_log_and_truncated_capture_are_distinguished() {
    let no_data = pumpfun_instr(buy_data(1, 1), Vec::new(), Some(vec![Log::Message(
        b"x".to_vec(),
    )]));
    assert_eq!(parse_pumpfun_log(&no_data), Err(LogError::NoDataLog));
    let truncated = pumpfun_instr(buy_data(1, 1), Vec::new(), None);
    assert_eq!(parse_pumpfun_log(&truncated), Err(LogError::LogTruncated));
}

#[test]
fn malformed_trade_log_is_reported_truncated() {
    let mut short = TRADE_LOG_DISCRIMINANT.to_vec();
    short.extend_from_slice(&[0; 10]);
    let instr = pumpfun_instr(buy_data(1, 1), Vec::new(), Some(vec![Log::Data(short)]));
    assert_eq!(parse_pumpfun_log(&instr), Err(LogError::TruncatedLogPayload));
}

#[test]
fn create_payloads_differing_in_one_string_differ_in_that_field() {
    fn create_data(symbol: &[u8]) -> Vec<u8> {
        let mut d = CREATE_DISCRIMINANT.to_vec();
        d.extend_from_slice(&4u32.to_le_bytes());
        d.extend_from_slice(b"coin");
        d.extend_from_slice(&(symbol.len() as u32).to_le_bytes());
        d.extend_from_slice(symbol);
        d.extend_from_slice(&3u32.to_le_bytes());
        d.extend_from_slice(b"uri");
        d
    }
    let c1 = match PumpfunInstruction::unpack(&create_data(b"AAA")) {
        Ok(PumpfunInstruction::Create(c)) => c,
        other => panic!("unexpected: {:?}", other),
    };
    let c2 = match PumpfunInstruction::unpack(&create_data(b"BBB")) {
        Ok(PumpfunInstruction::Create(c)) => c,
        other => panic!("unexpected: {:?}", other),
    };
    assert_eq!(c1.name, c2.name);
    assert_eq!(c1.uri, c2.uri);
    assert_ne!(c1.symbol, c2.symbol);
}

#[test]
fn unknown_log_record_is_reported_as_such() {
    let mut data = vec![9u8, 9, 9, 9, 9, 9, 9, 9];
    data.extend_from_slice(&[0; 40]);
    let instr = pumpfun_instr(buy_data(1, 1), Vec::new(), Some(vec![Log::Data(data)]));
    assert_eq!(parse_pumpfun_log(&instr), Err(LogError::UnknownRecord));
}

#[test]
fn empty_block_yields_no_groups() {
    let block = Block { transactions: Vec::new() };
    assert_eq!(parse_block(&block).unwrap().len(), 0);
}

#[test]
fn largest_amount_survives_decoding() {
    let instr = pumpfun_instr(buy_data(u64::MAX, u64::MAX), Vec::new(), Some(Vec::new()));
    match PumpfunInstruction::unpack(&instr.data) {
        Ok(PumpfunInstruction::Buy(b)) => {
            assert_eq!(b.amount, u64::MAX);
            assert_eq!(b.max_sol_cost, u64::MAX);
        },
        other => panic!("unexpected: {:?}", other),
    }
}

