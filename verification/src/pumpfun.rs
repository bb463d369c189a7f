//! Event synthesizer and orchestrators for the bonding-curve exchange
//! program. A swap correlates its instruction with nested transfer
//! instructions and the runtime trade log to recover values that only exist
//! at execution time.

use vstd::prelude::*;
use crate::bytes::{copy_bytes, le32, le64, read_u64_le};
use crate::errors::{ParseError, TransactionError, TransactionErrorView};
use crate::ledger::{accounts_view, get_context, TransactionContext};
use crate::model::{
    flatten_list, flatten_one, lemma_flatten_concat, lemma_flatten_singleton, Block, Instruction,
    TokenAccountView, Transaction, PUMPFUN_PROGRAM_ID, SYSTEM_PROGRAM_ID, TOKEN_PROGRAM_ID,
};
use crate::pumpfun_events::{
    lemma_pumpfun_events_view, pumpfun_events_view, CreateEvent, CreateEventView, Direction,
    Event, EventView, InitializeEvent, InitializeEventView, PumpfunBlockEvents,
    PumpfunTransactionEvents, PumpfunTransactionEventsView,
    SetParamsEvent, SetParamsEventView, SwapEvent, SwapEventView, WithdrawEvent,
    WithdrawEventView,
};
use crate::pumpfun_instruction::{
    spec_unpack_pumpfun, BuyInstruction, CreateInstruction, CreateInstructionView,
    PumpfunInstruction, PumpfunInstructionView, SellInstruction, SetParamsInstruction,
    SetParamsInstructionView,
};
use crate::pumpfun_log::{
    parse_pumpfun_log, spec_parse_pumpfun_log, PumpfunLog, PumpfunLogView, TradeLogView,
};
use crate::spl_token::{spec_account, spec_parse_token_instruction};
use crate::token_events::TransferEventView;

verus! {

/// First direct child owned by `program`, in execution order. Absence is a
/// correlation failure, decided by the caller.
pub open spec fn spec_find_child(children: Seq<Instruction>, program: Seq<u8>) -> Option<
    Instruction>
    decreases children.len(),
{
    if children.len() == 0 {
        None
    } else if children[0].program_id@ == program {
        Some(children[0])
    } else {
        spec_find_child(children.drop_first(), program)
    }
}

/// Index of the first direct child owned by `program`.
fn find_child_index(instruction: &Instruction, program: &[u8; 32]) -> (r: Option<usize>)
    ensures
        match r {
            Some(j) => 0 <= j < instruction.inner_instructions@.len() && spec_find_child(
                instruction.inner_instructions@, program@) == Some(
                instruction.inner_instructions@[j as int]),
            None => spec_find_child(instruction.inner_instructions@, program@) is None,
        },
{
    let ghost cs = instruction.inner_instructions@;
    proof {
        assert(cs.skip(0) =~= cs);
    }
    let n = instruction.inner_instructions.len();
    let mut i: usize = 0;
    while i < n
        invariant
            n == instruction.inner_instructions@.len(),
            cs == instruction.inner_instructions@,
            i <= n,
            spec_find_child(cs, program@) == spec_find_child(cs.skip(i as int), program@),
        decreases n - i,
    {
        proof {
            assert(cs.skip(i as int)[0] == cs[i as int]);
            assert(cs.skip(i as int).drop_first() =~= cs.skip(i as int + 1));
        }
        if crate::bytes::bytes_eq32(&instruction.inner_instructions[i].program_id, program) {
            return Some(i);
        }
        i = i + 1;
    }
    proof {
        assert(cs.skip(n as int) =~= Seq::<Instruction>::empty());
    }
    None
}

/// The settled amount of a native-currency transfer: a four-byte
/// discriminant of 2, then the amount.
pub open spec fn spec_system_transfer_lamports(i: Instruction) -> Result<u64, ParseError> {
    if i.program_id@ != SYSTEM_PROGRAM_ID@ {
        Err(ParseError::WrongProgram)
    } else if i.data@.len() < 4 {
        Err(ParseError::TruncatedPayload)
    } else if le32(i.data@.subrange(0, 4)) != 2 {
        Err(ParseError::UnknownDiscriminant)
    } else if i.data@.len() < 12 {
        Err(ParseError::TruncatedPayload)
    } else {
        Ok(le64(i.data@.subrange(4, 12)) as u64)
    }
}

/// Decodes the settled amount of a native-currency transfer instruction.
pub fn parse_system_transfer_lamports(instruction: &Instruction) -> (r: Result<u64, ParseError>)
    ensures
        match r {
            Ok(lamports) => spec_system_transfer_lamports(*instruction) == Ok::<u64, ParseError>(
                lamports,
            ),
            Err(e) => spec_system_transfer_lamports(*instruction) == Err::<u64, ParseError>(e),
        },
{
    if !crate::bytes::bytes_eq32(&instruction.program_id, &SYSTEM_PROGRAM_ID) {
        return Err(ParseError::WrongProgram);
    }
    let n = instruction.data.len();
    if n < 4 {
        return Err(ParseError::TruncatedPayload);
    }
    let tag = crate::bytes::read_u32_le(&instruction.data, 0);
    if tag != 2 {
        return Err(ParseError::UnknownDiscriminant);
    }
    if n < 12 {
        return Err(ParseError::TruncatedPayload);
    }
    Ok(read_u64_le(&instruction.data, 4))
}

/// The transfer event of a correlated token-program child; every other
/// outcome of parsing the child is collapsed into a mismatch.
pub open spec fn spec_child_token_transfer(c: Instruction, l: Seq<TokenAccountView>) -> Result<
    TransferEventView, ParseError> {
    match spec_parse_token_instruction(c, l) {
        Ok(o) => match o {
            Some(v) => match v {
                crate::token_events::EventView::Transfer(t) => Ok(t),
                _ => Err(ParseError::EventMismatch),
            },
            None => Err(ParseError::EventMismatch),
        },
        Err(_) => Err(ParseError::EventMismatch),
    }
}

/// The trade record of the instruction's logs, when present and well-formed.
pub open spec fn spec_trade_of(i: Instruction) -> Option<TradeLogView> {
    match spec_parse_pumpfun_log(i) {
        Ok(PumpfunLogView::Trade(t)) => Some(t),
        _ => None,
    }
}

/// User at position 0.
pub open spec fn spec_initialize_event(i: Instruction) -> Result<InitializeEventView,
    ParseError> {
    if i.accounts@.len() >= 1 {
        Ok(InitializeEventView { user: spec_account(i, 0) })
    } else {
        Err(ParseError::MissingAccounts)
    }
}

/// User at position 0; every other field verbatim from the payload.
pub open spec fn spec_set_params_event(i: Instruction, p: SetParamsInstructionView) -> Result<
    SetParamsEventView, ParseError> {
    if i.accounts@.len() >= 1 {
        Ok(SetParamsEventView {
            user: spec_account(i, 0),
            fee_recipient: p.fee_recipient,
            initial_virtual_token_reserves: p.initial_virtual_token_reserves,
            initial_virtual_sol_reserves: p.initial_virtual_sol_reserves,
            initial_real_token_reserves: p.initial_real_token_reserves,
            token_total_supply: p.token_total_supply,
            fee_basis_points: p.fee_basis_points,
        })
    } else {
        Err(ParseError::MissingAccounts)
    }
}

/// Mint at 0, bonding curve and associated bonding curve both at 2 (the
/// observed on-chain schema maps both to the same position), metadata at 6,
/// user at 7; name, symbol and uri verbatim from the payload.
pub open spec fn spec_create_event(i: Instruction, c: CreateInstructionView) -> Result<
    CreateEventView, ParseError> {
    if i.accounts@.len() >= 8 {
        Ok(CreateEventView {
            user: spec_account(i, 7),
            name: c.name,
            symbol: c.symbol,
            uri: c.uri,
            mint: spec_account(i, 0),
            bonding_curve: spec_account(i, 2),
            associated_bonding_curve: spec_account(i, 2),
            metadata: spec_account(i, 6),
        })
    } else {
        Err(ParseError::MissingAccounts)
    }
}

/// Mint at 2.
pub open spec fn spec_withdraw_event(i: Instruction) -> Result<WithdrawEventView, ParseError> {
    if i.accounts@.len() >= 3 {
        Ok(WithdrawEventView { mint: spec_account(i, 2) })
    } else {
        Err(ParseError::MissingAccounts)
    }
}

/// A buy: mint at 2, bonding curve at 3, user at 6. The settled native
/// amount comes from a mandatory correlated native-transfer child; the
/// user's prior token balance from the destination snapshot of a mandatory
/// correlated token-transfer child; the reserve levels from the trade log
/// when present, else unset.
pub open spec fn spec_buy_event(i: Instruction, l: Seq<TokenAccountView>, amount: u64) -> Result<
    SwapEventView, ParseError> {
    if i.accounts@.len() >= 7 {
        match spec_find_child(i.inner_instructions@, SYSTEM_PROGRAM_ID@) {
            None => Err(ParseError::CorrelationFailed),
            Some(sys) => match spec_system_transfer_lamports(sys) {
                Err(e) => Err(e),
                Ok(lamports) => match spec_find_child(i.inner_instructions@, TOKEN_PROGRAM_ID@) {
                    None => Err(ParseError::CorrelationFailed),
                    Some(tok) => match spec_child_token_transfer(tok, l) {
                        Err(e) => Err(e),
                        Ok(t) => Ok(SwapEventView {
                            user: spec_account(i, 6),
                            mint: spec_account(i, 2),
                            bonding_curve: spec_account(i, 3),
                            sol_amount: Some(lamports),
                            token_amount: amount,
                            direction: Direction::Token,
                            virtual_sol_reserves: match spec_trade_of(i) {
                                Some(tr) => Some(tr.virtual_sol_reserves),
                                None => None,
                            },
                            virtual_token_reserves: match spec_trade_of(i) {
                                Some(tr) => Some(tr.virtual_token_reserves),
                                None => None,
                            },
                            real_sol_reserves: match spec_trade_of(i) {
                                Some(tr) => Some(tr.real_sol_reserves),
                                None => None,
                            },
                            real_token_reserves: match spec_trade_of(i) {
                                Some(tr) => Some(tr.real_token_reserves),
                                None => None,
                            },
                            user_token_pre_balance: t.destination.pre_balance,
                        }),
                    },
                },
            },
        }
    } else {
        Err(ParseError::MissingAccounts)
    }
}

/// A sell: mint at 2, bonding curve at 3, user at 6. The settled native
/// amount comes from the trade log when present, else unset; the user's
/// prior token balance from the source snapshot of a mandatory correlated
/// token-transfer child.
pub open spec fn spec_sell_event(i: Instruction, l: Seq<TokenAccountView>, amount: u64) -> Result<
    SwapEventView, ParseError> {
    if i.accounts@.len() >= 7 {
        match spec_find_child(i.inner_instructions@, TOKEN_PROGRAM_ID@) {
            None => Err(ParseError::CorrelationFailed),
            Some(tok) => match spec_child_token_transfer(tok, l) {
                Err(e) => Err(e),
                Ok(t) => Ok(SwapEventView {
                    user: spec_account(i, 6),
                    mint: spec_account(i, 2),
                    bonding_curve: spec_account(i, 3),
                    sol_amount: match spec_trade_of(i) {
                        Some(tr) => Some(tr.sol_amount),
                        None => None,
                    },
                    token_amount: amount,
                    direction: Direction::Sol,
                    virtual_sol_reserves: match spec_trade_of(i) {
                        Some(tr) => Some(tr.virtual_sol_reserves),
                        None => None,
                    },
                    virtual_token_reserves: match spec_trade_of(i) {
                        Some(tr) => Some(tr.virtual_token_reserves),
                        None => None,
                    },
                    real_sol_reserves: match spec_trade_of(i) {
                        Some(tr) => Some(tr.real_sol_reserves),
                        None => None,
                    },
                    real_token_reserves: match spec_trade_of(i) {
                        Some(tr) => Some(tr.real_token_reserves),
                        None => None,
                    },
                    user_token_pre_balance: t.source.pre_balance,
                }),
            },
        }
    } else {
        Err(ParseError::MissingAccounts)
    }
}

/// The whole synthesizer contract for one bonding-curve instruction against
/// ledger `l`. An unknown discriminant yields no event and no error, for
/// forward compatibility.
pub open spec fn spec_parse_pumpfun_instruction(i: Instruction, l: Seq<TokenAccountView>) -> Result<
    Option<EventView>, ParseError> {
    if i.program_id@ != PUMPFUN_PROGRAM_ID@ {
        Err(ParseError::WrongProgram)
    } else {
        match spec_unpack_pumpfun(i.data@) {
            Err(ParseError::UnknownDiscriminant) => Ok(None),
            Err(e) => Err(e),
            Ok(v) => match v {
                PumpfunInstructionView::Initialize => match spec_initialize_event(i) {
                    Ok(e) => Ok(Some(EventView::Initialize(e))),
                    Err(err) => Err(err),
                },
                PumpfunInstructionView::SetParams(p) => match spec_set_params_event(i, p) {
                    Ok(e) => Ok(Some(EventView::SetParams(e))),
                    Err(err) => Err(err),
                },
                PumpfunInstructionView::Create(c) => match spec_create_event(i, c) {
                    Ok(e) => Ok(Some(EventView::Create(e))),
                    Err(err) => Err(err),
                },
                PumpfunInstructionView::Buy(b) => match spec_buy_event(i, l, b.amount) {
                    Ok(e) => Ok(Some(EventView::Swap(e))),
                    Err(err) => Err(err),
                },
                PumpfunInstructionView::Sell(s) => match spec_sell_event(i, l, s.amount) {
                    Ok(e) => Ok(Some(EventView::Swap(e))),
                    Err(err) => Err(err),
                },
                PumpfunInstructionView::Withdraw => match spec_withdraw_event(i) {
                    Ok(e) => Ok(Some(EventView::Withdraw(e))),
                    Err(err) => Err(err),
                },
            },
        }
    }
}


fn _parse_initialize_instruction(instruction: &Instruction, _context: &TransactionContext) -> (r:
    Result<InitializeEvent, ParseError>)
    ensures
        match r {
            Ok(e) => spec_initialize_event(*instruction) == Ok::<InitializeEventView, ParseError>(
                e@,
            ),
            Err(err) => spec_initialize_event(*instruction) == Err::<InitializeEventView,
                ParseError>(err),
        },
{
    if instruction.accounts.len() < 1 {
        return Err(ParseError::MissingAccounts);
    }
    Ok(InitializeEvent { user: copy_bytes(&instruction.accounts[0]) })
}

fn _parse_set_params_instruction(
    instruction: &Instruction,
    _context: &TransactionContext,
    set_params: SetParamsInstruction,
) -> (r: Result<SetParamsEvent, ParseError>)
    ensures
        match r {
            Ok(e) => spec_set_params_event(*instruction, set_params@) == Ok::<SetParamsEventView,
                ParseError>(e@),
            Err(err) => spec_set_params_event(*instruction, set_params@)
                == Err::<SetParamsEventView, ParseError>(err),
        },
{
    if instruction.accounts.len() < 1 {
        return Err(ParseError::MissingAccounts);
    }
    Ok(SetParamsEvent {
        user: copy_bytes(&instruction.accounts[0]),
        fee_recipient: set_params.fee_recipient,
        initial_virtual_token_reserves: set_params.initial_virtual_token_reserves,
        initial_virtual_sol_reserves: set_params.initial_virtual_sol_reserves,
        initial_real_token_reserves: set_params.initial_real_token_reserves,
        token_total_supply: set_params.token_total_supply,
        fee_basis_points: set_params.fee_basis_points,
    })
}

fn _parse_create_instruction(
    instruction: &Instruction,
    _context: &TransactionContext,
    create: CreateInstruction,
) -> (r: Result<CreateEvent, ParseError>)
    ensures
        match r {
            Ok(e) => spec_create_event(*instruction, create@) == Ok::<CreateEventView,
                ParseError>(e@),
            Err(err) => spec_create_event(*instruction, create@) == Err::<CreateEventView,
                ParseError>(err),
        },
{
    if instruction.accounts.len() < 8 {
        return Err(ParseError::MissingAccounts);
    }
    Ok(CreateEvent {
        user: copy_bytes(&instruction.accounts[7]),
        name: create.name,
        symbol: create.symbol,
        uri: create.uri,
        mint: copy_bytes(&instruction.accounts[0]),
        bonding_curve: copy_bytes(&instruction.accounts[2]),
        associated_bonding_curve: copy_bytes(&instruction.accounts[2]),
        metadata: copy_bytes(&instruction.accounts[6]),
    })
}

fn _parse_withdraw_instruction(instruction: &Instruction, _context: &TransactionContext) -> (r:
    Result<WithdrawEvent, ParseError>)
    ensures
        match r {
            Ok(e) => spec_withdraw_event(*instruction) == Ok::<WithdrawEventView, ParseError>(e@),
            Err(err) => spec_withdraw_event(*instruction) == Err::<WithdrawEventView, ParseError>(
                err,
            ),
        },
{
    if instruction.accounts.len() < 3 {
        return Err(ParseError::MissingAccounts);
    }
    Ok(WithdrawEvent { mint: copy_bytes(&instruction.accounts[2]) })
}

fn _parse_buy_instruction(
    instruction: &Instruction,
    context: &TransactionContext,
    buy: BuyInstruction,
) -> (r: Result<SwapEvent, ParseError>)
    ensures
        match r {
            Ok(e) => spec_buy_event(*instruction, context@.accounts, buy.amount)
                == Ok::<SwapEventView, ParseError>(e@),
            Err(err) => spec_buy_event(*instruction, context@.accounts, buy.amount)
                == Err::<SwapEventView, ParseError>(err),
        },
{
    if instruction.accounts.len() < 7 {
        return Err(ParseError::MissingAccounts);
    }
    let system_transfer_index = match find_child_index(instruction, &SYSTEM_PROGRAM_ID) {
        Some(j) => j,
        None => {
            return Err(ParseError::CorrelationFailed);
        },
    };
    let lamports = match parse_system_transfer_lamports(
        &instruction.inner_instructions[system_transfer_index],
    ) {
        Ok(lamports) => lamports,
        Err(e) => {
            return Err(e);
        },
    };
    let token_transfer_index = match find_child_index(instruction, &TOKEN_PROGRAM_ID) {
        Some(j) => j,
        None => {
            return Err(ParseError::CorrelationFailed);
        },
    };
    let token_transfer = match crate::spl_token::parse_transfer_instruction(
        &instruction.inner_instructions[token_transfer_index],
        context,
    ) {
        Ok(t) => t,
        Err(e) => {
            return Err(e);
        },
    };
    let user_token_pre_balance = token_transfer.destination.pre_balance;
    let trade = match parse_pumpfun_log(instruction) {
        Ok(PumpfunLog::Trade(t)) => Some(t),
        _ => None,
    };
    let virtual_sol_reserves = match &trade {
        Some(t) => Some(t.virtual_sol_reserves),
        None => None,
    };
    let virtual_token_reserves = match &trade {
        Some(t) => Some(t.virtual_token_reserves),
        None => None,
    };
    let real_sol_reserves = match &trade {
        Some(t) => Some(t.real_sol_reserves),
        None => None,
    };
    let real_token_reserves = match &trade {
        Some(t) => Some(t.real_token_reserves),
        None => None,
    };
    Ok(SwapEvent {
        user: copy_bytes(&instruction.accounts[6]),
        mint: copy_bytes(&instruction.accounts[2]),
        bonding_curve: copy_bytes(&instruction.accounts[3]),
        sol_amount: Some(lamports),
        token_amount: buy.amount,
        direction: Direction::Token,
        virtual_sol_reserves,
        virtual_token_reserves,
        real_sol_reserves,
        real_token_reserves,
        user_token_pre_balance,
    })
}

fn _parse_sell_instruction(
    instruction: &Instruction,
    context: &TransactionContext,
    sell: SellInstruction,
) -> (r: Result<SwapEvent, ParseError>)
    ensures
        match r {
            Ok(e) => spec_sell_event(*instruction, context@.accounts, sell.amount)
                == Ok::<SwapEventView, ParseError>(e@),
            Err(err) => spec_sell_event(*instruction, context@.accounts, sell.amount)
                == Err::<SwapEventView, ParseError>(err),
        },
{
    if instruction.accounts.len() < 7 {
        return Err(ParseError::MissingAccounts);
    }
    let token_transfer_index = match find_child_index(instruction, &TOKEN_PROGRAM_ID) {
        Some(j) => j,
        None => {
            return Err(ParseError::CorrelationFailed);
        },
    };
    let token_transfer = match crate::spl_token::parse_transfer_instruction(
        &instruction.inner_instructions[token_transfer_index],
        context,
    ) {
        Ok(t) => t,
        Err(e) => {
            return Err(e);
        },
    };
    let user_token_pre_balance = token_transfer.source.pre_balance;
    let trade = match parse_pumpfun_log(instruction) {
        Ok(PumpfunLog::Trade(t)) => Some(t),
        _ => None,
    };
    let sol_amount = match &trade {
        Some(t) => Some(t.sol_amount),
        None => None,
    };
    let virtual_sol_reserves = match &trade {
        Some(t) => Some(t.virtual_sol_reserves),
        None => None,
    };
    let virtual_token_reserves = match &trade {
        Some(t) => Some(t.virtual_token_reserves),
        None => None,
    };
    let real_sol_reserves = match &trade {
        Some(t) => Some(t.real_sol_reserves),
        None => None,
    };
    let real_token_reserves = match &trade {
        Some(t) => Some(t.real_token_reserves),
        None => None,
    };
    Ok(SwapEvent {
        user: copy_bytes(&instruction.accounts[6]),
        mint: copy_bytes(&instruction.accounts[2]),
        bonding_curve: copy_bytes(&instruction.accounts[3]),
        sol_amount,
        token_amount: sell.amount,
        direction: Direction::Sol,
        virtual_sol_reserves,
        virtual_token_reserves,
        real_sol_reserves,
        real_token_reserves,
        user_token_pre_balance,
    })
}

/// Decodes one bonding-curve instruction and synthesizes its event. An
/// instruction of another program is rejected; an unknown discriminant
/// yields no event and no error.
pub fn parse_instruction(instruction: &Instruction, context: &TransactionContext) -> (r: Result<
    Option<Event>, ParseError>)
    ensures
        match r {
            Ok(o) => spec_parse_pumpfun_instruction(*instruction, context@.accounts)
                == Ok::<Option<EventView>, ParseError>(crate::pumpfun_events::opt_pumpfun_event_view(o)),
            Err(err) => spec_parse_pumpfun_instruction(*instruction, context@.accounts)
                == Err::<Option<EventView>, ParseError>(err),
        },
{
    if !crate::bytes::bytes_eq32(&instruction.program_id, &PUMPFUN_PROGRAM_ID) {
        return Err(ParseError::WrongProgram);
    }
    let unpacked = match PumpfunInstruction::unpack(&instruction.data) {
        Ok(t) => t,
        Err(ParseError::UnknownDiscriminant) => {
            return Ok(None);
        },
        Err(e) => {
            return Err(e);
        },
    };
    match unpacked {
        PumpfunInstruction::Initialize => {
            match _parse_initialize_instruction(instruction, context) {
                Ok(e) => Ok(Some(Event::Initialize(e))),
                Err(err) => Err(err),
            }
        },
        PumpfunInstruction::SetParams(set_params) => {
            match _parse_set_params_instruction(instruction, context, set_params) {
                Ok(e) => Ok(Some(Event::SetParams(e))),
                Err(err) => Err(err),
            }
        },
        PumpfunInstruction::Create(create) => {
            match _parse_create_instruction(instruction, context, create) {
                Ok(e) => Ok(Some(Event::Create(e))),
                Err(err) => Err(err),
            }
        },
        PumpfunInstruction::Buy(buy) => {
            match _parse_buy_instruction(instruction, context, buy) {
                Ok(e) => Ok(Some(Event::Swap(e))),
                Err(err) => Err(err),
            }
        },
        PumpfunInstruction::Sell(sell) => {
            match _parse_sell_instruction(instruction, context, sell) {
                Ok(e) => Ok(Some(Event::Swap(e))),
                Err(err) => Err(err),
            }
        },
        PumpfunInstruction::Withdraw => {
            match _parse_withdraw_instruction(instruction, context) {
                Ok(e) => Ok(Some(Event::Withdraw(e))),
                Err(err) => Err(err),
            }
        },
    }
}


/// The events of one transaction over an already-flattened instruction
/// sequence against the fixed ledger `l`: each bonding-curve instruction
/// contributes its event, if any; other programs' instructions contribute
/// nothing; the first fatal error aborts the remainder.
pub open spec fn spec_pumpfun_events(s: Seq<Instruction>, l: Seq<TokenAccountView>) -> Result<Seq<
    EventView>, ParseError>
    decreases s.len(),
{
    if s.len() == 0 {
        Ok(Seq::empty())
    } else if s[0].program_id@ == PUMPFUN_PROGRAM_ID@ {
        match spec_parse_pumpfun_instruction(s[0], l) {
            Err(e) => Err(e),
            Ok(None) => spec_pumpfun_events(s.drop_first(), l),
            Ok(Some(ev)) => match spec_pumpfun_events(s.drop_first(), l) {
                Err(e) => Err(e),
                Ok(rest) => Ok(seq![ev] + rest),
            },
        }
    } else {
        spec_pumpfun_events(s.drop_first(), l)
    }
}

/// Running a concatenation: the outputs concatenate, with the first error
/// winning.
pub proof fn lemma_pumpfun_run_concat(
    a: Seq<Instruction>,
    b: Seq<Instruction>,
    l: Seq<TokenAccountView>,
)
    ensures
        spec_pumpfun_events(a + b, l) == (match spec_pumpfun_events(a, l) {
            Err(e) => Err::<Seq<EventView>, ParseError>(e),
            Ok(ea) => match spec_pumpfun_events(b, l) {
                Err(e) => Err(e),
                Ok(eb) => Ok(ea + eb),
            },
        }),
    decreases a.len(),
{
    if a.len() == 0 {
        assert(a + b =~= b);
        match spec_pumpfun_events(b, l) {
            Err(e) => {},
            Ok(eb) => {
                assert(Seq::<EventView>::empty() + eb =~= eb);
            },
        }
    } else {
        lemma_pumpfun_run_concat(a.drop_first(), b, l);
        assert((a + b).drop_first() =~= a.drop_first() + b);
        assert((a + b)[0] == a[0]);
        if a[0].program_id@ == PUMPFUN_PROGRAM_ID@ {
            match spec_parse_pumpfun_instruction(a[0], l) {
                Err(e) => {},
                Ok(None) => {},
                Ok(Some(ev)) => {
                    match spec_pumpfun_events(a.drop_first(), l) {
                        Err(e) => {},
                        Ok(ea1) => {
                            match spec_pumpfun_events(b, l) {
                                Err(e) => {},
                                Ok(eb) => {
                                    assert(seq![ev] + (ea1 + eb) =~= (seq![ev] + ea1) + eb);
                                },
                            }
                        },
                    }
                },
            }
        }
    }
}

/// One unfolding step of the run over a tree: the root contributes its
/// event, if any, then the children run.
pub proof fn lemma_pumpfun_events_unfold(i: Instruction, l: Seq<TokenAccountView>)
    ensures
        ({
            let children = spec_pumpfun_events(flatten_list(i.inner_instructions@), l);
            &&& i.program_id@ == PUMPFUN_PROGRAM_ID@ ==> spec_pumpfun_events(flatten_one(i), l)
                == (match spec_parse_pumpfun_instruction(i, l) {
                Err(e) => Err::<Seq<EventView>, ParseError>(e),
                Ok(None) => children,
                Ok(Some(ev)) => match children {
                    Err(e) => Err(e),
                    Ok(rest) => Ok(seq![ev] + rest),
                },
            })
            &&& i.program_id@ != PUMPFUN_PROGRAM_ID@ ==> spec_pumpfun_events(flatten_one(i), l)
                == children
        }),
{
    let s = flatten_one(i);
    assert(s[0] == i);
    assert(s.drop_first() =~= flatten_list(i.inner_instructions@));
    assert(s.len() >= 1);
}

/// Visits one instruction and then its children in execution order,
/// collecting each bonding-curve event.
fn process_instruction_tree(
    instruction: &Instruction,
    context: &TransactionContext,
    events: &mut Vec<Event>,
) -> (r: Result<(), ParseError>)
    ensures
        match r {
            Ok(()) => spec_pumpfun_events(flatten_one(*instruction), context@.accounts)
                matches Ok(es) && pumpfun_events_view(final(events)@) == pumpfun_events_view(
                old(events)@) + es,
            Err(e) => spec_pumpfun_events(flatten_one(*instruction), context@.accounts)
                == Err::<Seq<EventView>, ParseError>(e),
        },
    decreases *instruction,
{
    let ghost l = context@.accounts;
    proof {
        lemma_pumpfun_events_unfold(*instruction, l);
    }
    let ghost base = pumpfun_events_view(events@);
    let ghost head: Seq<EventView> = Seq::empty();
    let is_pumpfun = crate::bytes::bytes_eq32(&instruction.program_id, &PUMPFUN_PROGRAM_ID);
    if is_pumpfun {
        match parse_instruction(instruction, context) {
            Ok(Some(event)) => {
                let ghost entry = event@;
                let ghost pre = events@;
                events.push(event);
                proof {
                    head = seq![entry];
                    lemma_pumpfun_events_view(pre);
                    lemma_pumpfun_events_view(events@);
                    assert(pumpfun_events_view(events@) =~= base + head);
                }
            },
            Ok(None) => {
                proof {
                    assert(pumpfun_events_view(events@) =~= base + head);
                }
            },
            Err(e) => {
                return Err(e);
            },
        }
    } else {
        proof {
            assert(pumpfun_events_view(events@) =~= base + head);
        }
    }
    let ghost mid = pumpfun_events_view(events@);
    let ghost contributed: bool = is_pumpfun && (spec_parse_pumpfun_instruction(*instruction, l)
        matches Ok(o) && o is Some);
    let n = instruction.inner_instructions.len();
    let mut j: usize = 0;
    proof {
        assert(instruction.inner_instructions@.take(0) =~= Seq::<Instruction>::empty());
        assert(flatten_list(Seq::<Instruction>::empty()) =~= Seq::<Instruction>::empty());
        assert(spec_pumpfun_events(Seq::<Instruction>::empty(), l) == Ok::<Seq<EventView>,
            ParseError>(Seq::empty()));
        assert(mid + Seq::<EventView>::empty() =~= mid);
    }
    while j < n
        invariant
            n == instruction.inner_instructions@.len(),
            j <= n,
            l == context@.accounts,
            mid == pumpfun_events_view(old(events)@) + head,
            is_pumpfun == (instruction.program_id@ == PUMPFUN_PROGRAM_ID@),
            is_pumpfun ==> (spec_parse_pumpfun_instruction(*instruction, l) matches Ok(o) && head
                == (match o {
                Some(ev) => seq![ev],
                None => Seq::<EventView>::empty(),
            })),
            spec_pumpfun_events(flatten_list(instruction.inner_instructions@.take(j as int)), l)
                matches Ok(es) && pumpfun_events_view(events@) == mid + es,
        decreases n - j,
    {
        let ghost taken = instruction.inner_instructions@.take(j as int);
        let ghost child = instruction.inner_instructions@[j as int];
        match process_instruction_tree(&instruction.inner_instructions[j], context, events) {
            Ok(()) => {
                proof {
                    let next = instruction.inner_instructions@.take(j as int + 1);
                    assert(next =~= taken + seq![child]);
                    lemma_flatten_concat(taken, seq![child]);
                    lemma_flatten_singleton(child);
                    lemma_pumpfun_run_concat(flatten_list(taken), flatten_one(child), l);
                    let es_prev = spec_pumpfun_events(flatten_list(taken), l)->Ok_0;
                    let es_child = spec_pumpfun_events(flatten_one(child), l)->Ok_0;
                    assert(pumpfun_events_view(events@) =~= mid + (es_prev + es_child));
                }
            },
            Err(e) => {
                proof {
                    let next = instruction.inner_instructions@.take(j as int + 1);
                    assert(next =~= taken + seq![child]);
                    lemma_flatten_concat(taken, seq![child]);
                    lemma_flatten_singleton(child);
                    lemma_pumpfun_run_concat(flatten_list(taken), flatten_one(child), l);
                    let whole = instruction.inner_instructions@;
                    assert(whole =~= next + whole.skip(j as int + 1));
                    lemma_flatten_concat(next, whole.skip(j as int + 1));
                    lemma_pumpfun_run_concat(flatten_list(next), flatten_list(whole.skip(
                        j as int + 1)), l);
                    lemma_pumpfun_events_unfold(*instruction, l);
                }
                return Err(e);
            },
        }
        j = j + 1;
    }
    proof {
        assert(instruction.inner_instructions@.take(n as int)
            =~= instruction.inner_instructions@);
        lemma_pumpfun_events_unfold(*instruction, l);
    }
    Ok(())
}

/// The bonding-curve events of one transaction, or the error that aborted
/// it, joined with its signature.
pub open spec fn spec_parse_transaction(tx: Transaction) -> Result<Seq<EventView>,
    TransactionErrorView> {
    if tx.failed {
        Ok(Seq::empty())
    } else {
        match spec_pumpfun_events(flatten_list(tx.instructions@), accounts_view(
            tx.token_balances@)) {
            Ok(es) => Ok(es),
            Err(cause) => Err(TransactionErrorView { signature: tx.signature@, cause }),
        }
    }
}

/// Decodes one transaction's bonding-curve events. A transaction the chain
/// itself marked failed yields no events and no error; otherwise every
/// instruction is visited in flattened execution order and the first fatal
/// error aborts the transaction, carrying its signature.
pub fn parse_transaction(transaction: &Transaction) -> (r: Result<Vec<Event>, TransactionError>)
    ensures
        transaction.failed ==> (r matches Ok(v) && v@.len() == 0),
        match r {
            Ok(v) => spec_parse_transaction(*transaction) == Ok::<Seq<EventView>,
                TransactionErrorView>(pumpfun_events_view(v@)),
            Err(e) => spec_parse_transaction(*transaction) == Err::<Seq<EventView>,
                TransactionErrorView>(e@),
        },
{
    let mut events: Vec<Event> = Vec::new();
    if transaction.failed {
        proof {
            lemma_pumpfun_events_view(events@);
            assert(pumpfun_events_view(events@) =~= Seq::<EventView>::empty());
        }
        return Ok(events);
    }
    let context = get_context(transaction);
    let ghost l = context@.accounts;
    let n = transaction.instructions.len();
    let mut i: usize = 0;
    proof {
        assert(transaction.instructions@.take(0) =~= Seq::<Instruction>::empty());
        assert(flatten_list(Seq::<Instruction>::empty()) =~= Seq::<Instruction>::empty());
        assert(spec_pumpfun_events(Seq::<Instruction>::empty(), l) == Ok::<Seq<EventView>,
            ParseError>(Seq::empty()));
        lemma_pumpfun_events_view(events@);
        assert(pumpfun_events_view(events@) =~= Seq::<EventView>::empty());
    }
    while i < n
        invariant
            n == transaction.instructions@.len(),
            i <= n,
            !transaction.failed,
            l == context@.accounts,
            l == accounts_view(transaction.token_balances@),
            spec_pumpfun_events(flatten_list(transaction.instructions@.take(i as int)), l)
                matches Ok(es) && pumpfun_events_view(events@) == es,
        decreases n - i,
    {
        let ghost taken = transaction.instructions@.take(i as int);
        let ghost root = transaction.instructions@[i as int];
        match process_instruction_tree(&transaction.instructions[i], &context, &mut events) {
            Ok(()) => {
                proof {
                    let next = transaction.instructions@.take(i as int + 1);
                    assert(next =~= taken + seq![root]);
                    lemma_flatten_concat(taken, seq![root]);
                    lemma_flatten_singleton(root);
                    lemma_pumpfun_run_concat(flatten_list(taken), flatten_one(root), l);
                    let es_prev = spec_pumpfun_events(flatten_list(taken), l)->Ok_0;
                    let es_root = spec_pumpfun_events(flatten_one(root), l)->Ok_0;
                    assert(pumpfun_events_view(events@) =~= es_prev + es_root);
                }
            },
            Err(e) => {
                proof {
                    let next = transaction.instructions@.take(i as int + 1);
                    assert(next =~= taken + seq![root]);
                    lemma_flatten_concat(taken, seq![root]);
                    lemma_flatten_singleton(root);
                    lemma_pumpfun_run_concat(flatten_list(taken), flatten_one(root), l);
                    let whole = transaction.instructions@;
                    assert(whole =~= next + whole.skip(i as int + 1));
                    lemma_flatten_concat(next, whole.skip(i as int + 1));
                    lemma_pumpfun_run_concat(flatten_list(next), flatten_list(whole.skip(
                        i as int + 1)), l);
                }
                return Err(TransactionError {
                    signature: copy_bytes(&transaction.signature),
                    cause: e,
                });
            },
        }
        i = i + 1;
    }
    proof {
        assert(transaction.instructions@.take(n as int) =~= transaction.instructions@);
    }
    Ok(events)
}

/// Mathematical image of a list of per-transaction event groups.
pub open spec fn transactions_view(s: Seq<PumpfunTransactionEvents>) -> Seq<
    PumpfunTransactionEventsView> {
    s.map_values(|t: PumpfunTransactionEvents| t@)
}

/// `transactions_view` is pointwise: same length, each group viewed in
/// place.
pub proof fn lemma_transactions_view(s: Seq<PumpfunTransactionEvents>)
    ensures
        transactions_view(s).len() == s.len(),
        forall|k: int| 0 <= k < s.len() ==> transactions_view(s)[k] == s[k]@,
{
}

/// The per-transaction event groups of a block, in order, keeping only
/// transactions that produced at least one event; the first failing
/// transaction aborts the block.
pub open spec fn spec_parse_block(txs: Seq<Transaction>) -> Result<Seq<
    PumpfunTransactionEventsView>, TransactionErrorView>
    decreases txs.len(),
{
    if txs.len() == 0 {
        Ok(Seq::empty())
    } else {
        match spec_parse_block(txs.drop_last()) {
            Err(e) => Err(e),
            Ok(groups) => match spec_parse_transaction(txs.last()) {
                Err(e) => Err(e),
                Ok(es) => if es.len() == 0 {
                    Ok(groups)
                } else {
                    Ok(groups.push(PumpfunTransactionEventsView {
                        signature: txs.last().signature@,
                        events: es,
                    }))
                },
            },
        }
    }
}

/// Decodes every transaction of a block in order, collecting the events of
/// each transaction that produced any, with the signature attached.
pub fn parse_block(block: &Block) -> (r: Result<Vec<PumpfunTransactionEvents>, TransactionError>)
    ensures
        match r {
            Ok(v) => spec_parse_block(block.transactions@) == Ok::<Seq<
                PumpfunTransactionEventsView>, TransactionErrorView>(transactions_view(v@)),
            Err(e) => spec_parse_block(block.transactions@) == Err::<Seq<
                PumpfunTransactionEventsView>, TransactionErrorView>(e@),
        },
{
    let mut block_events: Vec<PumpfunTransactionEvents> = Vec::new();
    let n = block.transactions.len();
    let mut i: usize = 0;
    proof {
        assert(block.transactions@.take(0) =~= Seq::<Transaction>::empty());
        lemma_transactions_view(block_events@);
        assert(transactions_view(block_events@) =~= Seq::<PumpfunTransactionEventsView>::empty());
    }
    while i < n
        invariant
            n == block.transactions@.len(),
            i <= n,
            spec_parse_block(block.transactions@.take(i as int)) matches Ok(gs)
                && transactions_view(block_events@) == gs,
        decreases n - i,
    {
        let ghost taken = block.transactions@.take(i as int);
        let transaction = &block.transactions[i];
        let events = match parse_transaction(transaction) {
            Ok(events) => events,
            Err(e) => {
                proof {
                    let whole = block.transactions@;
                    assert(whole.take(i as int + 1).drop_last() =~= taken);
                    assert(whole.take(i as int + 1).last() == whole[i as int]);
                    assert(spec_parse_block(whole.take(i as int + 1)) == Err::<Seq<
                        PumpfunTransactionEventsView>, TransactionErrorView>(e@));
                    lemma_parse_block_prefix_error(whole, i as int + 1, e@);
                }
                return Err(e);
            },
        };
        if events.len() > 0 {
            let ghost pre = block_events@;
            block_events.push(PumpfunTransactionEvents {
                signature: copy_bytes(&transaction.signature),
                events,
            });
            proof {
                lemma_transactions_view(pre);
                lemma_transactions_view(block_events@);
                let whole = block.transactions@;
                assert(whole.take(i as int + 1).drop_last() =~= taken);
                assert(whole.take(i as int + 1).last() == whole[i as int]);
                let gs = spec_parse_block(taken)->Ok_0;
                let es = spec_parse_transaction(whole[i as int])->Ok_0;
                assert(transactions_view(block_events@) =~= gs.push(
                    PumpfunTransactionEventsView { signature: whole[i as int].signature@,
                    events: es }));
            }
        } else {
            proof {
                let whole = block.transactions@;
                assert(whole.take(i as int + 1).drop_last() =~= taken);
                assert(whole.take(i as int + 1).last() == whole[i as int]);
            }
        }
        i = i + 1;
    }
    proof {
        assert(block.transactions@.take(n as int) =~= block.transactions@);
    }
    Ok(block_events)
}

/// When a prefix of the block already fails, the whole block fails with the
/// same error.
pub proof fn lemma_parse_block_prefix_error(txs: Seq<Transaction>, k: int, e: TransactionErrorView)
    requires
        0 <= k <= txs.len(),
        spec_parse_block(txs.take(k)) == Err::<Seq<PumpfunTransactionEventsView>,
            TransactionErrorView>(e),
    ensures
        spec_parse_block(txs) == Err::<Seq<PumpfunTransactionEventsView>, TransactionErrorView>(
            e,
        ),
    decreases txs.len() - k,
{
    if k == txs.len() {
        assert(txs.take(k) =~= txs);
    } else {
        assert(txs.take(k + 1).drop_last() =~= txs.take(k));
        lemma_parse_block_prefix_error(txs, k + 1, e);
    }
}


/// Decodes a whole block into its event groups.
pub fn pumpfun_events(block: &Block) -> (r: Result<PumpfunBlockEvents, TransactionError>)
    ensures
        match r {
            Ok(b) => spec_parse_block(block.transactions@) == Ok::<Seq<
                PumpfunTransactionEventsView>, TransactionErrorView>(transactions_view(
                b.transactions@)),
            Err(e) => spec_parse_block(block.transactions@) == Err::<Seq<
                PumpfunTransactionEventsView>, TransactionErrorView>(e@),
        },
{
    match parse_block(block) {
        Ok(transactions) => Ok(PumpfunBlockEvents { transactions }),
        Err(e) => Err(e),
    }
}

} // verus!
