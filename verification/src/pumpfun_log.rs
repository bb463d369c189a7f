//! Extractor for the runtime-emitted structured log records of the
//! bonding-curve program. Only the trade record carries the economic fields
//! the synthesizer consumes.

use vstd::prelude::*;
use crate::bytes::{le64, read_bytes, read_u64_le};
use crate::errors::LogError;
use crate::model::{Instruction, Log};

verus! {

/// Discriminant of the trade record.
pub const TRADE_LOG_DISCRIMINANT: [u8; 8] = [189, 219, 127, 211, 78, 230, 97, 238];

/// Discriminant of the create record.
pub const CREATE_LOG_DISCRIMINANT: [u8; 8] = [27, 114, 169, 77, 222, 235, 99, 118];

/// Discriminant of the complete record.
pub const COMPLETE_LOG_DISCRIMINANT: [u8; 8] = [95, 114, 97, 156, 212, 46, 152, 8];

/// Discriminant of the set-params record.
pub const SET_PARAMS_LOG_DISCRIMINANT: [u8; 8] = [223, 195, 159, 246, 62, 48, 143, 131];

/// The trade record's economic fields. The eight-byte timestamp field of the
/// on-chain layout sits between `user` and the reserve levels and is not
/// surfaced.
#[derive(Clone, Debug, PartialEq, Eq)]
pub struct TradeLog {
    pub mint: Vec<u8>,
    pub sol_amount: u64,
    pub token_amount: u64,
    pub is_buy: bool,
    pub user: Vec<u8>,
    pub virtual_sol_reserves: u64,
    pub virtual_token_reserves: u64,
    pub real_sol_reserves: u64,
    pub real_token_reserves: u64,
}

/// Mathematical image of a `TradeLog`.
pub struct TradeLogView {
    pub mint: Seq<u8>,
    pub sol_amount: u64,
    pub token_amount: u64,
    pub is_buy: bool,
    pub user: Seq<u8>,
    pub virtual_sol_reserves: u64,
    pub virtual_token_reserves: u64,
    pub real_sol_reserves: u64,
    pub real_token_reserves: u64,
}

impl View for TradeLog {
    type V = TradeLogView;

    open spec fn view(&self) -> TradeLogView {
        TradeLogView {
            mint: self.mint@,
            sol_amount: self.sol_amount,
            token_amount: self.token_amount,
            is_buy: self.is_buy,
            user: self.user@,
            virtual_sol_reserves: self.virtual_sol_reserves,
            virtual_token_reserves: self.virtual_token_reserves,
            real_sol_reserves: self.real_sol_reserves,
            real_token_reserves: self.real_token_reserves,
        }
    }
}

/// The closed set of structured log records. Non-trade records carry no
/// fields that any event consumes.
#[derive(Clone, Debug, PartialEq, Eq)]
pub enum PumpfunLog {
    Trade(TradeLog),
    Create,
    Complete,
    SetParams,
}

/// Mathematical image of a `PumpfunLog`.
pub enum PumpfunLogView {
    Trade(TradeLogView),
    Create,
    Complete,
    SetParams,
}

impl View for PumpfunLog {
    type V = PumpfunLogView;

    open spec fn view(&self) -> PumpfunLogView {
        match self {
            PumpfunLog::Trade(t) => PumpfunLogView::Trade(t@),
            PumpfunLog::Create => PumpfunLogView::Create,
            PumpfunLog::Complete => PumpfunLogView::Complete,
            PumpfunLog::SetParams => PumpfunLogView::SetParams,
        }
    }
}

/// What a structured log payload decodes to: the whole decode contract of
/// `PumpfunLog::unpack`. A trade record is 8 bytes of discriminant, the
/// mint, three numeric fields, a flag, the user, the unused timestamp, and
/// the four reserve levels.
#[verifier::opaque]
pub open spec fn spec_unpack_log(data: Seq<u8>) -> Result<PumpfunLogView, LogError> {
    if data.len() < 8 {
        Err(LogError::TruncatedLogPayload)
    } else {
        let d = data.subrange(0, 8);
        if d == TRADE_LOG_DISCRIMINANT@ {
            if data.len() >= 129 {
                Ok(PumpfunLogView::Trade(TradeLogView {
                    mint: data.subrange(8, 40),
                    sol_amount: le64(data.subrange(40, 48)) as u64,
                    token_amount: le64(data.subrange(48, 56)) as u64,
                    is_buy: data[56] != 0,
                    user: data.subrange(57, 89),
                    virtual_sol_reserves: le64(data.subrange(97, 105)) as u64,
                    virtual_token_reserves: le64(data.subrange(105, 113)) as u64,
                    real_sol_reserves: le64(data.subrange(113, 121)) as u64,
                    real_token_reserves: le64(data.subrange(121, 129)) as u64,
                }))
            } else {
                Err(LogError::TruncatedLogPayload)
            }
        } else if d == CREATE_LOG_DISCRIMINANT@ {
            Ok(PumpfunLogView::Create)
        } else if d == COMPLETE_LOG_DISCRIMINANT@ {
            Ok(PumpfunLogView::Complete)
        } else if d == SET_PARAMS_LOG_DISCRIMINANT@ {
            Ok(PumpfunLogView::SetParams)
        } else {
            Err(LogError::UnknownRecord)
        }
    }
}

impl PumpfunLog {
    /// Decodes a structured log payload into its record variant.
    pub fn unpack(data: &Vec<u8>) -> (r: Result<PumpfunLog, LogError>)
        ensures
            match r {
                Ok(t) => spec_unpack_log(data@) == Ok::<PumpfunLogView, LogError>(t@),
                Err(e) => spec_unpack_log(data@) == Err::<PumpfunLogView, LogError>(e),
            },
    {
        proof {
            reveal(spec_unpack_log);
        }
        let n = data.len();
        if n < 8 {
            return Err(LogError::TruncatedLogPayload);
        }
        if crate::pumpfun_instruction::has_discriminant(data, &TRADE_LOG_DISCRIMINANT) {
            if n >= 129 {
                Ok(PumpfunLog::Trade(TradeLog {
                    mint: read_bytes(data, 8, 32),
                    sol_amount: read_u64_le(data, 40),
                    token_amount: read_u64_le(data, 48),
                    is_buy: data[56] != 0,
                    user: read_bytes(data, 57, 32),
                    virtual_sol_reserves: read_u64_le(data, 97),
                    virtual_token_reserves: read_u64_le(data, 105),
                    real_sol_reserves: read_u64_le(data, 113),
                    real_token_reserves: read_u64_le(data, 121),
                }))
            } else {
                Err(LogError::TruncatedLogPayload)
            }
        } else if crate::pumpfun_instruction::has_discriminant(data, &CREATE_LOG_DISCRIMINANT) {
            Ok(PumpfunLog::Create)
        } else if crate::pumpfun_instruction::has_discriminant(data, &COMPLETE_LOG_DISCRIMINANT) {
            Ok(PumpfunLog::Complete)
        } else if crate::pumpfun_instruction::has_discriminant(data,
            &SET_PARAMS_LOG_DISCRIMINANT) {
            Ok(PumpfunLog::SetParams)
        } else {
            Err(LogError::UnknownRecord)
        }
    }
}

/// Payload of the first structured data line, scanning in order.
pub open spec fn spec_first_data_log(logs: Seq<Log>) -> Option<Seq<u8>>
    decreases logs.len(),
{
    if logs.len() == 0 {
        None
    } else {
        match logs[0] {
            Log::Data(d) => Some(d@),
            Log::Message(_) => spec_first_data_log(logs.drop_first()),
        }
    }
}

/// What scanning an instruction's log lines yields: the decoded record of
/// the first data line; `NoDataLog` when every line is free text; and
/// `LogTruncated` when the upstream capture itself reports truncation, which
/// signals an unreliable rather than merely missing source.
pub open spec fn spec_parse_pumpfun_log(i: Instruction) -> Result<PumpfunLogView, LogError> {
    match i.logs {
        None => Err(LogError::LogTruncated),
        Some(logs) => match spec_first_data_log(logs@) {
            None => Err(LogError::NoDataLog),
            Some(d) => spec_unpack_log(d),
        },
    }
}

/// Scans the instruction's log lines for its first structured record.
pub fn parse_pumpfun_log(instruction: &Instruction) -> (r: Result<PumpfunLog, LogError>)
    ensures
        match r {
            Ok(t) => spec_parse_pumpfun_log(*instruction) == Ok::<PumpfunLogView, LogError>(t@),
            Err(e) => spec_parse_pumpfun_log(*instruction) == Err::<PumpfunLogView, LogError>(e),
        },
{
    let logs = match &instruction.logs {
        None => {
            return Err(LogError::LogTruncated);
        },
        Some(logs) => logs,
    };
    let ghost lv = logs@;
    proof {
        assert(lv.skip(0) =~= lv);
    }
    let n = logs.len();
    let mut i: usize = 0;
    while i < n
        invariant
            n == logs@.len(),
            lv == logs@,
            instruction.logs matches Some(l) && l@ == lv,
            i <= n,
            spec_first_data_log(lv) == spec_first_data_log(lv.skip(i as int)),
        decreases n - i,
    {
        proof {
            assert(lv.skip(i as int)[0] == lv[i as int]);
            assert(lv.skip(i as int).drop_first() =~= lv.skip(i as int + 1));
        }
        match &logs[i] {
            Log::Data(d) => {
                proof {
                    assert(spec_first_data_log(lv.skip(i as int)) == Some(d@));
                }
                return PumpfunLog::unpack(d);
            },
            Log::Message(_) => {},
        }
        i = i + 1;
    }
    proof {
        assert(lv.skip(n as int) =~= Seq::<Log>::empty());
    }
    Err(LogError::NoDataLog)
}

} // verus!
