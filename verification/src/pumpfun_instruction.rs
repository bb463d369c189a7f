//! Binary decoder for the bonding-curve exchange program: an eight-byte
//! discriminant followed by the variant's fields. Numeric fields are
//! little-endian; strings are length-prefixed by a four-byte count.

use vstd::prelude::*;
use crate::bytes::{le32, le64, read_bytes, read_u32_le, read_u64_le};
use crate::errors::ParseError;

verus! {

/// Discriminant of the initialize instruction.
pub const INITIALIZE_DISCRIMINANT: [u8; 8] = [175, 175, 109, 31, 13, 152, 155, 237];

/// Discriminant of the set-params instruction.
pub const SET_PARAMS_DISCRIMINANT: [u8; 8] = [27, 234, 178, 52, 147, 2, 187, 141];

/// Discriminant of the create instruction.
pub const CREATE_DISCRIMINANT: [u8; 8] = [24, 30, 200, 40, 5, 28, 7, 119];

/// Discriminant of the buy instruction.
pub const BUY_DISCRIMINANT: [u8; 8] = [102, 6, 61, 18, 1, 218, 235, 234];

/// Discriminant of the sell instruction.
pub const SELL_DISCRIMINANT: [u8; 8] = [51, 230, 133, 164, 1, 127, 131, 173];

/// Discriminant of the withdraw instruction.
pub const WITHDRAW_DISCRIMINANT: [u8; 8] = [183, 18, 70, 156, 148, 109, 161, 34];

#[derive(Clone, Debug, PartialEq, Eq)]
pub struct SetParamsInstruction {
    pub fee_recipient: Vec<u8>,
    pub initial_virtual_token_reserves: u64,
    pub initial_virtual_sol_reserves: u64,
    pub initial_real_token_reserves: u64,
    pub token_total_supply: u64,
    pub fee_basis_points: u64,
}

#[derive(Clone, Debug, PartialEq, Eq)]
pub struct CreateInstruction {
    pub name: Vec<u8>,
    pub symbol: Vec<u8>,
    pub uri: Vec<u8>,
}

#[derive(Clone, Debug, PartialEq, Eq)]
pub struct BuyInstruction {
    pub amount: u64,
    pub max_sol_cost: u64,
}

#[derive(Clone, Debug, PartialEq, Eq)]
pub struct SellInstruction {
    pub amount: u64,
    pub min_sol_output: u64,
}

/// The closed set of bonding-curve operations, with their decoded fields.
#[derive(Clone, Debug, PartialEq, Eq)]
pub enum PumpfunInstruction {
    Initialize,
    SetParams(SetParamsInstruction),
    Create(CreateInstruction),
    Buy(BuyInstruction),
    Sell(SellInstruction),
    Withdraw,
}

pub struct SetParamsInstructionView {
    pub fee_recipient: Seq<u8>,
    pub initial_virtual_token_reserves: u64,
    pub initial_virtual_sol_reserves: u64,
    pub initial_real_token_reserves: u64,
    pub token_total_supply: u64,
    pub fee_basis_points: u64,
}

pub struct CreateInstructionView {
    pub name: Seq<u8>,
    pub symbol: Seq<u8>,
    pub uri: Seq<u8>,
}

/// Mathematical image of a `PumpfunInstruction`.
pub enum PumpfunInstructionView {
    Initialize,
    SetParams(SetParamsInstructionView),
    Create(CreateInstructionView),
    Buy(BuyInstruction),
    Sell(SellInstruction),
    Withdraw,
}

impl View for SetParamsInstruction {
    type V = SetParamsInstructionView;

    open spec fn view(&self) -> SetParamsInstructionView {
        SetParamsInstructionView {
            fee_recipient: self.fee_recipient@,
            initial_virtual_token_reserves: self.initial_virtual_token_reserves,
            initial_virtual_sol_reserves: self.initial_virtual_sol_reserves,
            initial_real_token_reserves: self.initial_real_token_reserves,
            token_total_supply: self.token_total_supply,
            fee_basis_points: self.fee_basis_points,
        }
    }
}

impl View for CreateInstruction {
    type V = CreateInstructionView;

    open spec fn view(&self) -> CreateInstructionView {
        CreateInstructionView { name: self.name@, symbol: self.symbol@, uri: self.uri@ }
    }
}

impl View for PumpfunInstruction {
    type V = PumpfunInstructionView;

    open spec fn view(&self) -> PumpfunInstructionView {
        match self {
            PumpfunInstruction::Initialize => PumpfunInstructionView::Initialize,
            PumpfunInstruction::SetParams(p) => PumpfunInstructionView::SetParams(p@),
            PumpfunInstruction::Create(c) => PumpfunInstructionView::Create(c@),
            PumpfunInstruction::Buy(b) => PumpfunInstructionView::Buy(*b),
            PumpfunInstruction::Sell(s) => PumpfunInstructionView::Sell(*s),
            PumpfunInstruction::Withdraw => PumpfunInstructionView::Withdraw,
        }
    }
}

/// A length-prefixed byte string at `off`: a four-byte little-endian count,
/// then that many bytes. Returns the string and the offset just past it.
pub open spec fn spec_read_lp_bytes(data: Seq<u8>, off: int) -> Result<(Seq<u8>, int),
    ParseError> {
    if off + 4 <= data.len() {
        let n = le32(data.subrange(off, off + 4));
        if off + 4 + n <= data.len() {
            Ok((data.subrange(off + 4, off + 4 + n), off + 4 + n))
        } else {
            Err(ParseError::TruncatedPayload)
        }
    } else {
        Err(ParseError::TruncatedPayload)
    }
}

/// Reads a length-prefixed byte string at `off`.
pub fn read_lp_bytes(data: &Vec<u8>, off: usize) -> (r: Result<(Vec<u8>, usize), ParseError>)
    ensures
        match r {
            Ok(p) => spec_read_lp_bytes(data@, off as int) == Ok::<(Seq<u8>, int), ParseError>(
                (p.0@, p.1 as int),
            ),
            Err(e) => spec_read_lp_bytes(data@, off as int) == Err::<(Seq<u8>, int), ParseError>(
                e,
            ),
        },
{
    let dlen = data.len();
    if dlen < 4 || off > dlen - 4 {
        return Err(ParseError::TruncatedPayload);
    }
    let count = read_u32_le(data, off);
    proof {
        let s = data@.subrange(off as int, off as int + 4);
        assert(le32(s) < 0x1_0000_0000) by {
            assert(s[0] < 256 && s[1] < 256 && s[2] < 256 && s[3] < 256);
        }
    }
    let n = count as usize;
    let rem = dlen - off - 4;
    if n > rem {
        return Err(ParseError::TruncatedPayload);
    }
    let b = read_bytes(data, off + 4, n);
    Ok((b, off + 4 + n))
}

/// True when the payload's first eight bytes equal `d`.
pub fn has_discriminant(data: &Vec<u8>, d: &[u8; 8]) -> (r: bool)
    requires
        data@.len() >= 8,
    ensures
        r == (data@.subrange(0, 8) == d@),
{
    let mut i: usize = 0;
    while i < 8
        invariant
            data@.len() >= 8,
            i <= 8,
            forall|j: int| 0 <= j < i ==> data@[j] == d@[j],
        decreases 8 - i,
    {
        if data[i] != d[i] {
            proof {
                assert(data@.subrange(0, 8) != d@) by {
                    assert(data@.subrange(0, 8)[i as int] != d@[i as int]);
                }
            }
            return false;
        }
        i = i + 1;
    }
    proof {
        assert(data@.subrange(0, 8) =~= d@);
    }
    true
}

/// What a bonding-curve payload decodes to: the whole decode contract of
/// `PumpfunInstruction::unpack`.
#[verifier::opaque]
pub open spec fn spec_unpack_pumpfun(data: Seq<u8>) -> Result<PumpfunInstructionView,
    ParseError> {
    if data.len() < 8 {
        Err(ParseError::TruncatedPayload)
    } else {
        let d = data.subrange(0, 8);
        if d == INITIALIZE_DISCRIMINANT@ {
            Ok(PumpfunInstructionView::Initialize)
        } else if d == SET_PARAMS_DISCRIMINANT@ {
            if data.len() >= 80 {
                Ok(PumpfunInstructionView::SetParams(SetParamsInstructionView {
                    fee_recipient: data.subrange(8, 40),
                    initial_virtual_token_reserves: le64(data.subrange(40, 48)) as u64,
                    initial_virtual_sol_reserves: le64(data.subrange(48, 56)) as u64,
                    initial_real_token_reserves: le64(data.subrange(56, 64)) as u64,
                    token_total_supply: le64(data.subrange(64, 72)) as u64,
                    fee_basis_points: le64(data.subrange(72, 80)) as u64,
                }))
            } else {
                Err(ParseError::TruncatedPayload)
            }
        } else if d == CREATE_DISCRIMINANT@ {
            match spec_read_lp_bytes(data, 8) {
                Ok((name, o1)) => match spec_read_lp_bytes(data, o1) {
                    Ok((symbol, o2)) => match spec_read_lp_bytes(data, o2) {
                        Ok((uri, _)) => Ok(PumpfunInstructionView::Create(CreateInstructionView {
                            name,
                            symbol,
                            uri,
                        })),
                        Err(e) => Err(e),
                    },
                    Err(e) => Err(e),
                },
                Err(e) => Err(e),
            }
        } else if d == BUY_DISCRIMINANT@ {
            if data.len() >= 24 {
                Ok(PumpfunInstructionView::Buy(BuyInstruction {
                    amount: le64(data.subrange(8, 16)) as u64,
                    max_sol_cost: le64(data.subrange(16, 24)) as u64,
                }))
            } else {
                Err(ParseError::TruncatedPayload)
            }
        } else if d == SELL_DISCRIMINANT@ {
            if data.len() >= 24 {
                Ok(PumpfunInstructionView::Sell(SellInstruction {
                    amount: le64(data.subrange(8, 16)) as u64,
                    min_sol_output: le64(data.subrange(16, 24)) as u64,
                }))
            } else {
                Err(ParseError::TruncatedPayload)
            }
        } else if d == WITHDRAW_DISCRIMINANT@ {
            Ok(PumpfunInstructionView::Withdraw)
        } else {
            Err(ParseError::UnknownDiscriminant)
        }
    }
}

impl PumpfunInstruction {
    /// Decodes a bonding-curve payload into its instruction variant.
    pub fn unpack(data: &Vec<u8>) -> (r: Result<PumpfunInstruction, ParseError>)
        ensures
            match r {
                Ok(t) => spec_unpack_pumpfun(data@) == Ok::<PumpfunInstructionView, ParseError>(
                    t@,
                ),
                Err(e) => spec_unpack_pumpfun(data@) == Err::<PumpfunInstructionView, ParseError>(
                    e,
                ),
            },
    {
        proof {
            reveal(spec_unpack_pumpfun);
        }
        let n = data.len();
        if n < 8 {
            return Err(ParseError::TruncatedPayload);
        }
        if has_discriminant(data, &INITIALIZE_DISCRIMINANT) {
            Ok(PumpfunInstruction::Initialize)
        } else if has_discriminant(data, &SET_PARAMS_DISCRIMINANT) {
            if n >= 80 {
                Ok(PumpfunInstruction::SetParams(SetParamsInstruction {
                    fee_recipient: read_bytes(data, 8, 32),
                    initial_virtual_token_reserves: read_u64_le(data, 40),
                    initial_virtual_sol_reserves: read_u64_le(data, 48),
                    initial_real_token_reserves: read_u64_le(data, 56),
                    token_total_supply: read_u64_le(data, 64),
                    fee_basis_points: read_u64_le(data, 72),
                }))
            } else {
                Err(ParseError::TruncatedPayload)
            }
        } else if has_discriminant(data, &CREATE_DISCRIMINANT) {
            let (name, o1) = match read_lp_bytes(data, 8) {
                Ok(p) => p,
                Err(e) => {
                    return Err(e);
                },
            };
            let (symbol, o2) = match read_lp_bytes(data, o1) {
                Ok(p) => p,
                Err(e) => {
                    return Err(e);
                },
            };
            let (uri, _o3) = match read_lp_bytes(data, o2) {
                Ok(p) => p,
                Err(e) => {
                    return Err(e);
                },
            };
            Ok(PumpfunInstruction::Create(CreateInstruction { name, symbol, uri }))
        } else if has_discriminant(data, &BUY_DISCRIMINANT) {
            if n >= 24 {
                Ok(PumpfunInstruction::Buy(BuyInstruction {
                    amount: read_u64_le(data, 8),
                    max_sol_cost: read_u64_le(data, 16),
                }))
            } else {
                Err(ParseError::TruncatedPayload)
            }
        } else if has_discriminant(data, &SELL_DISCRIMINANT) {
            if n >= 24 {
                Ok(PumpfunInstruction::Sell(SellInstruction {
                    amount: read_u64_le(data, 8),
                    min_sol_output: read_u64_le(data, 16),
                }))
            } else {
                Err(ParseError::TruncatedPayload)
            }
        } else if has_discriminant(data, &WITHDRAW_DISCRIMINANT) {
            Ok(PumpfunInstruction::Withdraw)
        } else {
            Err(ParseError::UnknownDiscriminant)
        }
    }
}

} // verus!
