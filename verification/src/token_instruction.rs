//! Binary decoder for the token-standard program: a one-byte discriminant
//! followed by the variant's fixed-layout fields. Numeric fields are
//! little-endian; an optional key is a one-byte tag followed by 32 bytes.

use vstd::prelude::*;
use crate::bytes::{le64, opt_bytes_view, read_bytes, read_u64_le};
use crate::errors::ParseError;

verus! {

/// Which authority of a mint or account a `SetAuthority` instruction changes.
#[derive(Clone, Copy, Debug, PartialEq, Eq, Structural)]
pub enum AuthorityType {
    MintTokens,
    FreezeAccount,
    AccountOwner,
    CloseAccount,
}

/// The closed set of token-standard operations, with their decoded fields.
#[derive(Clone, Debug, PartialEq, Eq)]
pub enum TokenInstruction {
    InitializeMint { decimals: u8, mint_authority: Vec<u8>, freeze_authority: Option<Vec<u8>> },
    InitializeAccount,
    InitializeMultisig { m: u8 },
    Transfer { amount: u64 },
    Approve { amount: u64 },
    Revoke,
    SetAuthority { authority_type: AuthorityType, new_authority: Option<Vec<u8>> },
    MintTo { amount: u64 },
    Burn { amount: u64 },
    CloseAccount,
    FreezeAccount,
    ThawAccount,
    TransferChecked { amount: u64, decimals: u8 },
    ApproveChecked { amount: u64, decimals: u8 },
    MintToChecked { amount: u64, decimals: u8 },
    BurnChecked { amount: u64, decimals: u8 },
    InitializeAccount2 { owner: Vec<u8> },
    SyncNative,
    InitializeAccount3 { owner: Vec<u8> },
    InitializeMultisig2 { m: u8 },
    InitializeMint2 { decimals: u8, mint_authority: Vec<u8>, freeze_authority: Option<Vec<u8>> },
    GetAccountDataSize,
    InitializeImmutableOwner,
    AmountToUiAmount { amount: u64 },
    UiAmountToAmount { ui_amount: Vec<u8> },
}

/// Mathematical image of a `TokenInstruction`.
pub enum TokenInstructionView {
    InitializeMint { decimals: u8, mint_authority: Seq<u8>, freeze_authority: Option<Seq<u8>> },
    InitializeAccount,
    InitializeMultisig { m: u8 },
    Transfer { amount: u64 },
    Approve { amount: u64 },
    Revoke,
    SetAuthority { authority_type: AuthorityType, new_authority: Option<Seq<u8>> },
    MintTo { amount: u64 },
    Burn { amount: u64 },
    CloseAccount,
    FreezeAccount,
    ThawAccount,
    TransferChecked { amount: u64, decimals: u8 },
    ApproveChecked { amount: u64, decimals: u8 },
    MintToChecked { amount: u64, decimals: u8 },
    BurnChecked { amount: u64, decimals: u8 },
    InitializeAccount2 { owner: Seq<u8> },
    SyncNative,
    InitializeAccount3 { owner: Seq<u8> },
    InitializeMultisig2 { m: u8 },
    InitializeMint2 { decimals: u8, mint_authority: Seq<u8>, freeze_authority: Option<Seq<u8>> },
    GetAccountDataSize,
    InitializeImmutableOwner,
    AmountToUiAmount { amount: u64 },
    UiAmountToAmount { ui_amount: Seq<u8> },
}

impl View for TokenInstruction {
    type V = TokenInstructionView;

    open spec fn view(&self) -> TokenInstructionView {
        match self {
            TokenInstruction::InitializeMint { decimals, mint_authority, freeze_authority } =>
                TokenInstructionView::InitializeMint {
                    decimals: *decimals,
                    mint_authority: mint_authority@,
                    freeze_authority: opt_bytes_view(*freeze_authority),
                },
            TokenInstruction::InitializeAccount => TokenInstructionView::InitializeAccount,
            TokenInstruction::InitializeMultisig { m } => TokenInstructionView::InitializeMultisig {
                m: *m,
            },
            TokenInstruction::Transfer { amount } => TokenInstructionView::Transfer {
                amount: *amount,
            },
            TokenInstruction::Approve { amount } => TokenInstructionView::Approve {
                amount: *amount,
            },
            TokenInstruction::Revoke => TokenInstructionView::Revoke,
            TokenInstruction::SetAuthority { authority_type, new_authority } =>
                TokenInstructionView::SetAuthority {
                    authority_type: *authority_type,
                    new_authority: opt_bytes_view(*new_authority),
                },
            TokenInstruction::MintTo { amount } => TokenInstructionView::MintTo {
                amount: *amount,
            },
            TokenInstruction::Burn { amount } => TokenInstructionView::Burn { amount: *amount },
            TokenInstruction::CloseAccount => TokenInstructionView::CloseAccount,
            TokenInstruction::FreezeAccount => TokenInstructionView::FreezeAccount,
            TokenInstruction::ThawAccount => TokenInstructionView::ThawAccount,
            TokenInstruction::TransferChecked { amount, decimals } =>
                TokenInstructionView::TransferChecked { amount: *amount, decimals: *decimals },
            TokenInstruction::ApproveChecked { amount, decimals } =>
                TokenInstructionView::ApproveChecked { amount: *amount, decimals: *decimals },
            TokenInstruction::MintToChecked { amount, decimals } =>
                TokenInstructionView::MintToChecked { amount: *amount, decimals: *decimals },
            TokenInstruction::BurnChecked { amount, decimals } =>
                TokenInstructionView::BurnChecked { amount: *amount, decimals: *decimals },
            TokenInstruction::InitializeAccount2 { owner } =>
                TokenInstructionView::InitializeAccount2 { owner: owner@ },
            TokenInstruction::SyncNative => TokenInstructionView::SyncNative,
            TokenInstruction::InitializeAccount3 { owner } =>
                TokenInstructionView::InitializeAccount3 { owner: owner@ },
            TokenInstruction::InitializeMultisig2 { m } =>
                TokenInstructionView::InitializeMultisig2 { m: *m },
            TokenInstruction::InitializeMint2 { decimals, mint_authority, freeze_authority } =>
                TokenInstructionView::InitializeMint2 {
                    decimals: *decimals,
                    mint_authority: mint_authority@,
                    freeze_authority: opt_bytes_view(*freeze_authority),
                },
            TokenInstruction::GetAccountDataSize => TokenInstructionView::GetAccountDataSize,
            TokenInstruction::InitializeImmutableOwner =>
                TokenInstructionView::InitializeImmutableOwner,
            TokenInstruction::AmountToUiAmount { amount } =>
                TokenInstructionView::AmountToUiAmount { amount: *amount },
            TokenInstruction::UiAmountToAmount { ui_amount } =>
                TokenInstructionView::UiAmountToAmount { ui_amount: ui_amount@ },
        }
    }
}

/// An optional 32-byte key at `off`: tag byte 0 for absent, 1 followed by
/// the key for present; anything else is malformed.
pub open spec fn spec_read_key_option(data: Seq<u8>, off: int) -> Result<Option<Seq<u8>>,
    ParseError> {
    if off < data.len() {
        if data[off] == 0 {
            Ok(None)
        } else if data[off] == 1 && off + 33 <= data.len() {
            Ok(Some(data.subrange(off + 1, off + 33)))
        } else {
            Err(ParseError::TruncatedPayload)
        }
    } else {
        Err(ParseError::TruncatedPayload)
    }
}

/// Reads an optional 32-byte key at `off`.
pub fn read_key_option(data: &Vec<u8>, off: usize) -> (r: Result<Option<Vec<u8>>, ParseError>)
    ensures
        match r {
            Ok(o) => spec_read_key_option(data@, off as int) == Ok::<Option<Seq<u8>>, ParseError>(
                opt_bytes_view(o),
            ),
            Err(e) => spec_read_key_option(data@, off as int) == Err::<Option<Seq<u8>>,
                ParseError>(e),
        },
{
    let n = data.len();
    if off < n {
        if data[off] == 0 {
            Ok(None)
        } else if data[off] == 1 && n >= 33 && off <= n - 33 {
            Ok(Some(read_bytes(data, off + 1, 32)))
        } else {
            Err(ParseError::TruncatedPayload)
        }
    } else {
        Err(ParseError::TruncatedPayload)
    }
}

/// What a token-standard payload decodes to: the whole decode contract of
/// `TokenInstruction::unpack`.
#[verifier::opaque]
pub open spec fn spec_unpack_token(data: Seq<u8>) -> Result<TokenInstructionView, ParseError> {
    if data.len() == 0 {
        Err(ParseError::TruncatedPayload)
    } else {
        let tag = data[0];
        if tag == 0 || tag == 20 {
            spec_unpack_initialize_mint(data, tag)
        } else if tag == 1 {
            Ok(TokenInstructionView::InitializeAccount)
        } else if tag == 2 || tag == 19 {
            if data.len() >= 2 {
                if tag == 2 {
                    Ok(TokenInstructionView::InitializeMultisig { m: data[1] })
                } else {
                    Ok(TokenInstructionView::InitializeMultisig2 { m: data[1] })
                }
            } else {
                Err(ParseError::TruncatedPayload)
            }
        } else if tag == 3 || tag == 4 || tag == 7 || tag == 8 || tag == 23 {
            if data.len() >= 9 {
                let amount = le64(data.subrange(1, 9)) as u64;
                if tag == 3 {
                    Ok(TokenInstructionView::Transfer { amount })
                } else if tag == 4 {
                    Ok(TokenInstructionView::Approve { amount })
                } else if tag == 7 {
                    Ok(TokenInstructionView::MintTo { amount })
                } else if tag == 8 {
                    Ok(TokenInstructionView::Burn { amount })
                } else {
                    Ok(TokenInstructionView::AmountToUiAmount { amount })
                }
            } else {
                Err(ParseError::TruncatedPayload)
            }
        } else if tag == 5 {
            Ok(TokenInstructionView::Revoke)
        } else if tag == 6 {
            spec_unpack_set_authority(data)
        } else if tag == 9 {
            Ok(TokenInstructionView::CloseAccount)
        } else if tag == 10 {
            Ok(TokenInstructionView::FreezeAccount)
        } else if tag == 11 {
            Ok(TokenInstructionView::ThawAccount)
        } else if tag == 12 || tag == 13 || tag == 14 || tag == 15 {
            if data.len() >= 10 {
                let amount = le64(data.subrange(1, 9)) as u64;
                let decimals = data[9];
                if tag == 12 {
                    Ok(TokenInstructionView::TransferChecked { amount, decimals })
                } else if tag == 13 {
                    Ok(TokenInstructionView::ApproveChecked { amount, decimals })
                } else if tag == 14 {
                    Ok(TokenInstructionView::MintToChecked { amount, decimals })
                } else {
                    Ok(TokenInstructionView::BurnChecked { amount, decimals })
                }
            } else {
                Err(ParseError::TruncatedPayload)
            }
        } else if tag == 16 || tag == 18 {
            if data.len() >= 33 {
                let owner = data.subrange(1, 33);
                if tag == 16 {
                    Ok(TokenInstructionView::InitializeAccount2 { owner })
                } else {
                    Ok(TokenInstructionView::InitializeAccount3 { owner })
                }
            } else {
                Err(ParseError::TruncatedPayload)
            }
        } else if tag == 17 {
            Ok(TokenInstructionView::SyncNative)
        } else if tag == 21 {
            Ok(TokenInstructionView::GetAccountDataSize)
        } else if tag == 22 {
            Ok(TokenInstructionView::InitializeImmutableOwner)
        } else if tag == 24 {
            Ok(TokenInstructionView::UiAmountToAmount {
                ui_amount: data.subrange(1, data.len() as int),
            })
        } else {
            Err(ParseError::UnknownDiscriminant)
        }
    }
}

/// Layout of discriminants 0 and 20: decimals, mint authority, optional
/// freeze authority.
pub open spec fn spec_unpack_initialize_mint(data: Seq<u8>, tag: u8) -> Result<
    TokenInstructionView, ParseError> {
    if data.len() >= 34 {
        let decimals = data[1];
        let mint_authority = data.subrange(2, 34);
        match spec_read_key_option(data, 34) {
            Ok(freeze_authority) => if tag == 0 {
                Ok(TokenInstructionView::InitializeMint { decimals, mint_authority,
                    freeze_authority })
            } else {
                Ok(TokenInstructionView::InitializeMint2 { decimals, mint_authority,
                    freeze_authority })
            },
            Err(e) => Err(e),
        }
    } else {
        Err(ParseError::TruncatedPayload)
    }
}

/// Layout of discriminant 6: authority kind, optional new authority.
pub open spec fn spec_unpack_set_authority(data: Seq<u8>) -> Result<TokenInstructionView,
    ParseError> {
    if data.len() >= 2 {
        let k = data[1];
        if k == 0 || k == 1 || k == 2 || k == 3 {
            let authority_type = if k == 0 {
                AuthorityType::MintTokens
            } else if k == 1 {
                AuthorityType::FreezeAccount
            } else if k == 2 {
                AuthorityType::AccountOwner
            } else {
                AuthorityType::CloseAccount
            };
            match spec_read_key_option(data, 2) {
                Ok(new_authority) => Ok(TokenInstructionView::SetAuthority { authority_type,
                    new_authority }),
                Err(e) => Err(e),
            }
        } else {
            Err(ParseError::TruncatedPayload)
        }
    } else {
        Err(ParseError::TruncatedPayload)
    }
}

impl TokenInstruction {
    /// Decodes a token-standard payload into its instruction variant.
    pub fn unpack(data: &Vec<u8>) -> (r: Result<TokenInstruction, ParseError>)
        ensures
            match r {
                Ok(t) => spec_unpack_token(data@) == Ok::<TokenInstructionView, ParseError>(t@),
                Err(e) => spec_unpack_token(data@) == Err::<TokenInstructionView, ParseError>(e),
            },
    {
        proof {
            reveal(spec_unpack_token);
        }
        let n = data.len();
        if n == 0 {
            return Err(ParseError::TruncatedPayload);
        }
        let tag = data[0];
        match tag {
            0 | 20 => {
                if n >= 34 {
                    let decimals = data[1];
                    let mint_authority = read_bytes(data, 2, 32);
                    match read_key_option(data, 34) {
                        Ok(freeze_authority) => if tag == 0 {
                            Ok(TokenInstruction::InitializeMint { decimals, mint_authority,
                                freeze_authority })
                        } else {
                            Ok(TokenInstruction::InitializeMint2 { decimals, mint_authority,
                                freeze_authority })
                        },
                        Err(e) => Err(e),
                    }
                } else {
                    Err(ParseError::TruncatedPayload)
                }
            },
            1 => Ok(TokenInstruction::InitializeAccount),
            2 | 19 => {
                if n >= 2 {
                    if tag == 2 {
                        Ok(TokenInstruction::InitializeMultisig { m: data[1] })
                    } else {
                        Ok(TokenInstruction::InitializeMultisig2 { m: data[1] })
                    }
                } else {
                    Err(ParseError::TruncatedPayload)
                }
            },
            3 | 4 | 7 | 8 | 23 => {
                if n >= 9 {
                    let amount = read_u64_le(data, 1);
                    if tag == 3 {
                        Ok(TokenInstruction::Transfer { amount })
                    } else if tag == 4 {
                        Ok(TokenInstruction::Approve { amount })
                    } else if tag == 7 {
                        Ok(TokenInstruction::MintTo { amount })
                    } else if tag == 8 {
                        Ok(TokenInstruction::Burn { amount })
                    } else {
                        Ok(TokenInstruction::AmountToUiAmount { amount })
                    }
                } else {
                    Err(ParseError::TruncatedPayload)
                }
            },
            5 => Ok(TokenInstruction::Revoke),
            6 => {
                if n >= 2 {
                    let k = data[1];
                    if k <= 3 {
                        let authority_type = if k == 0 {
                            AuthorityType::MintTokens
                        } else if k == 1 {
                            AuthorityType::FreezeAccount
                        } else if k == 2 {
                            AuthorityType::AccountOwner
                        } else {
                            AuthorityType::CloseAccount
                        };
                        match read_key_option(data, 2) {
                            Ok(new_authority) => Ok(TokenInstruction::SetAuthority {
                                authority_type, new_authority }),
                            Err(e) => Err(e),
                        }
                    } else {
                        Err(ParseError::TruncatedPayload)
                    }
                } else {
                    Err(ParseError::TruncatedPayload)
                }
            },
            9 => Ok(TokenInstruction::CloseAccount),
            10 => Ok(TokenInstruction::FreezeAccount),
            11 => Ok(TokenInstruction::ThawAccount),
            12 | 13 | 14 | 15 => {
                if n >= 10 {
                    let amount = read_u64_le(data, 1);
                    let decimals = data[9];
                    if tag == 12 {
                        Ok(TokenInstruction::TransferChecked { amount, decimals })
                    } else if tag == 13 {
                        Ok(TokenInstruction::ApproveChecked { amount, decimals })
                    } else if tag == 14 {
                        Ok(TokenInstruction::MintToChecked { amount, decimals })
                    } else {
                        Ok(TokenInstruction::BurnChecked { amount, decimals })
                    }
                } else {
                    Err(ParseError::TruncatedPayload)
                }
            },
            16 | 18 => {
                if n >= 33 {
                    let owner = read_bytes(data, 1, 32);
                    if tag == 16 {
                        Ok(TokenInstruction::InitializeAccount2 { owner })
                    } else {
                        Ok(TokenInstruction::InitializeAccount3 { owner })
                    }
                } else {
                    Err(ParseError::TruncatedPayload)
                }
            },
            17 => Ok(TokenInstruction::SyncNative),
            21 => Ok(TokenInstruction::GetAccountDataSize),
            22 => Ok(TokenInstruction::InitializeImmutableOwner),
            24 => Ok(TokenInstruction::UiAmountToAmount {
                ui_amount: read_bytes(data, 1, n - 1),
            }),
            _ => Err(ParseError::UnknownDiscriminant),
        }
    }
}

} // verus!
