//! Event synthesizer and per-transaction orchestrator for the token-standard
//! program: each decoded instruction variant is mapped, through its fixed
//! account-position schema and the running ledger, to one domain event.

use vstd::prelude::*;
use crate::bytes::copy_bytes;
use crate::errors::{ParseError, TransactionError};
use crate::ledger::{
    accounts_view, get_context, spec_lookup, spec_update_ledger, TransactionContext,
};
use crate::model::{flatten_list, flatten_one, lemma_flatten_concat, lemma_flatten_singleton, Instruction, TokenAccountView, Transaction, TOKEN_PROGRAM_ID};
use crate::token_events::{
    keys_view, lemma_keys_view, opt_event_view, ApproveEvent, ApproveEventView, BurnEvent,
    BurnEventView, CloseAccountEvent, CloseAccountEventView, Event, EventView, FreezeAccountEvent,
    FreezeAccountEventView, InitializeAccountEvent, InitializeAccountEventView,
    InitializeImmutableOwnerEvent, InitializeImmutableOwnerEventView, InitializeMintEvent,
    InitializeMintEventView, InitializeMultisigEvent, InitializeMultisigEventView, MintToEvent,
    MintToEventView, RevokeEvent, RevokeEventView, SetAuthorityEvent, SetAuthorityEventView,
    SplTokenEvent, SplTokenEventView, SyncNativeEvent, SyncNativeEventView, ThawAccountEvent,
    ThawAccountEventView, TransferEvent, TransferEventView,
};
use crate::token_instruction::{
    spec_unpack_token, AuthorityType, TokenInstruction, TokenInstructionView,
};

verus! {

/// Address at position `k` of the instruction's account list.
pub open spec fn spec_account(i: Instruction, k: int) -> Seq<u8> {
    i.accounts@[k]@
}

/// Mint at position 0; authorities come from the payload.
pub open spec fn spec_initialize_mint_event(
    i: Instruction,
    decimals: u32,
    mint_authority: Seq<u8>,
    freeze_authority: Option<Seq<u8>>,
) -> Result<InitializeMintEventView, ParseError> {
    if i.accounts@.len() >= 1 {
        Ok(InitializeMintEventView {
            mint: spec_account(i, 0),
            decimals,
            mint_authority,
            freeze_authority,
        })
    } else {
        Err(ParseError::MissingAccounts)
    }
}

/// The initialized account at position 0, snapshotted from the ledger.
pub open spec fn spec_initialize_account_event(i: Instruction, l: Seq<TokenAccountView>) -> Result<
    InitializeAccountEventView, ParseError> {
    if i.accounts@.len() >= 1 {
        match spec_lookup(l, spec_account(i, 0)) {
            Some(account) => Ok(InitializeAccountEventView { account }),
            None => Err(ParseError::LedgerLookupFailed),
        }
    } else {
        Err(ParseError::MissingAccounts)
    }
}

/// Multisig at position 0; signers start after position 1, or after the rent
/// sysvar at position 1 when the variant implies one.
pub open spec fn spec_initialize_multisig_event(
    i: Instruction,
    m: u8,
    rent_sysvar_account: bool,
) -> Result<InitializeMultisigEventView, ParseError> {
    let delta: int = if rent_sysvar_account {
        2
    } else {
        1
    };
    if i.accounts@.len() >= delta {
        Ok(InitializeMultisigEventView {
            multisig: spec_account(i, 0),
            signers: keys_view(i.accounts@).skip(delta),
            m: m as u32,
        })
    } else {
        Err(ParseError::MissingAccounts)
    }
}

/// Source at 0 and destination at `1 + d`, both snapshotted from the ledger;
/// authority at `2 + d`; `d` is 1 exactly when the variant carries an
/// explicit decimals field.
pub open spec fn spec_transfer_event(
    i: Instruction,
    l: Seq<TokenAccountView>,
    amount: u64,
    expected_decimals: Option<u8>,
) -> Result<TransferEventView, ParseError> {
    let d: int = if expected_decimals is None {
        0
    } else {
        1
    };
    if i.accounts@.len() >= 3 + d {
        match spec_lookup(l, spec_account(i, 0)) {
            Some(source) => match spec_lookup(l, spec_account(i, 1 + d)) {
                Some(destination) => Ok(TransferEventView {
                    source,
                    destination,
                    amount,
                    authority: spec_account(i, 2 + d),
                }),
                None => Err(ParseError::LedgerLookupFailed),
            },
            None => Err(ParseError::LedgerLookupFailed),
        }
    } else {
        Err(ParseError::MissingAccounts)
    }
}

/// Source at 0, snapshotted; delegate at `1 + d`.
pub open spec fn spec_approve_event(
    i: Instruction,
    l: Seq<TokenAccountView>,
    amount: u64,
    expected_decimals: Option<u8>,
) -> Result<ApproveEventView, ParseError> {
    let d: int = if expected_decimals is None {
        0
    } else {
        1
    };
    if i.accounts@.len() >= 2 + d {
        match spec_lookup(l, spec_account(i, 0)) {
            Some(source) => Ok(ApproveEventView {
                source,
                delegate: spec_account(i, 1 + d),
                amount,
            }),
            None => Err(ParseError::LedgerLookupFailed),
        }
    } else {
        Err(ParseError::MissingAccounts)
    }
}

/// Source at 0, snapshotted.
pub open spec fn spec_revoke_event(i: Instruction, l: Seq<TokenAccountView>) -> Result<
    RevokeEventView, ParseError> {
    if i.accounts@.len() >= 1 {
        match spec_lookup(l, spec_account(i, 0)) {
            Some(source) => Ok(RevokeEventView { source }),
            None => Err(ParseError::LedgerLookupFailed),
        }
    } else {
        Err(ParseError::MissingAccounts)
    }
}

/// Mint at 0 and current authority at 1; the new authority comes from the
/// payload.
pub open spec fn spec_set_authority_event(
    i: Instruction,
    authority_type: AuthorityType,
    new_authority: Option<Seq<u8>>,
) -> Result<SetAuthorityEventView, ParseError> {
    if i.accounts@.len() >= 2 {
        Ok(SetAuthorityEventView {
            mint: spec_account(i, 0),
            authority: spec_account(i, 1),
            authority_type,
            new_authority,
        })
    } else {
        Err(ParseError::MissingAccounts)
    }
}

/// Mint at 0, destination at 1 (snapshotted), mint authority at 2.
pub open spec fn spec_mint_to_event(i: Instruction, l: Seq<TokenAccountView>, amount: u64) -> Result<
    MintToEventView, ParseError> {
    if i.accounts@.len() >= 3 {
        match spec_lookup(l, spec_account(i, 1)) {
            Some(destination) => Ok(MintToEventView {
                mint: spec_account(i, 0),
                destination,
                mint_authority: spec_account(i, 2),
                amount,
            }),
            None => Err(ParseError::LedgerLookupFailed),
        }
    } else {
        Err(ParseError::MissingAccounts)
    }
}

/// Source at 0 (snapshotted), authority at 2.
pub open spec fn spec_burn_event(i: Instruction, l: Seq<TokenAccountView>, amount: u64) -> Result<
    BurnEventView, ParseError> {
    if i.accounts@.len() >= 3 {
        match spec_lookup(l, spec_account(i, 0)) {
            Some(source) => Ok(BurnEventView { source, authority: spec_account(i, 2), amount }),
            None => Err(ParseError::LedgerLookupFailed),
        }
    } else {
        Err(ParseError::MissingAccounts)
    }
}

/// Source at 0 (snapshotted), destination at 1.
pub open spec fn spec_close_account_event(i: Instruction, l: Seq<TokenAccountView>) -> Result<
    CloseAccountEventView, ParseError> {
    if i.accounts@.len() >= 2 {
        match spec_lookup(l, spec_account(i, 0)) {
            Some(source) => Ok(CloseAccountEventView { source, destination: spec_account(i, 1) }),
            None => Err(ParseError::LedgerLookupFailed),
        }
    } else {
        Err(ParseError::MissingAccounts)
    }
}

/// Source at 0 (snapshotted), freeze authority at 1.
pub open spec fn spec_freeze_account_event(i: Instruction, l: Seq<TokenAccountView>) -> Result<
    FreezeAccountEventView, ParseError> {
    if i.accounts@.len() >= 2 {
        match spec_lookup(l, spec_account(i, 0)) {
            Some(source) => Ok(FreezeAccountEventView {
                source,
                freeze_authority: spec_account(i, 1),
            }),
            None => Err(ParseError::LedgerLookupFailed),
        }
    } else {
        Err(ParseError::MissingAccounts)
    }
}

/// Source at 0 (snapshotted), freeze authority at 1.
pub open spec fn spec_thaw_account_event(i: Instruction, l: Seq<TokenAccountView>) -> Result<
    ThawAccountEventView, ParseError> {
    if i.accounts@.len() >= 2 {
        match spec_lookup(l, spec_account(i, 0)) {
            Some(source) => Ok(ThawAccountEventView {
                source,
                freeze_authority: spec_account(i, 1),
            }),
            None => Err(ParseError::LedgerLookupFailed),
        }
    } else {
        Err(ParseError::MissingAccounts)
    }
}

/// The affected account at 0, snapshotted.
pub open spec fn spec_initialize_immutable_owner_event(
    i: Instruction,
    l: Seq<TokenAccountView>,
) -> Result<InitializeImmutableOwnerEventView, ParseError> {
    if i.accounts@.len() >= 1 {
        match spec_lookup(l, spec_account(i, 0)) {
            Some(account) => Ok(InitializeImmutableOwnerEventView { account }),
            None => Err(ParseError::LedgerLookupFailed),
        }
    } else {
        Err(ParseError::MissingAccounts)
    }
}

/// The affected account at 0, snapshotted.
pub open spec fn spec_sync_native_event(i: Instruction, l: Seq<TokenAccountView>) -> Result<
    SyncNativeEventView, ParseError> {
    if i.accounts@.len() >= 1 {
        match spec_lookup(l, spec_account(i, 0)) {
            Some(account) => Ok(SyncNativeEventView { account }),
            None => Err(ParseError::LedgerLookupFailed),
        }
    } else {
        Err(ParseError::MissingAccounts)
    }
}

/// Which event one recognized instruction variant yields against ledger
/// `l`: the per-variant half of the synthesizer contract. Amount conversions
/// and size queries are informational only and yield no event.
pub open spec fn spec_synthesize_token(
    i: Instruction,
    l: Seq<TokenAccountView>,
    v: TokenInstructionView,
) -> Result<Option<EventView>, ParseError> {
    match v {
                TokenInstructionView::InitializeMint { decimals, mint_authority,
                    freeze_authority } => match spec_initialize_mint_event(i, decimals as u32,
                    mint_authority, freeze_authority) {
                    Ok(e) => Ok(Some(EventView::InitializeMint(e))),
                    Err(err) => Err(err),
                },
                TokenInstructionView::InitializeMint2 { decimals, mint_authority,
                    freeze_authority } => match spec_initialize_mint_event(i, decimals as u32,
                    mint_authority, freeze_authority) {
                    Ok(e) => Ok(Some(EventView::InitializeMint(e))),
                    Err(err) => Err(err),
                },
                TokenInstructionView::InitializeAccount => match spec_initialize_account_event(i,
                    l) {
                    Ok(e) => Ok(Some(EventView::InitializeAccount(e))),
                    Err(err) => Err(err),
                },
                TokenInstructionView::InitializeAccount2 { .. } =>
                    match spec_initialize_account_event(i, l) {
                    Ok(e) => Ok(Some(EventView::InitializeAccount(e))),
                    Err(err) => Err(err),
                },
                TokenInstructionView::InitializeAccount3 { .. } =>
                    match spec_initialize_account_event(i, l) {
                    Ok(e) => Ok(Some(EventView::InitializeAccount(e))),
                    Err(err) => Err(err),
                },
                TokenInstructionView::InitializeMultisig { m } =>
                    match spec_initialize_multisig_event(i, m, true) {
                    Ok(e) => Ok(Some(EventView::InitializeMultisig(e))),
                    Err(err) => Err(err),
                },
                TokenInstructionView::InitializeMultisig2 { m } =>
                    match spec_initialize_multisig_event(i, m, false) {
                    Ok(e) => Ok(Some(EventView::InitializeMultisig(e))),
                    Err(err) => Err(err),
                },
                TokenInstructionView::Transfer { amount } => match spec_transfer_event(i, l,
                    amount, None) {
                    Ok(e) => Ok(Some(EventView::Transfer(e))),
                    Err(err) => Err(err),
                },
                TokenInstructionView::TransferChecked { amount, decimals } =>
                    match spec_transfer_event(i, l, amount, Some(decimals)) {
                    Ok(e) => Ok(Some(EventView::Transfer(e))),
                    Err(err) => Err(err),
                },
                TokenInstructionView::Approve { amount } => match spec_approve_event(i, l, amount,
                    None) {
                    Ok(e) => Ok(Some(EventView::Approve(e))),
                    Err(err) => Err(err),
                },
                TokenInstructionView::ApproveChecked { amount, decimals } =>
                    match spec_approve_event(i, l, amount, Some(decimals)) {
                    Ok(e) => Ok(Some(EventView::Approve(e))),
                    Err(err) => Err(err),
                },
                TokenInstructionView::Revoke => match spec_revoke_event(i, l) {
                    Ok(e) => Ok(Some(EventView::Revoke(e))),
                    Err(err) => Err(err),
                },
                TokenInstructionView::SetAuthority { authority_type, new_authority } =>
                    match spec_set_authority_event(i, authority_type, new_authority) {
                    Ok(e) => Ok(Some(EventView::SetAuthority(e))),
                    Err(err) => Err(err),
                },
                TokenInstructionView::MintTo { amount } => match spec_mint_to_event(i, l, amount) {
                    Ok(e) => Ok(Some(EventView::MintTo(e))),
                    Err(err) => Err(err),
                },
                TokenInstructionView::MintToChecked { amount, .. } => match spec_mint_to_event(i,
                    l, amount) {
                    Ok(e) => Ok(Some(EventView::MintTo(e))),
                    Err(err) => Err(err),
                },
                TokenInstructionView::Burn { amount } => match spec_burn_event(i, l, amount) {
                    Ok(e) => Ok(Some(EventView::Burn(e))),
                    Err(err) => Err(err),
                },
                TokenInstructionView::BurnChecked { amount, .. } => match spec_burn_event(i, l,
                    amount) {
                    Ok(e) => Ok(Some(EventView::Burn(e))),
                    Err(err) => Err(err),
                },
                TokenInstructionView::CloseAccount => match spec_close_account_event(i, l) {
                    Ok(e) => Ok(Some(EventView::CloseAccount(e))),
                    Err(err) => Err(err),
                },
                TokenInstructionView::FreezeAccount => match spec_freeze_account_event(i, l) {
                    Ok(e) => Ok(Some(EventView::FreezeAccount(e))),
                    Err(err) => Err(err),
                },
                TokenInstructionView::ThawAccount => match spec_thaw_account_event(i, l) {
                    Ok(e) => Ok(Some(EventView::ThawAccount(e))),
                    Err(err) => Err(err),
                },
                TokenInstructionView::InitializeImmutableOwner =>
                    match spec_initialize_immutable_owner_event(i, l) {
                    Ok(e) => Ok(Some(EventView::InitializeImmutableOwner(e))),
                    Err(err) => Err(err),
                },
                TokenInstructionView::SyncNative => match spec_sync_native_event(i, l) {
                    Ok(e) => Ok(Some(EventView::SyncNative(e))),
                    Err(err) => Err(err),
                },
                TokenInstructionView::GetAccountDataSize => Ok(None),
                TokenInstructionView::AmountToUiAmount { .. } => Ok(None),
                TokenInstructionView::UiAmountToAmount { .. } => Ok(None),
    }
}

/// The whole synthesizer contract for one token-standard instruction against
/// ledger `l`: which event, if any, it yields, and on which inputs it fails.
/// An unknown discriminant yields no event and no error, for forward
/// compatibility.
pub open spec fn spec_parse_token_instruction(i: Instruction, l: Seq<TokenAccountView>) -> Result<
    Option<EventView>, ParseError> {
    if i.program_id@ != TOKEN_PROGRAM_ID@ {
        Err(ParseError::WrongProgram)
    } else {
        match spec_unpack_token(i.data@) {
            Err(ParseError::UnknownDiscriminant) => Ok(None),
            Err(e) => Err(e),
            Ok(v) => spec_synthesize_token(i, l, v),
        }
    }
}

fn _parse_initialize_mint_instruction(
    instruction: &Instruction,
    _context: &TransactionContext,
    decimals: u32,
    mint_authority: Vec<u8>,
    freeze_authority: Option<Vec<u8>>,
) -> (r: Result<InitializeMintEvent, ParseError>)
    ensures
        match r {
            Ok(e) => spec_initialize_mint_event(*instruction, decimals, mint_authority@,
                crate::bytes::opt_bytes_view(freeze_authority)) == Ok::<InitializeMintEventView,
                ParseError>(e@),
            Err(err) => spec_initialize_mint_event(*instruction, decimals, mint_authority@,
                crate::bytes::opt_bytes_view(freeze_authority)) == Err::<InitializeMintEventView,
                ParseError>(err),
        },
{
    if instruction.accounts.len() < 1 {
        return Err(ParseError::MissingAccounts);
    }
    let mint = copy_bytes(&instruction.accounts[0]);
    Ok(InitializeMintEvent { mint, decimals, mint_authority, freeze_authority })
}

fn _parse_initialize_account_instruction(
    instruction: &Instruction,
    context: &TransactionContext,
    _owner: Option<Vec<u8>>,
) -> (r: Result<InitializeAccountEvent, ParseError>)
    ensures
        match r {
            Ok(e) => spec_initialize_account_event(*instruction, context@.accounts)
                == Ok::<InitializeAccountEventView, ParseError>(e@),
            Err(err) => spec_initialize_account_event(*instruction, context@.accounts)
                == Err::<InitializeAccountEventView, ParseError>(err),
        },
{
    if instruction.accounts.len() < 1 {
        return Err(ParseError::MissingAccounts);
    }
    match context.get_token_account(&instruction.accounts[0]) {
        Some(account) => Ok(InitializeAccountEvent { account }),
        None => Err(ParseError::LedgerLookupFailed),
    }
}

fn _parse_initialize_multisig_instruction(
    instruction: &Instruction,
    _context: &TransactionContext,
    m: u8,
    rent_sysvar_account: bool,
) -> (r: Result<InitializeMultisigEvent, ParseError>)
    ensures
        match r {
            Ok(e) => spec_initialize_multisig_event(*instruction, m, rent_sysvar_account)
                == Ok::<InitializeMultisigEventView, ParseError>(e@),
            Err(err) => spec_initialize_multisig_event(*instruction, m, rent_sysvar_account)
                == Err::<InitializeMultisigEventView, ParseError>(err),
        },
{
    let delta: usize = if rent_sysvar_account {
        2
    } else {
        1
    };
    let n = instruction.accounts.len();
    if n < delta {
        return Err(ParseError::MissingAccounts);
    }
    let multisig = copy_bytes(&instruction.accounts[0]);
    let mut signers: Vec<Vec<u8>> = Vec::new();
    let mut j: usize = delta;
    proof {
        lemma_keys_view(instruction.accounts@);
        lemma_keys_view(signers@);
        assert(keys_view(signers@) =~= keys_view(instruction.accounts@).skip(delta as int).take(
            0));
    }
    while j < n
        invariant
            delta <= j <= n,
            n == instruction.accounts@.len(),
            keys_view(signers@) == keys_view(instruction.accounts@).skip(delta as int).take(
                j - delta as int),
        decreases n - j,
    {
        let ghost pre = signers@;
        signers.push(copy_bytes(&instruction.accounts[j]));
        proof {
            lemma_keys_view(pre);
            lemma_keys_view(signers@);
            lemma_keys_view(instruction.accounts@);
            assert(keys_view(signers@) =~= keys_view(instruction.accounts@).skip(
                delta as int).take(j - delta as int + 1));
        }
        j = j + 1;
    }
    proof {
        assert(keys_view(signers@) =~= keys_view(instruction.accounts@).skip(delta as int));
    }
    Ok(InitializeMultisigEvent { multisig, signers, m: m as u32 })
}

fn _parse_transfer_instruction(
    instruction: &Instruction,
    context: &TransactionContext,
    amount: u64,
    expected_decimals: Option<u8>,
) -> (r: Result<TransferEvent, ParseError>)
    ensures
        match r {
            Ok(e) => spec_transfer_event(*instruction, context@.accounts, amount,
                expected_decimals) == Ok::<TransferEventView, ParseError>(e@),
            Err(err) => spec_transfer_event(*instruction, context@.accounts, amount,
                expected_decimals) == Err::<TransferEventView, ParseError>(err),
        },
{
    let delta: usize = if expected_decimals.is_none() {
        0
    } else {
        1
    };
    if instruction.accounts.len() < 3 + delta {
        return Err(ParseError::MissingAccounts);
    }
    let source = match context.get_token_account(&instruction.accounts[0]) {
        Some(a) => a,
        None => {
            return Err(ParseError::LedgerLookupFailed);
        },
    };
    let destination = match context.get_token_account(&instruction.accounts[1 + delta]) {
        Some(a) => a,
        None => {
            return Err(ParseError::LedgerLookupFailed);
        },
    };
    let authority = copy_bytes(&instruction.accounts[2 + delta]);
    Ok(TransferEvent { source, destination, amount, authority })
}

fn _parse_approve_instruction(
    instruction: &Instruction,
    context: &TransactionContext,
    amount: u64,
    expected_decimals: Option<u8>,
) -> (r: Result<ApproveEvent, ParseError>)
    ensures
        match r {
            Ok(e) => spec_approve_event(*instruction, context@.accounts, amount,
                expected_decimals) == Ok::<ApproveEventView, ParseError>(e@),
            Err(err) => spec_approve_event(*instruction, context@.accounts, amount,
                expected_decimals) == Err::<ApproveEventView, ParseError>(err),
        },
{
    let delta: usize = if expected_decimals.is_none() {
        0
    } else {
        1
    };
    if instruction.accounts.len() < 2 + delta {
        return Err(ParseError::MissingAccounts);
    }
    let source = match context.get_token_account(&instruction.accounts[0]) {
        Some(a) => a,
        None => {
            return Err(ParseError::LedgerLookupFailed);
        },
    };
    let delegate = copy_bytes(&instruction.accounts[1 + delta]);
    Ok(ApproveEvent { source, delegate, amount })
}

fn _parse_revoke_instruction(instruction: &Instruction, context: &TransactionContext) -> (r:
    Result<RevokeEvent, ParseError>)
    ensures
        match r {
            Ok(e) => spec_revoke_event(*instruction, context@.accounts) == Ok::<RevokeEventView,
                ParseError>(e@),
            Err(err) => spec_revoke_event(*instruction, context@.accounts)
                == Err::<RevokeEventView, ParseError>(err),
        },
{
    if instruction.accounts.len() < 1 {
        return Err(ParseError::MissingAccounts);
    }
    match context.get_token_account(&instruction.accounts[0]) {
        Some(source) => Ok(RevokeEvent { source }),
        None => Err(ParseError::LedgerLookupFailed),
    }
}

fn _parse_set_authority_instruction(
    instruction: &Instruction,
    _context: &TransactionContext,
    authority_type: AuthorityType,
    new_authority: Option<Vec<u8>>,
) -> (r: Result<SetAuthorityEvent, ParseError>)
    ensures
        match r {
            Ok(e) => spec_set_authority_event(*instruction, authority_type,
                crate::bytes::opt_bytes_view(new_authority)) == Ok::<SetAuthorityEventView,
                ParseError>(e@),
            Err(err) => spec_set_authority_event(*instruction, authority_type,
                crate::bytes::opt_bytes_view(new_authority)) == Err::<SetAuthorityEventView,
                ParseError>(err),
        },
{
    if instruction.accounts.len() < 2 {
        return Err(ParseError::MissingAccounts);
    }
    let mint = copy_bytes(&instruction.accounts[0]);
    let authority = copy_bytes(&instruction.accounts[1]);
    Ok(SetAuthorityEvent { mint, authority, authority_type, new_authority })
}

fn _parse_mint_to_instruction(
    instruction: &Instruction,
    context: &TransactionContext,
    amount: u64,
) -> (r: Result<MintToEvent, ParseError>)
    ensures
        match r {
            Ok(e) => spec_mint_to_event(*instruction, context@.accounts, amount)
                == Ok::<MintToEventView, ParseError>(e@),
            Err(err) => spec_mint_to_event(*instruction, context@.accounts, amount)
                == Err::<MintToEventView, ParseError>(err),
        },
{
    if instruction.accounts.len() < 3 {
        return Err(ParseError::MissingAccounts);
    }
    let mint = copy_bytes(&instruction.accounts[0]);
    let destination = match context.get_token_account(&instruction.accounts[1]) {
        Some(a) => a,
        None => {
            return Err(ParseError::LedgerLookupFailed);
        },
    };
    let mint_authority = copy_bytes(&instruction.accounts[2]);
    Ok(MintToEvent { mint, destination, mint_authority, amount })
}

fn _parse_burn_instruction(
    instruction: &Instruction,
    context: &TransactionContext,
    amount: u64,
) -> (r: Result<BurnEvent, ParseError>)
    ensures
        match r {
            Ok(e) => spec_burn_event(*instruction, context@.accounts, amount)
                == Ok::<BurnEventView, ParseError>(e@),
            Err(err) => spec_burn_event(*instruction, context@.accounts, amount)
                == Err::<BurnEventView, ParseError>(err),
        },
{
    if instruction.accounts.len() < 3 {
        return Err(ParseError::MissingAccounts);
    }
    let source = match context.get_token_account(&instruction.accounts[0]) {
        Some(a) => a,
        None => {
            return Err(ParseError::LedgerLookupFailed);
        },
    };
    let authority = copy_bytes(&instruction.accounts[2]);
    Ok(BurnEvent { source, authority, amount })
}

fn _parse_close_account_instruction(instruction: &Instruction, context: &TransactionContext) -> (r:
    Result<CloseAccountEvent, ParseError>)
    ensures
        match r {
            Ok(e) => spec_close_account_event(*instruction, context@.accounts)
                == Ok::<CloseAccountEventView, ParseError>(e@),
            Err(err) => spec_close_account_event(*instruction, context@.accounts)
                == Err::<CloseAccountEventView, ParseError>(err),
        },
{
    if instruction.accounts.len() < 2 {
        return Err(ParseError::MissingAccounts);
    }
    let source = match context.get_token_account(&instruction.accounts[0]) {
        Some(a) => a,
        None => {
            return Err(ParseError::LedgerLookupFailed);
        },
    };
    let destination = copy_bytes(&instruction.accounts[1]);
    Ok(CloseAccountEvent { source, destination })
}

fn _parse_freeze_account_instruction(instruction: &Instruction, context: &TransactionContext) -> (
    r: Result<FreezeAccountEvent, ParseError>)
    ensures
        match r {
            Ok(e) => spec_freeze_account_event(*instruction, context@.accounts)
                == Ok::<FreezeAccountEventView, ParseError>(e@),
            Err(err) => spec_freeze_account_event(*instruction, context@.accounts)
                == Err::<FreezeAccountEventView, ParseError>(err),
        },
{
    if instruction.accounts.len() < 2 {
        return Err(ParseError::MissingAccounts);
    }
    let source = match context.get_token_account(&instruction.accounts[0]) {
        Some(a) => a,
        None => {
            return Err(ParseError::LedgerLookupFailed);
        },
    };
    let freeze_authority = copy_bytes(&instruction.accounts[1]);
    Ok(FreezeAccountEvent { source, freeze_authority })
}

fn _parse_thaw_account_instruction(instruction: &Instruction, context: &TransactionContext) -> (r:
    Result<ThawAccountEvent, ParseError>)
    ensures
        match r {
            Ok(e) => spec_thaw_account_event(*instruction, context@.accounts)
                == Ok::<ThawAccountEventView, ParseError>(e@),
            Err(err) => spec_thaw_account_event(*instruction, context@.accounts)
                == Err::<ThawAccountEventView, ParseError>(err),
        },
{
    if instruction.accounts.len() < 2 {
        return Err(ParseError::MissingAccounts);
    }
    let source = match context.get_token_account(&instruction.accounts[0]) {
        Some(a) => a,
        None => {
            return Err(ParseError::LedgerLookupFailed);
        },
    };
    let freeze_authority = copy_bytes(&instruction.accounts[1]);
    Ok(ThawAccountEvent { source, freeze_authority })
}

fn _parse_initialize_immutable_owner_instruction(
    instruction: &Instruction,
    context: &TransactionContext,
) -> (r: Result<InitializeImmutableOwnerEvent, ParseError>)
    ensures
        match r {
            Ok(e) => spec_initialize_immutable_owner_event(*instruction, context@.accounts)
                == Ok::<InitializeImmutableOwnerEventView, ParseError>(e@),
            Err(err) => spec_initialize_immutable_owner_event(*instruction, context@.accounts)
                == Err::<InitializeImmutableOwnerEventView, ParseError>(err),
        },
{
    if instruction.accounts.len() < 1 {
        return Err(ParseError::MissingAccounts);
    }
    match context.get_token_account(&instruction.accounts[0]) {
        Some(account) => Ok(InitializeImmutableOwnerEvent { account }),
        None => Err(ParseError::LedgerLookupFailed),
    }
}

fn _parse_sync_native_instruction(instruction: &Instruction, context: &TransactionContext) -> (r:
    Result<SyncNativeEvent, ParseError>)
    ensures
        match r {
            Ok(e) => spec_sync_native_event(*instruction, context@.accounts)
                == Ok::<SyncNativeEventView, ParseError>(e@),
            Err(err) => spec_sync_native_event(*instruction, context@.accounts)
                == Err::<SyncNativeEventView, ParseError>(err),
        },
{
    if instruction.accounts.len() < 1 {
        return Err(ParseError::MissingAccounts);
    }
    match context.get_token_account(&instruction.accounts[0]) {
        Some(account) => Ok(SyncNativeEvent { account }),
        None => Err(ParseError::LedgerLookupFailed),
    }
}

/// Maps one recognized instruction variant to its event through the fixed
/// account-position schema, consulting the running ledger for snapshots.
#[verifier::rlimit(100)]
fn synthesize_instruction(
    instruction: &Instruction,
    context: &TransactionContext,
    unpacked: TokenInstruction,
) -> (r: Result<Option<Event>, ParseError>)
    ensures
        match r {
            Ok(o) => spec_synthesize_token(*instruction, context@.accounts, unpacked@)
                == Ok::<Option<EventView>, ParseError>(opt_event_view(o)),
            Err(err) => spec_synthesize_token(*instruction, context@.accounts, unpacked@)
                == Err::<Option<EventView>, ParseError>(err),
        },
{
    match unpacked {
        TokenInstruction::InitializeMint { decimals, mint_authority, freeze_authority } => {
            match _parse_initialize_mint_instruction(instruction, context, decimals as u32,
                mint_authority, freeze_authority) {
                Ok(e) => Ok(Some(Event::InitializeMint(e))),
                Err(err) => Err(err),
            }
        },
        TokenInstruction::InitializeMint2 { decimals, mint_authority, freeze_authority } => {
            match _parse_initialize_mint_instruction(instruction, context, decimals as u32,
                mint_authority, freeze_authority) {
                Ok(e) => Ok(Some(Event::InitializeMint(e))),
                Err(err) => Err(err),
            }
        },
        TokenInstruction::InitializeAccount => {
            match _parse_initialize_account_instruction(instruction, context, None) {
                Ok(e) => Ok(Some(Event::InitializeAccount(e))),
                Err(err) => Err(err),
            }
        },
        TokenInstruction::InitializeAccount2 { owner } => {
            match _parse_initialize_account_instruction(instruction, context, Some(owner)) {
                Ok(e) => Ok(Some(Event::InitializeAccount(e))),
                Err(err) => Err(err),
            }
        },
        TokenInstruction::InitializeAccount3 { owner } => {
            match _parse_initialize_account_instruction(instruction, context, Some(owner)) {
                Ok(e) => Ok(Some(Event::InitializeAccount(e))),
                Err(err) => Err(err),
            }
        },
        TokenInstruction::InitializeMultisig { m } => {
            match _parse_initialize_multisig_instruction(instruction, context, m, true) {
                Ok(e) => Ok(Some(Event::InitializeMultisig(e))),
                Err(err) => Err(err),
            }
        },
        TokenInstruction::InitializeMultisig2 { m } => {
            match _parse_initialize_multisig_instruction(instruction, context, m, false) {
                Ok(e) => Ok(Some(Event::InitializeMultisig(e))),
                Err(err) => Err(err),
            }
        },
        TokenInstruction::Transfer { amount } => {
            match _parse_transfer_instruction(instruction, context, amount, None) {
                Ok(e) => Ok(Some(Event::Transfer(e))),
                Err(err) => Err(err),
            }
        },
        TokenInstruction::TransferChecked { amount, decimals } => {
            match _parse_transfer_instruction(instruction, context, amount, Some(decimals)) {
                Ok(e) => Ok(Some(Event::Transfer(e))),
                Err(err) => Err(err),
            }
        },
        TokenInstruction::Approve { amount } => {
            match _parse_approve_instruction(instruction, context, amount, None) {
                Ok(e) => Ok(Some(Event::Approve(e))),
                Err(err) => Err(err),
            }
        },
        TokenInstruction::ApproveChecked { amount, decimals } => {
            match _parse_approve_instruction(instruction, context, amount, Some(decimals)) {
                Ok(e) => Ok(Some(Event::Approve(e))),
                Err(err) => Err(err),
            }
        },
        other => synthesize_rest(instruction, context, other),
    }
}

/// Remaining instruction variants of `synthesize_instruction`'s dispatch.
#[verifier::rlimit(100)]
fn synthesize_rest(
    instruction: &Instruction,
    context: &TransactionContext,
    unpacked: TokenInstruction,
) -> (r: Result<Option<Event>, ParseError>)
    requires
        !(unpacked matches TokenInstruction::InitializeMint { .. }),
        !(unpacked matches TokenInstruction::InitializeMint2 { .. }),
        !(unpacked matches TokenInstruction::InitializeAccount),
        !(unpacked matches TokenInstruction::InitializeAccount2 { .. }),
        !(unpacked matches TokenInstruction::InitializeAccount3 { .. }),
        !(unpacked matches TokenInstruction::InitializeMultisig { .. }),
        !(unpacked matches TokenInstruction::InitializeMultisig2 { .. }),
        !(unpacked matches TokenInstruction::Transfer { .. }),
        !(unpacked matches TokenInstruction::TransferChecked { .. }),
        !(unpacked matches TokenInstruction::Approve { .. }),
        !(unpacked matches TokenInstruction::ApproveChecked { .. }),
    ensures
        match r {
            Ok(o) => spec_synthesize_token(*instruction, context@.accounts, unpacked@)
                == Ok::<Option<EventView>, ParseError>(opt_event_view(o)),
            Err(err) => spec_synthesize_token(*instruction, context@.accounts, unpacked@)
                == Err::<Option<EventView>, ParseError>(err),
        },
{
    match unpacked {
        TokenInstruction::Revoke => {
            match _parse_revoke_instruction(instruction, context) {
                Ok(e) => Ok(Some(Event::Revoke(e))),
                Err(err) => Err(err),
            }
        },
        TokenInstruction::SetAuthority { authority_type, new_authority } => {
            match _parse_set_authority_instruction(instruction, context, authority_type,
                new_authority) {
                Ok(e) => Ok(Some(Event::SetAuthority(e))),
                Err(err) => Err(err),
            }
        },
        TokenInstruction::MintTo { amount } => {
            match _parse_mint_to_instruction(instruction, context, amount) {
                Ok(e) => Ok(Some(Event::MintTo(e))),
                Err(err) => Err(err),
            }
        },
        TokenInstruction::MintToChecked { amount, .. } => {
            match _parse_mint_to_instruction(instruction, context, amount) {
                Ok(e) => Ok(Some(Event::MintTo(e))),
                Err(err) => Err(err),
            }
        },
        TokenInstruction::Burn { amount } => {
            match _parse_burn_instruction(instruction, context, amount) {
                Ok(e) => Ok(Some(Event::Burn(e))),
                Err(err) => Err(err),
            }
        },
        TokenInstruction::BurnChecked { amount, .. } => {
            match _parse_burn_instruction(instruction, context, amount) {
                Ok(e) => Ok(Some(Event::Burn(e))),
                Err(err) => Err(err),
            }
        },
        TokenInstruction::CloseAccount => {
            match _parse_close_account_instruction(instruction, context) {
                Ok(e) => Ok(Some(Event::CloseAccount(e))),
                Err(err) => Err(err),
            }
        },
        TokenInstruction::FreezeAccount => {
            match _parse_freeze_account_instruction(instruction, context) {
                Ok(e) => Ok(Some(Event::FreezeAccount(e))),
                Err(err) => Err(err),
            }
        },
        TokenInstruction::ThawAccount => {
            match _parse_thaw_account_instruction(instruction, context) {
                Ok(e) => Ok(Some(Event::ThawAccount(e))),
                Err(err) => Err(err),
            }
        },
        TokenInstruction::InitializeImmutableOwner => {
            match _parse_initialize_immutable_owner_instruction(instruction, context) {
                Ok(e) => Ok(Some(Event::InitializeImmutableOwner(e))),
                Err(err) => Err(err),
            }
        },
        TokenInstruction::SyncNative => {
            match _parse_sync_native_instruction(instruction, context) {
                Ok(e) => Ok(Some(Event::SyncNative(e))),
                Err(err) => Err(err),
            }
        },
        TokenInstruction::GetAccountDataSize => Ok(None),
        TokenInstruction::AmountToUiAmount { .. } => Ok(None),
        TokenInstruction::UiAmountToAmount { .. } => Ok(None),
        // every other variant is ruled out by the requires
        _ => Err(ParseError::WrongProgram),
    }
}

/// Decodes one token-standard instruction and synthesizes its event. An
/// instruction of another program is rejected; an unknown discriminant
/// yields no event and no error.
pub fn parse_instruction(instruction: &Instruction, context: &TransactionContext) -> (r: Result<
    Option<Event>, ParseError>)
    ensures
        match r {
            Ok(o) => spec_parse_token_instruction(*instruction, context@.accounts)
                == Ok::<Option<EventView>, ParseError>(opt_event_view(o)),
            Err(err) => spec_parse_token_instruction(*instruction, context@.accounts)
                == Err::<Option<EventView>, ParseError>(err),
        },
{
    if !crate::bytes::bytes_eq32(&instruction.program_id, &TOKEN_PROGRAM_ID) {
        return Err(ParseError::WrongProgram);
    }
    let unpacked = match TokenInstruction::unpack(&instruction.data) {
        Ok(t) => t,
        Err(ParseError::UnknownDiscriminant) => {
            return Ok(None);
        },
        Err(e) => {
            return Err(e);
        },
    };
    synthesize_instruction(instruction, context, unpacked)
}


/// Mathematical image of a list of per-instruction results.
pub open spec fn token_events_view(s: Seq<SplTokenEvent>) -> Seq<SplTokenEventView> {
    s.map_values(|e: SplTokenEvent| e@)
}

/// `token_events_view` is pointwise: same length, each entry viewed in
/// place.
pub proof fn lemma_token_events_view(s: Seq<SplTokenEvent>)
    ensures
        token_events_view(s).len() == s.len(),
        forall|k: int| 0 <= k < s.len() ==> token_events_view(s)[k] == s[k]@,
{
}

/// The ledger after applying every instruction of `s` in order.
pub open spec fn spec_ledger_after(s: Seq<Instruction>, l: Seq<TokenAccountView>) -> Seq<
    TokenAccountView>
    decreases s.len(),
{
    if s.len() == 0 {
        l
    } else {
        spec_ledger_after(s.drop_first(), spec_update_ledger(l, s[0]))
    }
}

/// The output of one transaction over an already-flattened instruction
/// sequence, threading the ledger: every instruction first updates the
/// ledger, and each token-program instruction then contributes one entry.
/// The first fatal error aborts the remainder.
pub open spec fn spec_token_events(s: Seq<Instruction>, l: Seq<TokenAccountView>) -> Result<Seq<
    SplTokenEventView>, ParseError>
    decreases s.len(),
{
    if s.len() == 0 {
        Ok(Seq::empty())
    } else {
        let l1 = spec_update_ledger(l, s[0]);
        if s[0].program_id@ == TOKEN_PROGRAM_ID@ {
            match spec_parse_token_instruction(s[0], l1) {
                Err(e) => Err(e),
                Ok(o) => match spec_token_events(s.drop_first(), l1) {
                    Err(e) => Err(e),
                    Ok(rest) => Ok(seq![SplTokenEventView { event: o }] + rest),
                },
            }
        } else {
            spec_token_events(s.drop_first(), l1)
        }
    }
}

/// Running a concatenation: the ledger threads through, the outputs
/// concatenate, and the first error wins.
pub proof fn lemma_token_run_concat(
    a: Seq<Instruction>,
    b: Seq<Instruction>,
    l: Seq<TokenAccountView>,
)
    ensures
        spec_ledger_after(a + b, l) == spec_ledger_after(b, spec_ledger_after(a, l)),
        spec_token_events(a + b, l) == (match spec_token_events(a, l) {
            Err(e) => Err::<Seq<SplTokenEventView>, ParseError>(e),
            Ok(ea) => match spec_token_events(b, spec_ledger_after(a, l)) {
                Err(e) => Err(e),
                Ok(eb) => Ok(ea + eb),
            },
        }),
    decreases a.len(),
{
    if a.len() == 0 {
        assert(a + b =~= b);
        match spec_token_events(b, l) {
            Err(e) => {},
            Ok(eb) => {
                assert(Seq::<SplTokenEventView>::empty() + eb =~= eb);
            },
        }
    } else {
        let l1 = spec_update_ledger(l, a[0]);
        lemma_token_run_concat(a.drop_first(), b, l1);
        assert((a + b).drop_first() =~= a.drop_first() + b);
        assert((a + b)[0] == a[0]);
        if a[0].program_id@ == TOKEN_PROGRAM_ID@ {
            match spec_parse_token_instruction(a[0], l1) {
                Err(e) => {},
                Ok(o) => {
                    let head = seq![SplTokenEventView { event: o }];
                    match spec_token_events(a.drop_first(), l1) {
                        Err(e) => {},
                        Ok(ea1) => {
                            match spec_token_events(b, spec_ledger_after(a.drop_first(), l1)) {
                                Err(e) => {},
                                Ok(eb) => {
                                    assert(head + (ea1 + eb) =~= (head + ea1) + eb);
                                },
                            }
                        },
                    }
                },
            }
        }
    }
}

/// One unfolding step of the run over a tree: the root updates the ledger
/// and possibly contributes an entry, then the children run on the updated
/// ledger.
pub proof fn lemma_token_events_unfold(i: Instruction, l: Seq<TokenAccountView>)
    ensures
        ({
            let l1 = spec_update_ledger(l, i);
            let children = spec_token_events(flatten_list(i.inner_instructions@), l1);
            &&& spec_ledger_after(flatten_one(i), l) == spec_ledger_after(
                flatten_list(i.inner_instructions@), l1)
            &&& i.program_id@ == TOKEN_PROGRAM_ID@ ==> spec_token_events(flatten_one(i), l) == (
            match spec_parse_token_instruction(i, l1) {
                Err(e) => Err::<Seq<SplTokenEventView>, ParseError>(e),
                Ok(o) => match children {
                    Err(e) => Err(e),
                    Ok(rest) => Ok(seq![SplTokenEventView { event: o }] + rest),
                },
            })
            &&& i.program_id@ != TOKEN_PROGRAM_ID@ ==> spec_token_events(flatten_one(i), l)
                == children
        }),
{
    let s = flatten_one(i);
    assert(s[0] == i);
    assert(s.drop_first() =~= flatten_list(i.inner_instructions@));
    assert(s.len() >= 1);
}


/// Applies one instruction's ledger update, synthesizes its event if the
/// token program owns it, then visits its children in execution order.
fn process_instruction_tree(
    instruction: &Instruction,
    context: &mut TransactionContext,
    events: &mut Vec<SplTokenEvent>,
) -> (r: Result<(), ParseError>)
    ensures
        final(context)@.signature == old(context)@.signature,
        match r {
            Ok(()) => ({
                &&& spec_token_events(flatten_one(*instruction), old(context)@.accounts)
                    matches Ok(es) && token_events_view(final(events)@) == token_events_view(
                    old(events)@) + es
                &&& final(context)@.accounts == spec_ledger_after(flatten_one(*instruction),
                    old(context)@.accounts)
            }),
            Err(e) => spec_token_events(flatten_one(*instruction), old(context)@.accounts)
                == Err::<Seq<SplTokenEventView>, ParseError>(e),
        },
    decreases *instruction,
{
    let ghost l0 = context@.accounts;
    proof {
        lemma_token_events_unfold(*instruction, l0);
    }
    context.update_balance(instruction);
    let ghost l1 = context@.accounts;
    let ghost base = token_events_view(events@);
    let ghost head: Seq<SplTokenEventView> = Seq::empty();
    let is_token = crate::bytes::bytes_eq32(&instruction.program_id, &TOKEN_PROGRAM_ID);
    if is_token {
        match parse_instruction(instruction, context) {
            Ok(event) => {
                let ghost entry = SplTokenEventView { event: opt_event_view(event) };
                let ghost pre = events@;
                events.push(SplTokenEvent { event });
                proof {
                    head = seq![entry];
                    lemma_token_events_view(pre);
                    lemma_token_events_view(events@);
                    assert(token_events_view(events@) =~= base + head);
                }
            },
            Err(e) => {
                return Err(e);
            },
        }
    }
    let ghost mid = token_events_view(events@);
    let n = instruction.inner_instructions.len();
    let mut j: usize = 0;
    proof {
        assert(instruction.inner_instructions@.take(0) =~= Seq::<Instruction>::empty());
        assert(flatten_list(Seq::<Instruction>::empty()) =~= Seq::<Instruction>::empty());
        assert(spec_token_events(Seq::<Instruction>::empty(), l1) == Ok::<Seq<SplTokenEventView>,
            ParseError>(Seq::empty()));
        assert(mid + Seq::<SplTokenEventView>::empty() =~= mid);
    }
    while j < n
        invariant
            n == instruction.inner_instructions@.len(),
            j <= n,
            l0 == old(context)@.accounts,
            l1 == spec_update_ledger(l0, *instruction),
            context@.signature == old(context)@.signature,
            mid == token_events_view(old(events)@) + head,
            is_token == (instruction.program_id@ == TOKEN_PROGRAM_ID@),
            is_token ==> (spec_parse_token_instruction(*instruction, l1) matches Ok(o) && head
                == seq![SplTokenEventView { event: o }]),
            context@.accounts == spec_ledger_after(flatten_list(
                instruction.inner_instructions@.take(j as int)), l1),
            spec_token_events(flatten_list(instruction.inner_instructions@.take(j as int)), l1)
                matches Ok(es) && token_events_view(events@) == mid + es,
        decreases n - j,
    {
        let ghost taken = instruction.inner_instructions@.take(j as int);
        let ghost child = instruction.inner_instructions@[j as int];
        let ghost lc = context@.accounts;
        let ghost pre_events = events@;
        match process_instruction_tree(&instruction.inner_instructions[j], context, events) {
            Ok(()) => {
                proof {
                    let next = instruction.inner_instructions@.take(j as int + 1);
                    assert(next =~= taken + seq![child]);
                    lemma_flatten_concat(taken, seq![child]);
                    lemma_flatten_singleton(child);
                    lemma_token_run_concat(flatten_list(taken), flatten_one(child), l1);
                    let es_prev = spec_token_events(flatten_list(taken), l1)->Ok_0;
                    let es_child = spec_token_events(flatten_one(child), lc)->Ok_0;
                    assert(token_events_view(events@) =~= mid + (es_prev + es_child));
                }
            },
            Err(e) => {
                proof {
                    let next = instruction.inner_instructions@.take(j as int + 1);
                    assert(next =~= taken + seq![child]);
                    lemma_flatten_concat(taken, seq![child]);
                    lemma_flatten_singleton(child);
                    lemma_token_run_concat(flatten_list(taken), flatten_one(child), l1);
                    let whole = instruction.inner_instructions@;
                    assert(whole =~= next + whole.skip(j as int + 1));
                    lemma_flatten_concat(next, whole.skip(j as int + 1));
                    lemma_token_run_concat(flatten_list(next), flatten_list(whole.skip(
                        j as int + 1)), l1);
                    lemma_token_events_unfold(*instruction, l0);
                }
                return Err(e);
            },
        }
        j = j + 1;
    }
    proof {
        assert(instruction.inner_instructions@.take(n as int)
            =~= instruction.inner_instructions@);
        lemma_token_events_unfold(*instruction, l0);
    }
    Ok(())
}

/// Decodes one transaction's token-standard events. A transaction the chain
/// itself marked failed yields no events and no error; otherwise every
/// instruction is visited in flattened execution order, the ledger updated
/// once per instruction, and the first fatal error aborts the transaction,
/// carrying its signature.
pub fn parse_transaction(transaction: &Transaction) -> (r: Result<Vec<SplTokenEvent>,
    TransactionError>)
    ensures
        ({
            let run = spec_token_events(flatten_list(transaction.instructions@), accounts_view(
                transaction.token_balances@));
            &&& transaction.failed ==> (r matches Ok(v) && v@.len() == 0)
            &&& !transaction.failed ==> match r {
                Ok(v) => run == Ok::<Seq<SplTokenEventView>, ParseError>(token_events_view(v@)),
                Err(e) => run == Err::<Seq<SplTokenEventView>, ParseError>(e@.cause)
                    && e@.signature == transaction.signature@,
            }
        }),
{
    let mut events: Vec<SplTokenEvent> = Vec::new();
    if transaction.failed {
        return Ok(events);
    }
    let mut context = get_context(transaction);
    let ghost l0 = context@.accounts;
    let n = transaction.instructions.len();
    let mut i: usize = 0;
    proof {
        assert(transaction.instructions@.take(0) =~= Seq::<Instruction>::empty());
        assert(flatten_list(Seq::<Instruction>::empty()) =~= Seq::<Instruction>::empty());
        assert(spec_token_events(Seq::<Instruction>::empty(), l0) == Ok::<Seq<SplTokenEventView>,
            ParseError>(Seq::empty()));
        lemma_token_events_view(events@);
        assert(token_events_view(events@) =~= Seq::<SplTokenEventView>::empty());
    }
    while i < n
        invariant
            n == transaction.instructions@.len(),
            i <= n,
            !transaction.failed,
            l0 == accounts_view(transaction.token_balances@),
            context@.signature == transaction.signature@,
            context@.accounts == spec_ledger_after(flatten_list(transaction.instructions@.take(
                i as int)), l0),
            spec_token_events(flatten_list(transaction.instructions@.take(i as int)), l0)
                matches Ok(es) && token_events_view(events@) == es,
        decreases n - i,
    {
        let ghost taken = transaction.instructions@.take(i as int);
        let ghost root = transaction.instructions@[i as int];
        let ghost lc = context@.accounts;
        match process_instruction_tree(&transaction.instructions[i], &mut context, &mut events) {
            Ok(()) => {
                proof {
                    let next = transaction.instructions@.take(i as int + 1);
                    assert(next =~= taken + seq![root]);
                    lemma_flatten_concat(taken, seq![root]);
                    lemma_flatten_singleton(root);
                    lemma_token_run_concat(flatten_list(taken), flatten_one(root), l0);
                    let es_prev = spec_token_events(flatten_list(taken), l0)->Ok_0;
                    let es_root = spec_token_events(flatten_one(root), lc)->Ok_0;
                    assert(token_events_view(events@) =~= es_prev + es_root);
                }
            },
            Err(e) => {
                proof {
                    let next = transaction.instructions@.take(i as int + 1);
                    assert(next =~= taken + seq![root]);
                    lemma_flatten_concat(taken, seq![root]);
                    lemma_flatten_singleton(root);
                    lemma_token_run_concat(flatten_list(taken), flatten_one(root), l0);
                    let whole = transaction.instructions@;
                    assert(whole =~= next + whole.skip(i as int + 1));
                    lemma_flatten_concat(next, whole.skip(i as int + 1));
                    lemma_token_run_concat(flatten_list(next), flatten_list(whole.skip(
                        i as int + 1)), l0);
                }
                return Err(TransactionError {
                    signature: copy_bytes(&transaction.signature),
                    cause: e,
                });
            },
        }
        i = i + 1;
    }
    proof {
        assert(transaction.instructions@.take(n as int) =~= transaction.instructions@);
    }
    Ok(events)
}



/// Parses the instruction and keeps only a initialize mint event; any other
/// outcome is an `EventMismatch`.
pub fn parse_initialize_mint_instruction(instruction: &Instruction, context: &TransactionContext) -> (r:
    Result<InitializeMintEvent, ParseError>)
    ensures
        match r {
            Ok(e) => spec_parse_token_instruction(*instruction, context@.accounts)
                == Ok::<Option<EventView>, ParseError>(Some(EventView::InitializeMint(e@))),
            Err(err) => err == ParseError::EventMismatch && !(spec_parse_token_instruction(
                *instruction, context@.accounts) matches Ok(o) && o matches Some(v) && v matches
                EventView::InitializeMint(..)),
        },
{
    match parse_instruction(instruction, context) {
        Ok(Some(Event::InitializeMint(e))) => Ok(e),
        _ => Err(ParseError::EventMismatch),
    }
}


/// Parses the instruction and keeps only a initialize account event; any other
/// outcome is an `EventMismatch`.
pub fn parse_initialize_account_instruction(instruction: &Instruction, context: &TransactionContext) -> (r:
    Result<InitializeAccountEvent, ParseError>)
    ensures
        match r {
            Ok(e) => spec_parse_token_instruction(*instruction, context@.accounts)
                == Ok::<Option<EventView>, ParseError>(Some(EventView::InitializeAccount(e@))),
            Err(err) => err == ParseError::EventMismatch && !(spec_parse_token_instruction(
                *instruction, context@.accounts) matches Ok(o) && o matches Some(v) && v matches
                EventView::InitializeAccount(..)),
        },
{
    match parse_instruction(instruction, context) {
        Ok(Some(Event::InitializeAccount(e))) => Ok(e),
        _ => Err(ParseError::EventMismatch),
    }
}


/// Parses the instruction and keeps only a initialize multisig event; any other
/// outcome is an `EventMismatch`.
pub fn parse_initialize_multisig_instruction(instruction: &Instruction, context: &TransactionContext) -> (r:
    Result<InitializeMultisigEvent, ParseError>)
    ensures
        match r {
            Ok(e) => spec_parse_token_instruction(*instruction, context@.accounts)
                == Ok::<Option<EventView>, ParseError>(Some(EventView::InitializeMultisig(e@))),
            Err(err) => err == ParseError::EventMismatch && !(spec_parse_token_instruction(
                *instruction, context@.accounts) matches Ok(o) && o matches Some(v) && v matches
                EventView::InitializeMultisig(..)),
        },
{
    match parse_instruction(instruction, context) {
        Ok(Some(Event::InitializeMultisig(e))) => Ok(e),
        _ => Err(ParseError::EventMismatch),
    }
}


/// Parses the instruction and keeps only a transfer event; any other
/// outcome is an `EventMismatch`.
pub fn parse_transfer_instruction(instruction: &Instruction, context: &TransactionContext) -> (r:
    Result<TransferEvent, ParseError>)
    ensures
        match r {
            Ok(e) => spec_parse_token_instruction(*instruction, context@.accounts)
                == Ok::<Option<EventView>, ParseError>(Some(EventView::Transfer(e@))),
            Err(err) => err == ParseError::EventMismatch && !(spec_parse_token_instruction(
                *instruction, context@.accounts) matches Ok(o) && o matches Some(v) && v matches
                EventView::Transfer(..)),
        },
{
    match parse_instruction(instruction, context) {
        Ok(Some(Event::Transfer(e))) => Ok(e),
        _ => Err(ParseError::EventMismatch),
    }
}


/// Parses the instruction and keeps only a approve event; any other
/// outcome is an `EventMismatch`.
pub fn parse_approve_instruction(instruction: &Instruction, context: &TransactionContext) -> (r:
    Result<ApproveEvent, ParseError>)
    ensures
        match r {
            Ok(e) => spec_parse_token_instruction(*instruction, context@.accounts)
                == Ok::<Option<EventView>, ParseError>(Some(EventView::Approve(e@))),
            Err(err) => err == ParseError::EventMismatch && !(spec_parse_token_instruction(
                *instruction, context@.accounts) matches Ok(o) && o matches Some(v) && v matches
                EventView::Approve(..)),
        },
{
    match parse_instruction(instruction, context) {
        Ok(Some(Event::Approve(e))) => Ok(e),
        _ => Err(ParseError::EventMismatch),
    }
}


/// Parses the instruction and keeps only a revoke event; any other
/// outcome is an `EventMismatch`.
pub fn parse_revoke_instruction(instruction: &Instruction, context: &TransactionContext) -> (r:
    Result<RevokeEvent, ParseError>)
    ensures
        match r {
            Ok(e) => spec_parse_token_instruction(*instruction, context@.accounts)
                == Ok::<Option<EventView>, ParseError>(Some(EventView::Revoke(e@))),
            Err(err) => err == ParseError::EventMismatch && !(spec_parse_token_instruction(
                *instruction, context@.accounts) matches Ok(o) && o matches Some(v) && v matches
                EventView::Revoke(..)),
        },
{
    match parse_instruction(instruction, context) {
        Ok(Some(Event::Revoke(e))) => Ok(e),
        _ => Err(ParseError::EventMismatch),
    }
}


/// Parses the instruction and keeps only a set authority event; any other
/// outcome is an `EventMismatch`.
pub fn parse_set_authority_instruction(instruction: &Instruction, context: &TransactionContext) -> (r:
    Result<SetAuthorityEvent, ParseError>)
    ensures
        match r {
            Ok(e) => spec_parse_token_instruction(*instruction, context@.accounts)
                == Ok::<Option<EventView>, ParseError>(Some(EventView::SetAuthority(e@))),
            Err(err) => err == ParseError::EventMismatch && !(spec_parse_token_instruction(
                *instruction, context@.accounts) matches Ok(o) && o matches Some(v) && v matches
                EventView::SetAuthority(..)),
        },
{
    match parse_instruction(instruction, context) {
        Ok(Some(Event::SetAuthority(e))) => Ok(e),
        _ => Err(ParseError::EventMismatch),
    }
}


/// Parses the instruction and keeps only a mint to event; any other
/// outcome is an `EventMismatch`.
pub fn parse_mint_to_instruction(instruction: &Instruction, context: &TransactionContext) -> (r:
    Result<MintToEvent, ParseError>)
    ensures
        match r {
            Ok(e) => spec_parse_token_instruction(*instruction, context@.accounts)
                == Ok::<Option<EventView>, ParseError>(Some(EventView::MintTo(e@))),
            Err(err) => err == ParseError::EventMismatch && !(spec_parse_token_instruction(
                *instruction, context@.accounts) matches Ok(o) && o matches Some(v) && v matches
                EventView::MintTo(..)),
        },
{
    match parse_instruction(instruction, context) {
        Ok(Some(Event::MintTo(e))) => Ok(e),
        _ => Err(ParseError::EventMismatch),
    }
}


/// Parses the instruction and keeps only a burn event; any other
/// outcome is an `EventMismatch`.
pub fn parse_burn_instruction(instruction: &Instruction, context: &TransactionContext) -> (r:
    Result<BurnEvent, ParseError>)
    ensures
        match r {
            Ok(e) => spec_parse_token_instruction(*instruction, context@.accounts)
                == Ok::<Option<EventView>, ParseError>(Some(EventView::Burn(e@))),
            Err(err) => err == ParseError::EventMismatch && !(spec_parse_token_instruction(
                *instruction, context@.accounts) matches Ok(o) && o matches Some(v) && v matches
                EventView::Burn(..)),
        },
{
    match parse_instruction(instruction, context) {
        Ok(Some(Event::Burn(e))) => Ok(e),
        _ => Err(ParseError::EventMismatch),
    }
}


/// Parses the instruction and keeps only a close account event; any other
/// outcome is an `EventMismatch`.
pub fn parse_close_account_instruction(instruction: &Instruction, context: &TransactionContext) -> (r:
    Result<CloseAccountEvent, ParseError>)
    ensures
        match r {
            Ok(e) => spec_parse_token_instruction(*instruction, context@.accounts)
                == Ok::<Option<EventView>, ParseError>(Some(EventView::CloseAccount(e@))),
            Err(err) => err == ParseError::EventMismatch && !(spec_parse_token_instruction(
                *instruction, context@.accounts) matches Ok(o) && o matches Some(v) && v matches
                EventView::CloseAccount(..)),
        },
{
    match parse_instruction(instruction, context) {
        Ok(Some(Event::CloseAccount(e))) => Ok(e),
        _ => Err(ParseError::EventMismatch),
    }
}


/// Parses the instruction and keeps only a freeze account event; any other
/// outcome is an `EventMismatch`.
pub fn parse_freeze_account_instruction(instruction: &Instruction, context: &TransactionContext) -> (r:
    Result<FreezeAccountEvent, ParseError>)
    ensures
        match r {
            Ok(e) => spec_parse_token_instruction(*instruction, context@.accounts)
                == Ok::<Option<EventView>, ParseError>(Some(EventView::FreezeAccount(e@))),
            Err(err) => err == ParseError::EventMismatch && !(spec_parse_token_instruction(
                *instruction, context@.accounts) matches Ok(o) && o matches Some(v) && v matches
                EventView::FreezeAccount(..)),
        },
{
    match parse_instruction(instruction, context) {
        Ok(Some(Event::FreezeAccount(e))) => Ok(e),
        _ => Err(ParseError::EventMismatch),
    }
}


/// Parses the instruction and keeps only a thaw account event; any other
/// outcome is an `EventMismatch`.
pub fn parse_thaw_account_instruction(instruction: &Instruction, context: &TransactionContext) -> (r:
    Result<ThawAccountEvent, ParseError>)
    ensures
        match r {
            Ok(e) => spec_parse_token_instruction(*instruction, context@.accounts)
                == Ok::<Option<EventView>, ParseError>(Some(EventView::ThawAccount(e@))),
            Err(err) => err == ParseError::EventMismatch && !(spec_parse_token_instruction(
                *instruction, context@.accounts) matches Ok(o) && o matches Some(v) && v matches
                EventView::ThawAccount(..)),
        },
{
    match parse_instruction(instruction, context) {
        Ok(Some(Event::ThawAccount(e))) => Ok(e),
        _ => Err(ParseError::EventMismatch),
    }
}


/// Parses the instruction and keeps only a initialize immutable owner event; any other
/// outcome is an `EventMismatch`.
pub fn parse_initialize_immutable_owner_instruction(instruction: &Instruction, context: &TransactionContext) -> (r:
    Result<InitializeImmutableOwnerEvent, ParseError>)
    ensures
        match r {
            Ok(e) => spec_parse_token_instruction(*instruction, context@.accounts)
                == Ok::<Option<EventView>, ParseError>(Some(EventView::InitializeImmutableOwner(e@))),
            Err(err) => err == ParseError::EventMismatch && !(spec_parse_token_instruction(
                *instruction, context@.accounts) matches Ok(o) && o matches Some(v) && v matches
                EventView::InitializeImmutableOwner(..)),
        },
{
    match parse_instruction(instruction, context) {
        Ok(Some(Event::InitializeImmutableOwner(e))) => Ok(e),
        _ => Err(ParseError::EventMismatch),
    }
}

} // verus!
