//! Domain events of the token-standard program, one per instruction kind,
//! with their mathematical images.

use vstd::prelude::*;
use crate::model::{TokenAccount, TokenAccountView};
use crate::token_instruction::AuthorityType;

verus! {

/// Mathematical image of a list of account addresses.
pub open spec fn keys_view(s: Seq<Vec<u8>>) -> Seq<Seq<u8>> {
    s.map_values(|v: Vec<u8>| v@)
}

/// `keys_view` is pointwise: same length, each address viewed in place.
pub proof fn lemma_keys_view(s: Seq<Vec<u8>>)
    ensures
        keys_view(s).len() == s.len(),
        forall|k: int| 0 <= k < s.len() ==> keys_view(s)[k] == s[k]@,
{
}

#[derive(Clone, Debug, PartialEq, Eq)]
pub struct InitializeMintEvent {
    pub mint: Vec<u8>,
    pub decimals: u32,
    pub mint_authority: Vec<u8>,
    pub freeze_authority: Option<Vec<u8>>,
}

#[derive(Clone, Debug, PartialEq, Eq)]
pub struct InitializeAccountEvent {
    pub account: TokenAccount,
}

#[derive(Clone, Debug, PartialEq, Eq)]
pub struct InitializeMultisigEvent {
    pub multisig: Vec<u8>,
    pub signers: Vec<Vec<u8>>,
    pub m: u32,
}

#[derive(Clone, Debug, PartialEq, Eq)]
pub struct TransferEvent {
    pub source: TokenAccount,
    pub destination: TokenAccount,
    pub amount: u64,
    pub authority: Vec<u8>,
}

#[derive(Clone, Debug, PartialEq, Eq)]
pub struct ApproveEvent {
    pub source: TokenAccount,
    pub delegate: Vec<u8>,
    pub amount: u64,
}

#[derive(Clone, Debug, PartialEq, Eq)]
pub struct RevokeEvent {
    pub source: TokenAccount,
}

#[derive(Clone, Debug, PartialEq, Eq)]
pub struct SetAuthorityEvent {
    pub mint: Vec<u8>,
    pub authority: Vec<u8>,
    pub authority_type: AuthorityType,
    pub new_authority: Option<Vec<u8>>,
}

#[derive(Clone, Debug, PartialEq, Eq)]
pub struct MintToEvent {
    pub mint: Vec<u8>,
    pub destination: TokenAccount,
    pub mint_authority: Vec<u8>,
    pub amount: u64,
}

#[derive(Clone, Debug, PartialEq, Eq)]
pub struct BurnEvent {
    pub source: TokenAccount,
    pub authority: Vec<u8>,
    pub amount: u64,
}

#[derive(Clone, Debug, PartialEq, Eq)]
pub struct CloseAccountEvent {
    pub source: TokenAccount,
    pub destination: Vec<u8>,
}

#[derive(Clone, Debug, PartialEq, Eq)]
pub struct FreezeAccountEvent {
    pub source: TokenAccount,
    pub freeze_authority: Vec<u8>,
}

#[derive(Clone, Debug, PartialEq, Eq)]
pub struct ThawAccountEvent {
    pub source: TokenAccount,
    pub freeze_authority: Vec<u8>,
}

#[derive(Clone, Debug, PartialEq, Eq)]
pub struct InitializeImmutableOwnerEvent {
    pub account: TokenAccount,
}

#[derive(Clone, Debug, PartialEq, Eq)]
pub struct SyncNativeEvent {
    pub account: TokenAccount,
}

/// One decoded token-standard event.
#[derive(Clone, Debug, PartialEq, Eq)]
pub enum Event {
    InitializeMint(InitializeMintEvent),
    InitializeAccount(InitializeAccountEvent),
    InitializeMultisig(InitializeMultisigEvent),
    Transfer(TransferEvent),
    Approve(ApproveEvent),
    Revoke(RevokeEvent),
    SetAuthority(SetAuthorityEvent),
    MintTo(MintToEvent),
    Burn(BurnEvent),
    CloseAccount(CloseAccountEvent),
    FreezeAccount(FreezeAccountEvent),
    ThawAccount(ThawAccountEvent),
    InitializeImmutableOwner(InitializeImmutableOwnerEvent),
    SyncNative(SyncNativeEvent),
}

/// One entry of a transaction's output: the decoded event, or nothing for a
/// recognized but unmapped instruction.
#[derive(Clone, Debug, PartialEq, Eq)]
pub struct SplTokenEvent {
    pub event: Option<Event>,
}

pub struct InitializeMintEventView {
    pub mint: Seq<u8>,
    pub decimals: u32,
    pub mint_authority: Seq<u8>,
    pub freeze_authority: Option<Seq<u8>>,
}

pub struct InitializeAccountEventView {
    pub account: TokenAccountView,
}

pub struct InitializeMultisigEventView {
    pub multisig: Seq<u8>,
    pub signers: Seq<Seq<u8>>,
    pub m: u32,
}

pub struct TransferEventView {
    pub source: TokenAccountView,
    pub destination: TokenAccountView,
    pub amount: u64,
    pub authority: Seq<u8>,
}

pub struct ApproveEventView {
    pub source: TokenAccountView,
    pub delegate: Seq<u8>,
    pub amount: u64,
}

pub struct RevokeEventView {
    pub source: TokenAccountView,
}

pub struct SetAuthorityEventView {
    pub mint: Seq<u8>,
    pub authority: Seq<u8>,
    pub authority_type: AuthorityType,
    pub new_authority: Option<Seq<u8>>,
}

pub struct MintToEventView {
    pub mint: Seq<u8>,
    pub destination: TokenAccountView,
    pub mint_authority: Seq<u8>,
    pub amount: u64,
}

pub struct BurnEventView {
    pub source: TokenAccountView,
    pub authority: Seq<u8>,
    pub amount: u64,
}

pub struct CloseAccountEventView {
    pub source: TokenAccountView,
    pub destination: Seq<u8>,
}

pub struct FreezeAccountEventView {
    pub source: TokenAccountView,
    pub freeze_authority: Seq<u8>,
}

pub struct ThawAccountEventView {
    pub source: TokenAccountView,
    pub freeze_authority: Seq<u8>,
}

pub struct InitializeImmutableOwnerEventView {
    pub account: TokenAccountView,
}

pub struct SyncNativeEventView {
    pub account: TokenAccountView,
}

/// Mathematical image of an `Event`.
pub enum EventView {
    InitializeMint(InitializeMintEventView),
    InitializeAccount(InitializeAccountEventView),
    InitializeMultisig(InitializeMultisigEventView),
    Transfer(TransferEventView),
    Approve(ApproveEventView),
    Revoke(RevokeEventView),
    SetAuthority(SetAuthorityEventView),
    MintTo(MintToEventView),
    Burn(BurnEventView),
    CloseAccount(CloseAccountEventView),
    FreezeAccount(FreezeAccountEventView),
    ThawAccount(ThawAccountEventView),
    InitializeImmutableOwner(InitializeImmutableOwnerEventView),
    SyncNative(SyncNativeEventView),
}

/// Mathematical image of a `SplTokenEvent`.
pub struct SplTokenEventView {
    pub event: Option<EventView>,
}

impl View for InitializeMintEvent {
    type V = InitializeMintEventView;

    open spec fn view(&self) -> InitializeMintEventView {
        InitializeMintEventView {
            mint: self.mint@,
            decimals: self.decimals,
            mint_authority: self.mint_authority@,
            freeze_authority: crate::bytes::opt_bytes_view(self.freeze_authority),
        }
    }
}

impl View for InitializeAccountEvent {
    type V = InitializeAccountEventView;

    open spec fn view(&self) -> InitializeAccountEventView {
        InitializeAccountEventView { account: self.account@ }
    }
}

impl View for InitializeMultisigEvent {
    type V = InitializeMultisigEventView;

    open spec fn view(&self) -> InitializeMultisigEventView {
        InitializeMultisigEventView {
            multisig: self.multisig@,
            signers: keys_view(self.signers@),
            m: self.m,
        }
    }
}

impl View for TransferEvent {
    type V = TransferEventView;

    open spec fn view(&self) -> TransferEventView {
        TransferEventView {
            source: self.source@,
            destination: self.destination@,
            amount: self.amount,
            authority: self.authority@,
        }
    }
}

impl View for ApproveEvent {
    type V = ApproveEventView;

    open spec fn view(&self) -> ApproveEventView {
        ApproveEventView { source: self.source@, delegate: self.delegate@, amount: self.amount }
    }
}

impl View for RevokeEvent {
    type V = RevokeEventView;

    open spec fn view(&self) -> RevokeEventView {
        RevokeEventView { source: self.source@ }
    }
}

impl View for SetAuthorityEvent {
    type V = SetAuthorityEventView;

    open spec fn view(&self) -> SetAuthorityEventView {
        SetAuthorityEventView {
            mint: self.mint@,
            authority: self.authority@,
            authority_type: self.authority_type,
            new_authority: crate::bytes::opt_bytes_view(self.new_authority),
        }
    }
}

impl View for MintToEvent {
    type V = MintToEventView;

    open spec fn view(&self) -> MintToEventView {
        MintToEventView {
            mint: self.mint@,
            destination: self.destination@,
            mint_authority: self.mint_authority@,
            amount: self.amount,
        }
    }
}

impl View for BurnEvent {
    type V = BurnEventView;

    open spec fn view(&self) -> BurnEventView {
        BurnEventView { source: self.source@, authority: self.authority@, amount: self.amount }
    }
}

impl View for CloseAccountEvent {
    type V = CloseAccountEventView;

    open spec fn view(&self) -> CloseAccountEventView {
        CloseAccountEventView { source: self.source@, destination: self.destination@ }
    }
}

impl View for FreezeAccountEvent {
    type V = FreezeAccountEventView;

    open spec fn view(&self) -> FreezeAccountEventView {
        FreezeAccountEventView { source: self.source@, freeze_authority: self.freeze_authority@ }
    }
}

impl View for ThawAccountEvent {
    type V = ThawAccountEventView;

    open spec fn view(&self) -> ThawAccountEventView {
        ThawAccountEventView { source: self.source@, freeze_authority: self.freeze_authority@ }
    }
}

impl View for InitializeImmutableOwnerEvent {
    type V = InitializeImmutableOwnerEventView;

    open spec fn view(&self) -> InitializeImmutableOwnerEventView {
        InitializeImmutableOwnerEventView { account: self.account@ }
    }
}

impl View for SyncNativeEvent {
    type V = SyncNativeEventView;

    open spec fn view(&self) -> SyncNativeEventView {
        SyncNativeEventView { account: self.account@ }
    }
}

impl View for Event {
    type V = EventView;

    open spec fn view(&self) -> EventView {
        match self {
            Event::InitializeMint(e) => EventView::InitializeMint(e@),
            Event::InitializeAccount(e) => EventView::InitializeAccount(e@),
            Event::InitializeMultisig(e) => EventView::InitializeMultisig(e@),
            Event::Transfer(e) => EventView::Transfer(e@),
            Event::Approve(e) => EventView::Approve(e@),
            Event::Revoke(e) => EventView::Revoke(e@),
            Event::SetAuthority(e) => EventView::SetAuthority(e@),
            Event::MintTo(e) => EventView::MintTo(e@),
            Event::Burn(e) => EventView::Burn(e@),
            Event::CloseAccount(e) => EventView::CloseAccount(e@),
            Event::FreezeAccount(e) => EventView::FreezeAccount(e@),
            Event::ThawAccount(e) => EventView::ThawAccount(e@),
            Event::InitializeImmutableOwner(e) => EventView::InitializeImmutableOwner(e@),
            Event::SyncNative(e) => EventView::SyncNative(e@),
        }
    }
}

/// Mathematical image of an optional event.
pub open spec fn opt_event_view(o: Option<Event>) -> Option<EventView> {
    match o {
        Some(e) => Some(e@),
        None => None,
    }
}

impl View for SplTokenEvent {
    type V = SplTokenEventView;

    open spec fn view(&self) -> SplTokenEventView {
        SplTokenEventView { event: opt_event_view(self.event) }
    }
}

} // verus!
