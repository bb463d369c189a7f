//! Domain events of the bonding-curve exchange program, with their
//! mathematical images.

use vstd::prelude::*;

verus! {

/// Which side of a swap the settled amount is denominated in.
#[derive(Clone, Copy, Debug, PartialEq, Eq, Structural)]
pub enum Direction {
    Token,
    Sol,
}

#[derive(Clone, Debug, PartialEq, Eq)]
pub struct InitializeEvent {
    pub user: Vec<u8>,
}

#[derive(Clone, Debug, PartialEq, Eq)]
pub struct SetParamsEvent {
    pub user: Vec<u8>,
    pub fee_recipient: Vec<u8>,
    pub initial_virtual_token_reserves: u64,
    pub initial_virtual_sol_reserves: u64,
    pub initial_real_token_reserves: u64,
    pub token_total_supply: u64,
    pub fee_basis_points: u64,
}

#[derive(Clone, Debug, PartialEq, Eq)]
pub struct CreateEvent {
    pub user: Vec<u8>,
    pub name: Vec<u8>,
    pub symbol: Vec<u8>,
    pub uri: Vec<u8>,
    pub mint: Vec<u8>,
    pub bonding_curve: Vec<u8>,
    pub associated_bonding_curve: Vec<u8>,
    pub metadata: Vec<u8>,
}

/// One buy or sell. The reserve levels come from the trade log record and
/// are unset when that record is absent or malformed; `sol_amount` comes
/// from the correlated native transfer on a buy and from the trade log on a
/// sell.
#[derive(Clone, Debug, PartialEq, Eq)]
pub struct SwapEvent {
    pub user: Vec<u8>,
    pub mint: Vec<u8>,
    pub bonding_curve: Vec<u8>,
    pub sol_amount: Option<u64>,
    pub token_amount: u64,
    pub direction: Direction,
    pub virtual_sol_reserves: Option<u64>,
    pub virtual_token_reserves: Option<u64>,
    pub real_sol_reserves: Option<u64>,
    pub real_token_reserves: Option<u64>,
    pub user_token_pre_balance: u64,
}

#[derive(Clone, Debug, PartialEq, Eq)]
pub struct WithdrawEvent {
    pub mint: Vec<u8>,
}

/// One decoded bonding-curve event.
#[derive(Clone, Debug, PartialEq, Eq)]
pub enum Event {
    Initialize(InitializeEvent),
    SetParams(SetParamsEvent),
    Create(CreateEvent),
    Swap(SwapEvent),
    Withdraw(WithdrawEvent),
}

pub struct InitializeEventView {
    pub user: Seq<u8>,
}

pub struct SetParamsEventView {
    pub user: Seq<u8>,
    pub fee_recipient: Seq<u8>,
    pub initial_virtual_token_reserves: u64,
    pub initial_virtual_sol_reserves: u64,
    pub initial_real_token_reserves: u64,
    pub token_total_supply: u64,
    pub fee_basis_points: u64,
}

pub struct CreateEventView {
    pub user: Seq<u8>,
    pub name: Seq<u8>,
    pub symbol: Seq<u8>,
    pub uri: Seq<u8>,
    pub mint: Seq<u8>,
    pub bonding_curve: Seq<u8>,
    pub associated_bonding_curve: Seq<u8>,
    pub metadata: Seq<u8>,
}

pub struct SwapEventView {
    pub user: Seq<u8>,
    pub mint: Seq<u8>,
    pub bonding_curve: Seq<u8>,
    pub sol_amount: Option<u64>,
    pub token_amount: u64,
    pub direction: Direction,
    pub virtual_sol_reserves: Option<u64>,
    pub virtual_token_reserves: Option<u64>,
    pub real_sol_reserves: Option<u64>,
    pub real_token_reserves: Option<u64>,
    pub user_token_pre_balance: u64,
}

pub struct WithdrawEventView {
    pub mint: Seq<u8>,
}

/// Mathematical image of an `Event`.
pub enum EventView {
    Initialize(InitializeEventView),
    SetParams(SetParamsEventView),
    Create(CreateEventView),
    Swap(SwapEventView),
    Withdraw(WithdrawEventView),
}

impl View for InitializeEvent {
    type V = InitializeEventView;

    open spec fn view(&self) -> InitializeEventView {
        InitializeEventView { user: self.user@ }
    }
}

impl View for SetParamsEvent {
    type V = SetParamsEventView;

    open spec fn view(&self) -> SetParamsEventView {
        SetParamsEventView {
            user: self.user@,
            fee_recipient: self.fee_recipient@,
            initial_virtual_token_reserves: self.initial_virtual_token_reserves,
            initial_virtual_sol_reserves: self.initial_virtual_sol_reserves,
            initial_real_token_reserves: self.initial_real_token_reserves,
            token_total_supply: self.token_total_supply,
            fee_basis_points: self.fee_basis_points,
        }
    }
}

impl View for CreateEvent {
    type V = CreateEventView;

    open spec fn view(&self) -> CreateEventView {
        CreateEventView {
            user: self.user@,
            name: self.name@,
            symbol: self.symbol@,
            uri: self.uri@,
            mint: self.mint@,
            bonding_curve: self.bonding_curve@,
            associated_bonding_curve: self.associated_bonding_curve@,
            metadata: self.metadata@,
        }
    }
}

impl View for SwapEvent {
    type V = SwapEventView;

    open spec fn view(&self) -> SwapEventView {
        SwapEventView {
            user: self.user@,
            mint: self.mint@,
            bonding_curve: self.bonding_curve@,
            sol_amount: self.sol_amount,
            token_amount: self.token_amount,
            direction: self.direction,
            virtual_sol_reserves: self.virtual_sol_reserves,
            virtual_token_reserves: self.virtual_token_reserves,
            real_sol_reserves: self.real_sol_reserves,
            real_token_reserves: self.real_token_reserves,
            user_token_pre_balance: self.user_token_pre_balance,
        }
    }
}

impl View for WithdrawEvent {
    type V = WithdrawEventView;

    open spec fn view(&self) -> WithdrawEventView {
        WithdrawEventView { mint: self.mint@ }
    }
}

impl View for Event {
    type V = EventView;

    open spec fn view(&self) -> EventView {
        match self {
            Event::Initialize(e) => EventView::Initialize(e@),
            Event::SetParams(e) => EventView::SetParams(e@),
            Event::Create(e) => EventView::Create(e@),
            Event::Swap(e) => EventView::Swap(e@),
            Event::Withdraw(e) => EventView::Withdraw(e@),
        }
    }
}

/// Events of one transaction, keyed by its signature, as `parse_block`
/// collects them.
#[derive(Clone, Debug, PartialEq, Eq)]
pub struct PumpfunTransactionEvents {
    pub signature: Vec<u8>,
    pub events: Vec<Event>,
}

/// Mathematical image of a `PumpfunTransactionEvents`.
pub struct PumpfunTransactionEventsView {
    pub signature: Seq<u8>,
    pub events: Seq<EventView>,
}

/// Mathematical image of a list of bonding-curve events.
pub open spec fn pumpfun_events_view(s: Seq<Event>) -> Seq<EventView> {
    s.map_values(|e: Event| e@)
}

/// `pumpfun_events_view` is pointwise: same length, each event viewed in
/// place.
pub proof fn lemma_pumpfun_events_view(s: Seq<Event>)
    ensures
        pumpfun_events_view(s).len() == s.len(),
        forall|k: int| 0 <= k < s.len() ==> pumpfun_events_view(s)[k] == s[k]@,
{
}

/// Mathematical image of an optional bonding-curve event.
pub open spec fn opt_pumpfun_event_view(o: Option<Event>) -> Option<EventView> {
    match o {
        Some(e) => Some(e@),
        None => None,
    }
}

impl View for PumpfunTransactionEvents {
    type V = PumpfunTransactionEventsView;

    open spec fn view(&self) -> PumpfunTransactionEventsView {
        PumpfunTransactionEventsView {
            signature: self.signature@,
            events: pumpfun_events_view(self.events@),
        }
    }
}


/// A whole block's event groups, as the block-level entry point returns
/// them.
#[derive(Clone, Debug, PartialEq, Eq)]
pub struct PumpfunBlockEvents {
    pub transactions: Vec<PumpfunTransactionEvents>,
}

} // verus!
