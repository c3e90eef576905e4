//! The messages of the auction manager, the service that owns the bets.

use vstd::prelude::*;

pub mod contract;
pub mod state;

verus! {

/// Creates the auction manager. The sender becomes its admin board.
#[derive(Debug, PartialEq, Eq)]
pub struct InstantiateMsg {
    /// The ticket manager that winners are reported to.
    pub ticket_manager: String,
    /// The user board, the only caller that may place a bet.
    pub user_board: String,
}

/// The content of [`InstantiateMsg`] as mathematical values.
pub struct InstantiateMsgView {
    pub ticket_manager: Seq<char>,
    pub user_board: Seq<char>,
}

impl DeepView for InstantiateMsg {
    type V = InstantiateMsgView;

    open spec fn deep_view(&self) -> InstantiateMsgView {
        InstantiateMsgView {
            ticket_manager: self.ticket_manager.deep_view(),
            user_board: self.user_board.deep_view(),
        }
    }
}

impl Clone for InstantiateMsg {
    fn clone(&self) -> (copy: Self)
        ensures
            copy == *self,
    {
        InstantiateMsg {
            ticket_manager: self.ticket_manager.clone(),
            user_board: self.user_board.clone(),
        }
    }
}

/// The calls that change the auction manager.
#[derive(Debug, PartialEq, Eq)]
pub enum ExecuteMsg {
    /// Places a bet. Reserved for the user board.
    PlaceBet(PlaceBetMsg),
    /// Picks the lowest bet of a ticket. Reserved for the admin board.
    DecideWinningBet { tid: u64 },
}

/// The content of [`ExecuteMsg`] as mathematical values.
pub enum ExecuteMsgView {
    PlaceBet(PlaceBetMsgView),
    DecideWinningBet { tid: u64 },
}

impl DeepView for ExecuteMsg {
    type V = ExecuteMsgView;

    open spec fn deep_view(&self) -> ExecuteMsgView {
        match self {
            ExecuteMsg::PlaceBet(m) => ExecuteMsgView::PlaceBet(m.deep_view()),
            ExecuteMsg::DecideWinningBet { tid } => ExecuteMsgView::DecideWinningBet {
                tid: tid.deep_view(),
            },
        }
    }
}

impl Clone for ExecuteMsg {
    fn clone(&self) -> (copy: Self)
        ensures
            copy == *self,
    {
        match self {
            ExecuteMsg::PlaceBet(m) => ExecuteMsg::PlaceBet(m.clone()),
            ExecuteMsg::DecideWinningBet { tid } => ExecuteMsg::DecideWinningBet { tid: *tid },
        }
    }
}

/// The questions that the auction manager answers.
#[derive(Debug, Clone, Copy, PartialEq, Eq, Structural)]
pub enum QueryMsg {
    /// The tickets that have open bets, ascending.
    BetAvailableTickets,
    /// The open bets of a ticket, oldest first.
    CurrActiveBets { tid: u64 },
}

impl DeepView for QueryMsg {
    type V = QueryMsg;

    open spec fn deep_view(&self) -> QueryMsg {
        *self
    }
}

/// Asks the auction manager to migrate. It carries nothing.
#[derive(Debug, Clone, Copy, PartialEq, Eq, Structural)]
pub struct MigrateMsg {}

impl DeepView for MigrateMsg {
    type V = MigrateMsg;

    open spec fn deep_view(&self) -> MigrateMsg {
        *self
    }
}

/// A bet that the user board places for a worker.
#[derive(Debug, PartialEq, Eq)]
pub struct PlaceBetMsg {
    /// The ticket that is bid for.
    pub ticket_id: u64,
    /// The account of the bidding worker.
    pub workder: String,
    /// The price the worker asks.
    pub bet_amount: u64,
}

/// The content of [`PlaceBetMsg`] as mathematical values.
pub struct PlaceBetMsgView {
    pub ticket_id: u64,
    pub workder: Seq<char>,
    pub bet_amount: u64,
}

impl DeepView for PlaceBetMsg {
    type V = PlaceBetMsgView;

    open spec fn deep_view(&self) -> PlaceBetMsgView {
        PlaceBetMsgView {
            ticket_id: self.ticket_id.deep_view(),
            workder: self.workder.deep_view(),
            bet_amount: self.bet_amount.deep_view(),
        }
    }
}

impl Clone for PlaceBetMsg {
    fn clone(&self) -> (copy: Self)
        ensures
            copy == *self,
    {
        PlaceBetMsg {
            ticket_id: self.ticket_id,
            workder: self.workder.clone(),
            bet_amount: self.bet_amount,
        }
    }
}

} // verus!
