//! The messages of the user board, the entry point for workers.

use vstd::prelude::*;

pub mod contract;
pub mod state;
use crate::collateral_manager::{QueryStakeStatusMsg, QueryStakeStatusMsgView};
use crate::ticket_manager::{TicketResultMsg, TicketResultMsgView};

verus! {

/// Creates the user board. The sender becomes its admin board.
#[derive(Debug, PartialEq, Eq)]
pub struct InstantiateMsg {
    /// The ticket manager.
    pub ticket_manager: Option<String>,
    /// The collateral manager.
    pub collateral_manater: Option<String>,
    /// The auction manager.
    pub auction_manager: Option<String>,
}

/// The content of [`InstantiateMsg`] as mathematical values.
pub struct InstantiateMsgView {
    pub ticket_manager: Option<Seq<char>>,
    pub collateral_manater: Option<Seq<char>>,
    pub auction_manager: Option<Seq<char>>,
}

impl DeepView for InstantiateMsg {
    type V = InstantiateMsgView;

    open spec fn deep_view(&self) -> InstantiateMsgView {
        InstantiateMsgView {
            ticket_manager: self.ticket_manager.deep_view(),
            collateral_manater: self.collateral_manater.deep_view(),
            auction_manager: self.auction_manager.deep_view(),
        }
    }
}

impl Clone for InstantiateMsg {
    fn clone(&self) -> (copy: Self)
        ensures
            copy == *self,
    {
        InstantiateMsg {
            ticket_manager: self.ticket_manager.clone(),
            collateral_manater: self.collateral_manater.clone(),
            auction_manager: self.auction_manager.clone(),
        }
    }
}

/// The calls that a worker makes through the user board.
#[derive(Debug, PartialEq, Eq)]
pub enum ExecuteMsg {
    /// Bids for a ticket. The worker needs a locked stake.
    PlaceBet(PlaceBetMsg),
    /// Locks the attached funds as the stake for a ticket.
    LockStake { tid: u64 },
    /// Submits a result. Reserved for the assigned worker.
    SubmitResult(TicketResultMsg),
    /// Replaces the peer addresses. Reserved for the admin board.
    PostConfig(PostConfigMsg),
}

/// The content of [`ExecuteMsg`] as mathematical values.
pub enum ExecuteMsgView {
    PlaceBet(PlaceBetMsg),
    LockStake { tid: u64 },
    SubmitResult(TicketResultMsgView),
    PostConfig(PostConfigMsgView),
}

impl DeepView for ExecuteMsg {
    type V = ExecuteMsgView;

    open spec fn deep_view(&self) -> ExecuteMsgView {
        match self {
            ExecuteMsg::PlaceBet(m) => ExecuteMsgView::PlaceBet(m.deep_view()),
            ExecuteMsg::LockStake { tid } => ExecuteMsgView::LockStake { tid: tid.deep_view() },
            ExecuteMsg::SubmitResult(m) => ExecuteMsgView::SubmitResult(m.deep_view()),
            ExecuteMsg::PostConfig(m) => ExecuteMsgView::PostConfig(m.deep_view()),
        }
    }
}

impl Clone for ExecuteMsg {
    fn clone(&self) -> (copy: Self)
        ensures
            copy == *self,
    {
        match self {
            ExecuteMsg::PlaceBet(m) => ExecuteMsg::PlaceBet(m.clone()),
            ExecuteMsg::LockStake { tid } => ExecuteMsg::LockStake { tid: *tid },
            ExecuteMsg::SubmitResult(m) => ExecuteMsg::SubmitResult(m.clone()),
            ExecuteMsg::PostConfig(m) => ExecuteMsg::PostConfig(m.clone()),
        }
    }
}

/// A bet by the calling worker.
#[derive(Debug, Clone, Copy, PartialEq, Eq, Structural)]
pub struct PlaceBetMsg {
    /// The ticket that is bid for.
    pub ticket_id: u64,
    /// The price the worker asks.
    pub bet_amount: u64,
}

impl DeepView for PlaceBetMsg {
    type V = PlaceBetMsg;

    open spec fn deep_view(&self) -> PlaceBetMsg {
        *self
    }
}

/// New peer addresses for the user board. All three are replaced.
#[derive(Debug, PartialEq, Eq)]
pub struct PostConfigMsg {
    /// The ticket manager.
    pub ticket_manager: Option<String>,
    /// The collateral manager.
    pub collateral_manager: Option<String>,
    /// The auction manager.
    pub auction_manager: Option<String>,
}

/// The content of [`PostConfigMsg`] as mathematical values.
pub struct PostConfigMsgView {
    pub ticket_manager: Option<Seq<char>>,
    pub collateral_manager: Option<Seq<char>>,
    pub auction_manager: Option<Seq<char>>,
}

impl DeepView for PostConfigMsg {
    type V = PostConfigMsgView;

    open spec fn deep_view(&self) -> PostConfigMsgView {
        PostConfigMsgView {
            ticket_manager: self.ticket_manager.deep_view(),
            collateral_manager: self.collateral_manager.deep_view(),
            auction_manager: self.auction_manager.deep_view(),
        }
    }
}

impl Clone for PostConfigMsg {
    fn clone(&self) -> (copy: Self)
        ensures
            copy == *self,
    {
        PostConfigMsg {
            ticket_manager: self.ticket_manager.clone(),
            collateral_manager: self.collateral_manager.clone(),
            auction_manager: self.auction_manager.clone(),
        }
    }
}

/// The questions that the user board passes on.
#[derive(Debug, PartialEq, Eq)]
pub enum QueryMsg {
    /// The tickets that have open bets.
    QueryBetAvailTickets {},
    /// Whether a worker has a stake locked for a ticket.
    QueryStakeStatus(QueryStakeStatusMsg),
}

/// The content of [`QueryMsg`] as mathematical values.
pub enum QueryMsgView {
    QueryBetAvailTickets {},
    QueryStakeStatus(QueryStakeStatusMsgView),
}

impl DeepView for QueryMsg {
    type V = QueryMsgView;

    open spec fn deep_view(&self) -> QueryMsgView {
        match self {
            QueryMsg::QueryBetAvailTickets {} => QueryMsgView::QueryBetAvailTickets {},
            QueryMsg::QueryStakeStatus(m) => QueryMsgView::QueryStakeStatus(m.deep_view()),
        }
    }
}

impl Clone for QueryMsg {
    fn clone(&self) -> (copy: Self)
        ensures
            copy == *self,
    {
        match self {
            QueryMsg::QueryBetAvailTickets {} => QueryMsg::QueryBetAvailTickets {},
            QueryMsg::QueryStakeStatus(m) => QueryMsg::QueryStakeStatus(m.clone()),
        }
    }
}

/// Asks the user board to migrate. It carries nothing.
#[derive(Debug, Clone, Copy, PartialEq, Eq, Structural)]
pub struct MigrateMsg {}

impl DeepView for MigrateMsg {
    type V = MigrateMsg;

    open spec fn deep_view(&self) -> MigrateMsg {
        *self
    }
}

} // verus!
