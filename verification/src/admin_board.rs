//! The messages of the admin board, through which the administrator acts and
//! stakes are settled.

use vstd::prelude::*;

pub mod contract;
pub mod state;
use crate::ticket_manager::{AddTicketMsg, TicketView, UpdateTicketMsg, UpdateTicketMsgView};

verus! {

/// Creates the admin board. The sender becomes the administrator.
#[derive(Debug, Clone, Copy, PartialEq, Eq, Structural)]
pub struct InstantiateMsg {}

impl DeepView for InstantiateMsg {
    type V = InstantiateMsg;

    open spec fn deep_view(&self) -> InstantiateMsg {
        *self
    }
}

/// The calls that the admin board takes.
#[derive(Debug, PartialEq, Eq)]
pub enum ExecuteMsg {
    /// Adds a ticket. Reserved for the administrator.
    AddTicket(AddTicketMsg),
    /// Changes a ticket. Reserved for the administrator.
    UpdateTicket(UpdateTicketMsg),
    /// Removes a ticket. Reserved for the administrator.
    RemoveTicket { tid: u64 },
    /// Has the winner of a ticket decided. Reserved for the administrator.
    DecideWinningBet { tid: u64 },
    /// Settles a stake. Reserved for the ticket manager.
    ReleaseStakeWithSlash(SlashMsg),
    /// Creates a ticket manager from stored code.
    CreateTicketManager { code_id: u64 },
    /// Creates a user board from stored code.
    CreateUsrBoardManager { code_id: u64 },
    /// Creates an auction manager from stored code.
    CreateAuctionManager { code_id: u64 },
    /// Creates a collateral manager from stored code.
    CreateCollateralManager { code_id: u64 },
    /// Replaces the peer addresses. Reserved for the administrator.
    PostConfig(PostConfigMsg),
}

/// The content of [`ExecuteMsg`] as mathematical values.
pub enum ExecuteMsgView {
    AddTicket(TicketView),
    UpdateTicket(UpdateTicketMsgView),
    RemoveTicket { tid: u64 },
    DecideWinningBet { tid: u64 },
    ReleaseStakeWithSlash(SlashMsgView),
    CreateTicketManager { code_id: u64 },
    CreateUsrBoardManager { code_id: u64 },
    CreateAuctionManager { code_id: u64 },
    CreateCollateralManager { code_id: u64 },
    PostConfig(PostConfigMsgView),
}

impl DeepView for ExecuteMsg {
    type V = ExecuteMsgView;

    open spec fn deep_view(&self) -> ExecuteMsgView {
        match self {
            ExecuteMsg::AddTicket(m) => ExecuteMsgView::AddTicket(m.deep_view()),
            ExecuteMsg::UpdateTicket(m) => ExecuteMsgView::UpdateTicket(m.deep_view()),
            ExecuteMsg::RemoveTicket { tid } => ExecuteMsgView::RemoveTicket {
                tid: tid.deep_view(),
            },
            ExecuteMsg::DecideWinningBet { tid } => ExecuteMsgView::DecideWinningBet {
                tid: tid.deep_view(),
            },
            ExecuteMsg::ReleaseStakeWithSlash(m) => {
                ExecuteMsgView::ReleaseStakeWithSlash(m.deep_view())
            },
            ExecuteMsg::CreateTicketManager { code_id } => ExecuteMsgView::CreateTicketManager {
                code_id: code_id.deep_view(),
            },
            ExecuteMsg::CreateUsrBoardManager { code_id } => ExecuteMsgView::CreateUsrBoardManager {
                code_id: code_id.deep_view(),
            },
            ExecuteMsg::CreateAuctionManager { code_id } => ExecuteMsgView::CreateAuctionManager {
                code_id: code_id.deep_view(),
            },
            ExecuteMsg::CreateCollateralManager { code_id } => {
                ExecuteMsgView::CreateCollateralManager { code_id: code_id.deep_view() }
            },
            ExecuteMsg::PostConfig(m) => ExecuteMsgView::PostConfig(m.deep_view()),
        }
    }
}

impl Clone for ExecuteMsg {
    fn clone(&self) -> (copy: Self)
        ensures
            copy == *self,
    {
        match self {
            ExecuteMsg::AddTicket(m) => ExecuteMsg::AddTicket(m.clone()),
            ExecuteMsg::UpdateTicket(m) => ExecuteMsg::UpdateTicket(m.clone()),
            ExecuteMsg::RemoveTicket { tid } => ExecuteMsg::RemoveTicket { tid: *tid },
            ExecuteMsg::DecideWinningBet { tid } => ExecuteMsg::DecideWinningBet { tid: *tid },
            ExecuteMsg::ReleaseStakeWithSlash(m) => ExecuteMsg::ReleaseStakeWithSlash(m.clone()),
            ExecuteMsg::CreateTicketManager { code_id } => ExecuteMsg::CreateTicketManager {
                code_id: *code_id,
            },
            ExecuteMsg::CreateUsrBoardManager { code_id } => ExecuteMsg::CreateUsrBoardManager {
                code_id: *code_id,
            },
            ExecuteMsg::CreateAuctionManager { code_id } => ExecuteMsg::CreateAuctionManager {
                code_id: *code_id,
            },
            ExecuteMsg::CreateCollateralManager { code_id } => ExecuteMsg::CreateCollateralManager {
                code_id: *code_id,
            },
            ExecuteMsg::PostConfig(m) => ExecuteMsg::PostConfig(m.clone()),
        }
    }
}

/// Asks for the stake of a worker to be settled with a part withheld.
#[derive(Debug, PartialEq, Eq)]
pub struct SlashMsg {
    /// The ticket.
    pub tid: u64,
    /// The worker whose stake is settled.
    pub worker: String,
    /// The part to withhold, in thousandths of the collateral.
    pub slash_perc: u128,
}

/// The content of [`SlashMsg`] as mathematical values.
pub struct SlashMsgView {
    pub tid: u64,
    pub worker: Seq<char>,
    pub slash_perc: u128,
}

impl DeepView for SlashMsg {
    type V = SlashMsgView;

    open spec fn deep_view(&self) -> SlashMsgView {
        SlashMsgView {
            tid: self.tid.deep_view(),
            worker: self.worker.deep_view(),
            slash_perc: self.slash_perc.deep_view(),
        }
    }
}

impl Clone for SlashMsg {
    fn clone(&self) -> (copy: Self)
        ensures
            copy == *self,
    {
        SlashMsg {
            tid: self.tid,
            worker: self.worker.clone(),
            slash_perc: self.slash_perc,
        }
    }
}

/// The questions that the admin board passes on to the ticket manager.
#[derive(Debug, Clone, Copy, PartialEq, Eq, Structural)]
pub enum QueryMsg {
    /// The ticket with this number.
    QueryTicketInfo { tid: u64 },
    /// The worker that this ticket is assigned to.
    QueryTicketWorker { tid: u64 },
}

impl DeepView for QueryMsg {
    type V = QueryMsg;

    open spec fn deep_view(&self) -> QueryMsg {
        *self
    }
}

/// New peer addresses for the admin board. All four are replaced.
#[derive(Debug, PartialEq, Eq)]
pub struct PostConfigMsg {
    /// The ticket manager.
    pub ticket_manager: Option<String>,
    /// The collateral manager.
    pub collateral_manager: Option<String>,
    /// The auction manager.
    pub auction_manager: Option<String>,
    /// The user board.
    pub user_board: Option<String>,
}

/// The content of [`PostConfigMsg`] as mathematical values.
pub struct PostConfigMsgView {
    pub ticket_manager: Option<Seq<char>>,
    pub collateral_manager: Option<Seq<char>>,
    pub auction_manager: Option<Seq<char>>,
    pub user_board: Option<Seq<char>>,
}

impl DeepView for PostConfigMsg {
    type V = PostConfigMsgView;

    open spec fn deep_view(&self) -> PostConfigMsgView {
        PostConfigMsgView {
            ticket_manager: self.ticket_manager.deep_view(),
            collateral_manager: self.collateral_manager.deep_view(),
            auction_manager: self.auction_manager.deep_view(),
            user_board: self.user_board.deep_view(),
        }
    }
}

impl Clone for PostConfigMsg {
    fn clone(&self) -> (copy: Self)
        ensures
            copy == *self,
    {
        PostConfigMsg {
            ticket_manager: self.ticket_manager.clone(),
            collateral_manager: self.collateral_manager.clone(),
            auction_manager: self.auction_manager.clone(),
            user_board: self.user_board.clone(),
        }
    }
}

/// Asks the admin board to migrate. It carries nothing.
#[derive(Debug, Clone, Copy, PartialEq, Eq, Structural)]
pub struct MigrateMsg {}

impl DeepView for MigrateMsg {
    type V = MigrateMsg;

    open spec fn deep_view(&self) -> MigrateMsg {
        *self
    }
}

} // verus!
