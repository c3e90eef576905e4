//! The messages of the ticket manager, the service that owns the tickets and
//! the assignments.

use vstd::prelude::*;

pub mod contract;
pub mod state;

verus! {

/// Creates the ticket manager. The sender becomes its admin board.
#[derive(Debug, PartialEq, Eq)]
pub struct InstantiateMsg {
    /// The auction manager, the only caller that may record a winner.
    pub auction_manager: Option<String>,
    /// The user board that forwards submissions.
    pub user_board: Option<String>,
}

/// The content of [`InstantiateMsg`] as mathematical values.
pub struct InstantiateMsgView {
    pub auction_manager: Option<Seq<char>>,
    pub user_board: Option<Seq<char>>,
}

impl DeepView for InstantiateMsg {
    type V = InstantiateMsgView;

    open spec fn deep_view(&self) -> InstantiateMsgView {
        InstantiateMsgView {
            auction_manager: self.auction_manager.deep_view(),
            user_board: self.user_board.deep_view(),
        }
    }
}

impl Clone for InstantiateMsg {
    fn clone(&self) -> (copy: Self)
        ensures
            copy == *self,
    {
        InstantiateMsg {
            auction_manager: self.auction_manager.clone(),
            user_board: self.user_board.clone(),
        }
    }
}

/// The calls that change the ticket manager.
#[derive(Debug, PartialEq, Eq)]
pub enum ExecuteMsg {
    /// Adds a ticket. Reserved for the admin board.
    AddTicket(AddTicketMsg),
    /// Changes fields of a ticket. Reserved for the admin board.
    UpdateTicket(UpdateTicketMsg),
    /// Removes a ticket. Reserved for the admin board.
    RemoveTicket { tid: u64 },
    /// Records the winner of a ticket. Reserved for the auction manager.
    SaveTicketWorker(TicketWorkerPair),
    /// Assesses a submitted result and asks the admin board to settle the stake.
    AssessSubmission(TicketResultMsg),
    /// Replaces the peer addresses. Reserved for the admin board.
    PostConfig(PostConfigMsg),
}

/// The content of [`ExecuteMsg`] as mathematical values.
pub enum ExecuteMsgView {
    AddTicket(TicketView),
    UpdateTicket(UpdateTicketMsgView),
    RemoveTicket { tid: u64 },
    SaveTicketWorker(TicketWorkerPairView),
    AssessSubmission(TicketResultMsgView),
    PostConfig(PostConfigMsgView),
}

impl DeepView for ExecuteMsg {
    type V = ExecuteMsgView;

    open spec fn deep_view(&self) -> ExecuteMsgView {
        match self {
            ExecuteMsg::AddTicket(m) => ExecuteMsgView::AddTicket(m.deep_view()),
            ExecuteMsg::UpdateTicket(m) => ExecuteMsgView::UpdateTicket(m.deep_view()),
            ExecuteMsg::RemoveTicket { tid } => ExecuteMsgView::RemoveTicket {
                tid: tid.deep_view(),
            },
            ExecuteMsg::SaveTicketWorker(m) => ExecuteMsgView::SaveTicketWorker(m.deep_view()),
            ExecuteMsg::AssessSubmission(m) => ExecuteMsgView::AssessSubmission(m.deep_view()),
            ExecuteMsg::PostConfig(m) => ExecuteMsgView::PostConfig(m.deep_view()),
        }
    }
}

impl Clone for ExecuteMsg {
    fn clone(&self) -> (copy: Self)
        ensures
            copy == *self,
    {
        match self {
            ExecuteMsg::AddTicket(m) => ExecuteMsg::AddTicket(m.clone()),
            ExecuteMsg::UpdateTicket(m) => ExecuteMsg::UpdateTicket(m.clone()),
            ExecuteMsg::RemoveTicket { tid } => ExecuteMsg::RemoveTicket { tid: *tid },
            ExecuteMsg::SaveTicketWorker(m) => ExecuteMsg::SaveTicketWorker(m.clone()),
            ExecuteMsg::AssessSubmission(m) => ExecuteMsg::AssessSubmission(m.clone()),
            ExecuteMsg::PostConfig(m) => ExecuteMsg::PostConfig(m.clone()),
        }
    }
}

/// A ticket to add.
#[derive(Debug, PartialEq, Eq)]
pub struct AddTicketMsg {
    /// The number that names the ticket.
    pub id: u64,
    /// The second from which the winner may be decided.
    pub bet_finish_timestamp: u64,
    /// The last second at which a result is on time.
    pub close_timestamp: u64,
    /// The result that a correct submission gives.
    pub result: String,
    /// The amount a worker locks before bidding.
    pub collateral: u64,
}

impl DeepView for AddTicketMsg {
    type V = TicketView;

    open spec fn deep_view(&self) -> TicketView {
        TicketView {
            id: self.id.deep_view(),
            bet_finish_timestamp: self.bet_finish_timestamp.deep_view(),
            close_timestamp: self.close_timestamp.deep_view(),
            result: self.result.deep_view(),
            collateral: self.collateral.deep_view(),
        }
    }
}

impl Clone for AddTicketMsg {
    fn clone(&self) -> (copy: Self)
        ensures
            copy == *self,
    {
        AddTicketMsg {
            id: self.id,
            bet_finish_timestamp: self.bet_finish_timestamp,
            close_timestamp: self.close_timestamp,
            result: self.result.clone(),
            collateral: self.collateral,
        }
    }
}

/// New values for a ticket. A field that is `None` stays as it is.
#[derive(Debug, PartialEq, Eq)]
pub struct UpdateTicketMsg {
    /// The ticket to change.
    pub id: u64,
    /// The new bet deadline, if it changes.
    pub bet_finish_timestamp: Option<u64>,
    /// The new close deadline, if it changes.
    pub close_timestamp: Option<u64>,
    /// The new expected result, if it changes.
    pub result: Option<String>,
    /// The new collateral, if it changes.
    pub collateral: Option<u64>,
}

/// The content of [`UpdateTicketMsg`] as mathematical values.
pub struct UpdateTicketMsgView {
    pub id: u64,
    pub bet_finish_timestamp: Option<u64>,
    pub close_timestamp: Option<u64>,
    pub result: Option<Seq<char>>,
    pub collateral: Option<u64>,
}

impl DeepView for UpdateTicketMsg {
    type V = UpdateTicketMsgView;

    open spec fn deep_view(&self) -> UpdateTicketMsgView {
        UpdateTicketMsgView {
            id: self.id.deep_view(),
            bet_finish_timestamp: self.bet_finish_timestamp.deep_view(),
            close_timestamp: self.close_timestamp.deep_view(),
            result: self.result.deep_view(),
            collateral: self.collateral.deep_view(),
        }
    }
}

impl Clone for UpdateTicketMsg {
    fn clone(&self) -> (copy: Self)
        ensures
            copy == *self,
    {
        UpdateTicketMsg {
            id: self.id,
            bet_finish_timestamp: self.bet_finish_timestamp,
            close_timestamp: self.close_timestamp,
            result: self.result.clone(),
            collateral: self.collateral,
        }
    }
}

/// The worker that a ticket is assigned to.
#[derive(Debug, PartialEq, Eq)]
pub struct TicketWorkerPair {
    /// The ticket.
    pub tid: u64,
    /// The account of the winning bidder.
    pub worker: String,
}

/// The content of [`TicketWorkerPair`] as mathematical values.
pub struct TicketWorkerPairView {
    pub tid: u64,
    pub worker: Seq<char>,
}

impl DeepView for TicketWorkerPair {
    type V = TicketWorkerPairView;

    open spec fn deep_view(&self) -> TicketWorkerPairView {
        TicketWorkerPairView {
            tid: self.tid.deep_view(),
            worker: self.worker.deep_view(),
        }
    }
}

impl Clone for TicketWorkerPair {
    fn clone(&self) -> (copy: Self)
        ensures
            copy == *self,
    {
        TicketWorkerPair {
            tid: self.tid,
            worker: self.worker.clone(),
        }
    }
}

/// A result submitted for a ticket.
#[derive(Debug, PartialEq, Eq)]
pub struct TicketResultMsg {
    /// The ticket.
    pub tid: u64,
    /// The account that submits.
    pub worker: String,
    /// The submitted result.
    pub result: String,
}

/// The content of [`TicketResultMsg`] as mathematical values.
pub struct TicketResultMsgView {
    pub tid: u64,
    pub worker: Seq<char>,
    pub result: Seq<char>,
}

impl DeepView for TicketResultMsg {
    type V = TicketResultMsgView;

    open spec fn deep_view(&self) -> TicketResultMsgView {
        TicketResultMsgView {
            tid: self.tid.deep_view(),
            worker: self.worker.deep_view(),
            result: self.result.deep_view(),
        }
    }
}

impl Clone for TicketResultMsg {
    fn clone(&self) -> (copy: Self)
        ensures
            copy == *self,
    {
        TicketResultMsg {
            tid: self.tid,
            worker: self.worker.clone(),
            result: self.result.clone(),
        }
    }
}

/// New peer addresses for the ticket manager. Both are replaced.
#[derive(Debug, PartialEq, Eq)]
pub struct PostConfigMsg {
    /// The auction manager.
    pub auction_manager: Option<String>,
    /// The user board.
    pub user_board: Option<String>,
}

/// The content of [`PostConfigMsg`] as mathematical values.
pub struct PostConfigMsgView {
    pub auction_manager: Option<Seq<char>>,
    pub user_board: Option<Seq<char>>,
}

impl DeepView for PostConfigMsg {
    type V = PostConfigMsgView;

    open spec fn deep_view(&self) -> PostConfigMsgView {
        PostConfigMsgView {
            auction_manager: self.auction_manager.deep_view(),
            user_board: self.user_board.deep_view(),
        }
    }
}

impl Clone for PostConfigMsg {
    fn clone(&self) -> (copy: Self)
        ensures
            copy == *self,
    {
        PostConfigMsg {
            auction_manager: self.auction_manager.clone(),
            user_board: self.user_board.clone(),
        }
    }
}

/// The questions that the ticket manager answers.
#[derive(Debug, Clone, Copy, PartialEq, Eq, Structural)]
pub enum QueryMsg {
    /// All tickets, in the order they were added.
    QueryTickets {},
    /// The ticket with this number.
    QueryTicketInfo { tid: u64 },
    /// All assignments, by ascending ticket number.
    QueryTicketWorkerPairs {},
    /// The worker that this ticket is assigned to.
    QueryTicketWorker { tid: u64 },
}

impl DeepView for QueryMsg {
    type V = QueryMsg;

    open spec fn deep_view(&self) -> QueryMsg {
        *self
    }
}

/// The answer to `QueryTicketInfo`.
#[derive(Debug, PartialEq, Eq)]
pub struct TicketInfoResponse {
    /// The number that names the ticket.
    pub id: u64,
    /// The second from which the winner may be decided.
    pub bet_finish_timestamp: u64,
    /// The last second at which a result is on time.
    pub close_timestamp: u64,
    /// The result that a correct submission gives.
    pub result: String,
    /// The amount a worker locks before bidding.
    pub collateral: u64,
}

impl DeepView for TicketInfoResponse {
    type V = TicketView;

    open spec fn deep_view(&self) -> TicketView {
        TicketView {
            id: self.id.deep_view(),
            bet_finish_timestamp: self.bet_finish_timestamp.deep_view(),
            close_timestamp: self.close_timestamp.deep_view(),
            result: self.result.deep_view(),
            collateral: self.collateral.deep_view(),
        }
    }
}

impl Clone for TicketInfoResponse {
    fn clone(&self) -> (copy: Self)
        ensures
            copy == *self,
    {
        TicketInfoResponse {
            id: self.id,
            bet_finish_timestamp: self.bet_finish_timestamp,
            close_timestamp: self.close_timestamp,
            result: self.result.clone(),
            collateral: self.collateral,
        }
    }
}

/// A unit of work with its deadlines, expected result and required collateral.
#[derive(Debug, PartialEq, Eq)]
pub struct Ticket {
    /// The number that names the ticket.
    pub id: u64,
    /// The second from which the winner may be decided.
    pub bet_finish_timestamp: u64,
    /// The last second at which a result is on time.
    pub close_timestamp: u64,
    /// The result that a correct submission gives.
    pub result: String,
    /// The amount a worker locks before bidding.
    pub collateral: u64,
}

/// The content of [`Ticket`] as mathematical values.
pub struct TicketView {
    pub id: u64,
    pub bet_finish_timestamp: u64,
    pub close_timestamp: u64,
    pub result: Seq<char>,
    pub collateral: u64,
}

impl DeepView for Ticket {
    type V = TicketView;

    open spec fn deep_view(&self) -> TicketView {
        TicketView {
            id: self.id.deep_view(),
            bet_finish_timestamp: self.bet_finish_timestamp.deep_view(),
            close_timestamp: self.close_timestamp.deep_view(),
            result: self.result.deep_view(),
            collateral: self.collateral.deep_view(),
        }
    }
}

impl Clone for Ticket {
    fn clone(&self) -> (copy: Self)
        ensures
            copy == *self,
    {
        Ticket {
            id: self.id,
            bet_finish_timestamp: self.bet_finish_timestamp,
            close_timestamp: self.close_timestamp,
            result: self.result.clone(),
            collateral: self.collateral,
        }
    }
}

/// The answer to `QueryTickets`.
#[derive(Debug, PartialEq, Eq)]
pub struct TicketsResponse {
    /// The tickets, in the order they were added.
    pub tickets: Vec<Ticket>,
}

/// The content of [`TicketsResponse`] as mathematical values.
pub struct TicketsResponseView {
    pub tickets: Seq<TicketView>,
}

impl DeepView for TicketsResponse {
    type V = TicketsResponseView;

    open spec fn deep_view(&self) -> TicketsResponseView {
        TicketsResponseView {
            tickets: self.tickets.deep_view(),
        }
    }
}

impl Clone for TicketsResponse {
    fn clone(&self) -> (copy: Self)
        ensures
            copy.deep_view() == self.deep_view(),
    {
        let copy = TicketsResponse { tickets: self.tickets.clone() };
        assert(copy.tickets@ =~= self.tickets@);
        copy
    }
}

/// The answer to `QueryTicketWorkerPairs`.
#[derive(Debug, PartialEq, Eq)]
pub struct TWPairsReponse {
    /// The assignments, by ascending ticket number.
    pub pairs: Vec<TicketWorkerPair>,
}

/// The content of [`TWPairsReponse`] as mathematical values.
pub struct TWPairsReponseView {
    pub pairs: Seq<TicketWorkerPairView>,
}

impl DeepView for TWPairsReponse {
    type V = TWPairsReponseView;

    open spec fn deep_view(&self) -> TWPairsReponseView {
        TWPairsReponseView {
            pairs: self.pairs.deep_view(),
        }
    }
}

impl Clone for TWPairsReponse {
    fn clone(&self) -> (copy: Self)
        ensures
            copy.deep_view() == self.deep_view(),
    {
        let copy = TWPairsReponse { pairs: self.pairs.clone() };
        assert(copy.pairs@ =~= self.pairs@);
        copy
    }
}

/// Asks the ticket manager to migrate. It carries nothing.
#[derive(Debug, Clone, Copy, PartialEq, Eq, Structural)]
pub struct MigrateMsg {}

impl DeepView for MigrateMsg {
    type V = MigrateMsg;

    open spec fn deep_view(&self) -> MigrateMsg {
        *self
    }
}

} // verus!
