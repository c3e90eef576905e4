//! The messages of the collateral manager, the service that owns the stakes.

use vstd::prelude::*;

pub mod contract;
pub mod state;

verus! {

/// Creates the collateral manager. The sender becomes its admin board.
#[derive(Debug, PartialEq, Eq)]
pub struct InstantiateMsg {
    /// The user board, the only caller that may lock a stake.
    pub user_board: String,
    /// The ticket manager that knows each collateral.
    pub ticket_manager: String,
}

/// The content of [`InstantiateMsg`] as mathematical values.
pub struct InstantiateMsgView {
    pub user_board: Seq<char>,
    pub ticket_manager: Seq<char>,
}

impl DeepView for InstantiateMsg {
    type V = InstantiateMsgView;

    open spec fn deep_view(&self) -> InstantiateMsgView {
        InstantiateMsgView {
            user_board: self.user_board.deep_view(),
            ticket_manager: self.ticket_manager.deep_view(),
        }
    }
}

impl Clone for InstantiateMsg {
    fn clone(&self) -> (copy: Self)
        ensures
            copy == *self,
    {
        InstantiateMsg {
            user_board: self.user_board.clone(),
            ticket_manager: self.ticket_manager.clone(),
        }
    }
}

/// The calls that change the collateral manager.
#[derive(Debug, PartialEq, Eq)]
pub enum ExecuteMsg {
    /// Locks the attached funds as the stake of `worker`. Reserved for the user board.
    LockStake { tid: u64, worker: String },
    /// Releases a stake. Reserved for the admin board.
    ReleaseStake(ReleaseStakeMsg),
}

/// The content of [`ExecuteMsg`] as mathematical values.
pub enum ExecuteMsgView {
    LockStake { tid: u64, worker: Seq<char> },
    ReleaseStake(ReleaseStakeMsgView),
}

impl DeepView for ExecuteMsg {
    type V = ExecuteMsgView;

    open spec fn deep_view(&self) -> ExecuteMsgView {
        match self {
            ExecuteMsg::LockStake { tid, worker } => ExecuteMsgView::LockStake {
                tid: tid.deep_view(),
                worker: worker.deep_view(),
            },
            ExecuteMsg::ReleaseStake(m) => ExecuteMsgView::ReleaseStake(m.deep_view()),
        }
    }
}

impl Clone for ExecuteMsg {
    fn clone(&self) -> (copy: Self)
        ensures
            copy == *self,
    {
        match self {
            ExecuteMsg::LockStake { tid, worker } => ExecuteMsg::LockStake {
                tid: *tid,
                worker: worker.clone(),
            },
            ExecuteMsg::ReleaseStake(m) => ExecuteMsg::ReleaseStake(m.clone()),
        }
    }
}

/// A stake to release.
#[derive(Debug, PartialEq, Eq)]
pub struct ReleaseStakeMsg {
    /// The ticket.
    pub tid: u64,
    /// The account that is paid.
    pub worker: String,
    /// The amount to pay.
    pub amt: u128,
}

/// The content of [`ReleaseStakeMsg`] as mathematical values.
pub struct ReleaseStakeMsgView {
    pub tid: u64,
    pub worker: Seq<char>,
    pub amt: u128,
}

impl DeepView for ReleaseStakeMsg {
    type V = ReleaseStakeMsgView;

    open spec fn deep_view(&self) -> ReleaseStakeMsgView {
        ReleaseStakeMsgView {
            tid: self.tid.deep_view(),
            worker: self.worker.deep_view(),
            amt: self.amt.deep_view(),
        }
    }
}

impl Clone for ReleaseStakeMsg {
    fn clone(&self) -> (copy: Self)
        ensures
            copy == *self,
    {
        ReleaseStakeMsg {
            tid: self.tid,
            worker: self.worker.clone(),
            amt: self.amt,
        }
    }
}

/// The questions that the collateral manager answers.
#[derive(Debug, PartialEq, Eq)]
pub enum QueryMsg {
    /// Whether a worker has a stake locked for a ticket.
    QueryStakeStatus(QueryStakeStatusMsg),
    /// The ticket with this number, as the ticket manager knows it.
    QueryTicket { tid: u64 },
}

/// The content of [`QueryMsg`] as mathematical values.
pub enum QueryMsgView {
    QueryStakeStatus(QueryStakeStatusMsgView),
    QueryTicket { tid: u64 },
}

impl DeepView for QueryMsg {
    type V = QueryMsgView;

    open spec fn deep_view(&self) -> QueryMsgView {
        match self {
            QueryMsg::QueryStakeStatus(m) => QueryMsgView::QueryStakeStatus(m.deep_view()),
            QueryMsg::QueryTicket { tid } => QueryMsgView::QueryTicket { tid: tid.deep_view() },
        }
    }
}

impl Clone for QueryMsg {
    fn clone(&self) -> (copy: Self)
        ensures
            copy == *self,
    {
        match self {
            QueryMsg::QueryStakeStatus(m) => QueryMsg::QueryStakeStatus(m.clone()),
            QueryMsg::QueryTicket { tid } => QueryMsg::QueryTicket { tid: *tid },
        }
    }
}

/// Names a worker and a ticket.
#[derive(Debug, PartialEq, Eq)]
pub struct QueryStakeStatusMsg {
    /// The ticket.
    pub tid: u64,
    /// The account of the worker.
    pub worker: String,
}

/// The content of [`QueryStakeStatusMsg`] as mathematical values.
pub struct QueryStakeStatusMsgView {
    pub tid: u64,
    pub worker: Seq<char>,
}

impl DeepView for QueryStakeStatusMsg {
    type V = QueryStakeStatusMsgView;

    open spec fn deep_view(&self) -> QueryStakeStatusMsgView {
        QueryStakeStatusMsgView {
            tid: self.tid.deep_view(),
            worker: self.worker.deep_view(),
        }
    }
}

impl Clone for QueryStakeStatusMsg {
    fn clone(&self) -> (copy: Self)
        ensures
            copy == *self,
    {
        QueryStakeStatusMsg {
            tid: self.tid,
            worker: self.worker.clone(),
        }
    }
}

/// Asks the collateral manager to migrate. It carries nothing.
#[derive(Debug, Clone, Copy, PartialEq, Eq, Structural)]
pub struct MigrateMsg {}

impl DeepView for MigrateMsg {
    type V = MigrateMsg;

    open spec fn deep_view(&self) -> MigrateMsg {
        *self
    }
}

} // verus!
