//! The records of the auction manager: its configuration and the open bets
//! of each ticket.

use vstd::prelude::*;
use crate::error::TAError;
use crate::table::{ascending, Table};

verus! {

/// The accounts that the auction manager works with.
#[derive(Debug, PartialEq, Eq)]
pub struct Config {
    /// The admin board, which alone may have a winner decided.
    pub admin_board: String,
    /// The ticket manager that winners are reported to.
    pub ticket_manager: String,
    /// The user board, which alone may place a bet.
    pub user_board: String,
}

/// The content of [`Config`] as mathematical values.
pub struct ConfigView {
    pub admin_board: Seq<char>,
    pub ticket_manager: Seq<char>,
    pub user_board: Seq<char>,
}

impl DeepView for Config {
    type V = ConfigView;

    open spec fn deep_view(&self) -> ConfigView {
        ConfigView {
            admin_board: self.admin_board.deep_view(),
            ticket_manager: self.ticket_manager.deep_view(),
            user_board: self.user_board.deep_view(),
        }
    }
}

impl Clone for Config {
    fn clone(&self) -> (copy: Self)
        ensures
            copy == *self,
    {
        Config {
            admin_board: self.admin_board.clone(),
            ticket_manager: self.ticket_manager.clone(),
            user_board: self.user_board.clone(),
        }
    }
}

/// The price that a worker asks for a ticket.
#[derive(Debug, PartialEq, Eq)]
pub struct BetDetail {
    /// The account of the bidding worker.
    pub worker: String,
    /// The price the worker asks.
    pub bet_amt: u64,
}

/// The content of [`BetDetail`] as mathematical values.
pub struct BetDetailView {
    pub worker: Seq<char>,
    pub bet_amt: u64,
}

impl DeepView for BetDetail {
    type V = BetDetailView;

    open spec fn deep_view(&self) -> BetDetailView {
        BetDetailView { worker: self.worker.deep_view(), bet_amt: self.bet_amt.deep_view() }
    }
}

impl Clone for BetDetail {
    fn clone(&self) -> (copy: Self)
        ensures
            copy == *self,
    {
        BetDetail { worker: self.worker.clone(), bet_amt: self.bet_amt }
    }
}

/// Everything the auction manager keeps between calls.
#[derive(Debug)]
pub struct Store {
    config: Config,
    bets: Table<Vec<BetDetail>>,
}

/// The content of [`Store`] as mathematical values.
pub struct StoreView {
    /// The configuration.
    pub config: ConfigView,
    /// The open bets of each ticket that has any, oldest first.
    pub bets: Map<u64, Seq<BetDetailView>>,
}

impl DeepView for Store {
    type V = StoreView;

    closed spec fn deep_view(&self) -> StoreView {
        StoreView { config: self.config.deep_view(), bets: self.bets.deep_view() }
    }
}

impl Store {
    /// The records of an auction manager that has just been created: the
    /// configuration `config` and no bet.
    pub fn new(config: Config) -> (storage: Store)
        ensures
            storage.deep_view() == (StoreView { config: config.deep_view(), bets: Map::empty() }),
    {
        let storage = Store { config, bets: Table::new() };
        assert(storage.deep_view().bets =~= Map::empty());
        storage
    }
}

/// Replaces the configuration by `config`.
pub fn save_config(storage: &mut Store, config: Config)
    ensures
        final(storage).deep_view() == (StoreView {
            config: config.deep_view(),
            ..old(storage).deep_view()
        }),
{
    storage.config = config;
}

/// A copy of the configuration.
pub fn read_config(storage: &Store) -> (config: Config)
    ensures
        config.deep_view() == storage.deep_view().config,
{
    storage.config.clone()
}

/// Replaces the open bets of the ticket `tid` by `bets`.
pub fn save_bets_ticket(storage: &mut Store, tid: u64, bets: Vec<BetDetail>)
    ensures
        final(storage).deep_view() == (StoreView {
            bets: old(storage).deep_view().bets.insert(tid, bets.deep_view()),
            ..old(storage).deep_view()
        }),
{
    let mut table = Table::new();
    core::mem::swap(&mut storage.bets, &mut table);
    let ghost before = table;
    let table = table.insert(tid, bets);
    assert(table.deep_view() =~= before.deep_view().insert(tid, bets.deep_view()));
    storage.bets = table;
}

/// A copy of the open bets of the ticket `tid`, oldest first; `NotFound` if
/// none are kept for it.
pub fn read_bets_ticket(storage: &Store, tid: u64) -> (found: Result<Vec<BetDetail>, TAError>)
    ensures
        match found {
            Ok(bets) => storage.deep_view().bets.contains_key(tid)
                && storage.deep_view().bets[tid] == bets.deep_view(),
            Err(error) => error == TAError::NotFound && !storage.deep_view().bets.contains_key(tid),
        },
{
    match storage.bets.get(tid) {
        Some(bets) => {
            let copy = bets.clone();
            assert(copy@ =~= bets@);
            Ok(copy)
        },
        None => Err(TAError::NotFound),
    }
}

/// Drops the open bets of the ticket `tid`.
pub fn remove_bets_ticket(storage: &mut Store, tid: u64)
    ensures
        final(storage).deep_view() == (StoreView {
            bets: old(storage).deep_view().bets.remove(tid),
            ..old(storage).deep_view()
        }),
{
    let mut table = Table::new();
    core::mem::swap(&mut storage.bets, &mut table);
    let ghost before = table;
    let table = table.remove(tid);
    assert(table.deep_view() =~= before.deep_view().remove(tid));
    storage.bets = table;
}

/// The numbers of the tickets that bets are kept for, ascending.
pub fn read_curr_avail_tickets(storage: &Store) -> (tids: Vec<u64>)
    ensures
        ascending(tids@),
        forall|tid: u64| tids@.contains(tid) <==> storage.deep_view().bets.contains_key(tid),
{
    storage.bets.keys()
}

} // verus!
