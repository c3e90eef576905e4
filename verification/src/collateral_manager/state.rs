//! The records of the collateral manager: its configuration and, for each
//! ticket, the workers that have a stake locked.

use vstd::prelude::*;
use crate::error::TAError;
use crate::table::{ascending, Table};

verus! {

/// The accounts that the collateral manager works with.
#[derive(Debug, PartialEq, Eq)]
pub struct Config {
    /// The admin board, which alone may release a stake.
    pub admin_board: String,
    /// The ticket manager that knows each collateral.
    pub ticket_manager: String,
    /// The user board, which alone may lock a stake.
    pub user_board: String,
}

/// The content of [`Config`] as mathematical values.
pub struct ConfigView {
    pub admin_board: Seq<char>,
    pub ticket_manager: Seq<char>,
    pub user_board: Seq<char>,
}

impl DeepView for Config {
    type V = ConfigView;

    open spec fn deep_view(&self) -> ConfigView {
        ConfigView {
            admin_board: self.admin_board.deep_view(),
            ticket_manager: self.ticket_manager.deep_view(),
            user_board: self.user_board.deep_view(),
        }
    }
}

impl Clone for Config {
    fn clone(&self) -> (copy: Self)
        ensures
            copy == *self,
    {
        Config {
            admin_board: self.admin_board.clone(),
            ticket_manager: self.ticket_manager.clone(),
            user_board: self.user_board.clone(),
        }
    }
}

/// Everything the collateral manager keeps between calls.
#[derive(Debug)]
pub struct Store {
    config: Config,
    stakes: Table<Vec<String>>,
}

/// The content of [`Store`] as mathematical values.
pub struct StoreView {
    /// The configuration.
    pub config: ConfigView,
    /// The workers that have a stake locked for each ticket, in the order
    /// they locked it. A worker that locked twice stands there twice.
    pub stakes: Map<u64, Seq<Seq<char>>>,
}

impl DeepView for Store {
    type V = StoreView;

    closed spec fn deep_view(&self) -> StoreView {
        StoreView { config: self.config.deep_view(), stakes: self.stakes.deep_view() }
    }
}

impl Store {
    /// The records of a collateral manager that has just been created: the
    /// configuration `config` and no stake.
    pub fn new(config: Config) -> (storage: Store)
        ensures
            storage.deep_view() == (StoreView { config: config.deep_view(), stakes: Map::empty() }),
    {
        let storage = Store { config, stakes: Table::new() };
        assert(storage.deep_view().stakes =~= Map::empty());
        storage
    }
}

/// Replaces the configuration by `config`.
pub fn store_config(storage: &mut Store, config: Config)
    ensures
        final(storage).deep_view() == (StoreView {
            config: config.deep_view(),
            ..old(storage).deep_view()
        }),
{
    storage.config = config;
}

/// A copy of the configuration.
pub fn read_config(storage: &Store) -> (config: Config)
    ensures
        config.deep_view() == storage.deep_view().config,
{
    storage.config.clone()
}

/// Replaces the workers with a stake for the ticket `tid` by `stakes`.
pub fn store_stakes(storage: &mut Store, tid: u64, stakes: Vec<String>)
    ensures
        final(storage).deep_view() == (StoreView {
            stakes: old(storage).deep_view().stakes.insert(tid, stakes.deep_view()),
            ..old(storage).deep_view()
        }),
{
    let mut table = Table::new();
    core::mem::swap(&mut storage.stakes, &mut table);
    let ghost before = table;
    let table = table.insert(tid, stakes);
    assert(table.deep_view() =~= before.deep_view().insert(tid, stakes.deep_view()));
    storage.stakes = table;
}

/// A copy of the workers with a stake for the ticket `tid`, in the order
/// they locked it; `NotFound` if no list is kept for the ticket.
pub fn read_stakes(storage: &Store, tid: u64) -> (found: Result<Vec<String>, TAError>)
    ensures
        match found {
            Ok(stakes) => storage.deep_view().stakes.contains_key(tid)
                && storage.deep_view().stakes[tid] == stakes.deep_view(),
            Err(error) => error == TAError::NotFound && !storage.deep_view().stakes.contains_key(
                tid,
            ),
        },
{
    match storage.stakes.get(tid) {
        Some(stakes) => {
            let copy = stakes.clone();
            assert(copy@ =~= stakes@);
            Ok(copy)
        },
        None => Err(TAError::NotFound),
    }
}

/// The numbers of the tickets that a list of workers is kept for, ascending.
pub fn read_staked_tickets(storage: &Store) -> (tids: Vec<u64>)
    ensures
        ascending(tids@),
        forall|tid: u64| tids@.contains(tid) <==> storage.deep_view().stakes.contains_key(tid),
{
    storage.stakes.keys()
}

} // verus!
