//! The records of the user board: its configuration.

use vstd::prelude::*;

verus! {

/// The accounts that the user board works with.
#[derive(Debug, PartialEq, Eq)]
pub struct Config {
    /// The admin board, which alone may replace the peer addresses.
    pub admin_board: String,
    /// The ticket manager that submissions go to.
    pub ticket_manager: Option<String>,
    /// The collateral manager that stakes go to.
    pub collateral_manager: Option<String>,
    /// The auction manager that bets go to.
    pub auction_manager: Option<String>,
}

/// The content of [`Config`] as mathematical values.
pub struct ConfigView {
    pub admin_board: Seq<char>,
    pub ticket_manager: Option<Seq<char>>,
    pub collateral_manager: Option<Seq<char>>,
    pub auction_manager: Option<Seq<char>>,
}

impl DeepView for Config {
    type V = ConfigView;

    open spec fn deep_view(&self) -> ConfigView {
        ConfigView {
            admin_board: self.admin_board.deep_view(),
            ticket_manager: self.ticket_manager.deep_view(),
            collateral_manager: self.collateral_manager.deep_view(),
            auction_manager: self.auction_manager.deep_view(),
        }
    }
}

impl Clone for Config {
    fn clone(&self) -> (copy: Self)
        ensures
            copy == *self,
    {
        Config {
            admin_board: self.admin_board.clone(),
            ticket_manager: self.ticket_manager.clone(),
            collateral_manager: self.collateral_manager.clone(),
            auction_manager: self.auction_manager.clone(),
        }
    }
}

/// Everything the user board keeps between calls.
#[derive(Debug)]
pub struct Store {
    config: Config,
}

/// The content of [`Store`] as mathematical values.
pub struct StoreView {
    /// The configuration.
    pub config: ConfigView,
}

impl DeepView for Store {
    type V = StoreView;

    closed spec fn deep_view(&self) -> StoreView {
        StoreView { config: self.config.deep_view() }
    }
}

impl Store {
    /// The records of a user board that has just been created.
    pub fn new(config: Config) -> (storage: Store)
        ensures
            storage.deep_view() == (StoreView { config: config.deep_view() }),
    {
        Store { config }
    }
}

/// Replaces the configuration by `config`.
pub fn store_config(storage: &mut Store, config: Config)
    ensures
        final(storage).deep_view() == (StoreView { config: config.deep_view() }),
{
    storage.config = config;
}

/// A copy of the configuration.
pub fn read_config(storage: &Store) -> (config: Config)
    ensures
        config.deep_view() == storage.deep_view().config,
{
    storage.config.clone()
}

} // verus!
