//! The records of the ticket manager: its configuration, the tickets, and
//! the worker that each decided ticket is assigned to.

use vstd::prelude::*;
use crate::error::TAError;
use crate::table::{ascending, Table};
use crate::ticket_manager::{Ticket, TicketView, TicketWorkerPair};

verus! {

/// The accounts that the ticket manager takes orders from.
#[derive(Debug, PartialEq, Eq)]
pub struct Config {
    /// The admin board, which alone may add, change and remove tickets.
    pub admin_board: String,
    /// The auction manager, which alone may record a winner.
    pub auction_manager: Option<String>,
    /// The user board that forwards submissions.
    pub user_board: Option<String>,
}

/// The content of [`Config`] as mathematical values.
pub struct ConfigView {
    pub admin_board: Seq<char>,
    pub auction_manager: Option<Seq<char>>,
    pub user_board: Option<Seq<char>>,
}

impl DeepView for Config {
    type V = ConfigView;

    open spec fn deep_view(&self) -> ConfigView {
        ConfigView {
            admin_board: self.admin_board.deep_view(),
            auction_manager: self.auction_manager.deep_view(),
            user_board: self.user_board.deep_view(),
        }
    }
}

impl Clone for Config {
    fn clone(&self) -> (copy: Self)
        ensures
            copy == *self,
    {
        Config {
            admin_board: self.admin_board.clone(),
            auction_manager: self.auction_manager.clone(),
            user_board: self.user_board.clone(),
        }
    }
}

/// Everything the ticket manager keeps between calls.
#[derive(Debug)]
pub struct Store {
    config: Config,
    tickets: Vec<Ticket>,
    pairs: Table<String>,
    assessed: Vec<u64>,
}

/// The content of [`Store`] as mathematical values.
pub struct StoreView {
    /// The configuration.
    pub config: ConfigView,
    /// The tickets, in the order they were added.
    pub tickets: Seq<TicketView>,
    /// The assigned worker of each decided ticket.
    pub pairs: Map<u64, Seq<char>>,
    /// The numbers of the tickets for which a result has been assessed, in
    /// the order of the assessments.
    pub assessed: Seq<u64>,
}

impl DeepView for Store {
    type V = StoreView;

    closed spec fn deep_view(&self) -> StoreView {
        StoreView {
            config: self.config.deep_view(),
            tickets: self.tickets.deep_view(),
            pairs: self.pairs.deep_view(),
            assessed: self.assessed@,
        }
    }
}

/// No two tickets of `tickets` have the same number.
pub open spec fn distinct_numbers(tickets: Seq<TicketView>) -> bool {
    forall|i: int, j: int| 0 <= i < j < tickets.len() ==> tickets[i].id != tickets[j].id
}

/// The first ticket of `tickets` with the number `tid`, if there is one.
pub open spec fn find_ticket(tickets: Seq<TicketView>, tid: u64) -> Option<TicketView>
    decreases tickets.len(),
{
    if tickets.len() == 0 {
        None
    } else if tickets.first().id == tid {
        Some(tickets.first())
    } else {
        find_ticket(tickets.drop_first(), tid)
    }
}

/// `find_ticket` gives the ticket at the least index that has the number.
pub proof fn lemma_find_ticket_first(tickets: Seq<TicketView>, tid: u64, at: int)
    requires
        0 <= at < tickets.len(),
        tickets[at].id == tid,
        forall|j: int| 0 <= j < at ==> tickets[j].id != tid,
    ensures
        find_ticket(tickets, tid) == Some(tickets[at]),
    decreases at,
{
    if at > 0 {
        let rest = tickets.drop_first();
        assert(rest[at - 1] == tickets[at]);
        assert forall|j: int| 0 <= j < at - 1 implies rest[j].id != tid by {
            assert(rest[j] == tickets[j + 1]);
        }
        lemma_find_ticket_first(rest, tid, at - 1);
    }
}

/// The ticket that `find_ticket` gives is one of the tickets and has the number.
pub proof fn lemma_find_ticket_has_number(tickets: Seq<TicketView>, tid: u64)
    ensures
        find_ticket(tickets, tid) matches Some(ticket) ==> ticket.id == tid && tickets.contains(
            ticket,
        ),
    decreases tickets.len(),
{
    if tickets.len() > 0 {
        if tickets.first().id == tid {
            assert(tickets[0] == tickets.first());
        } else {
            let rest = tickets.drop_first();
            lemma_find_ticket_has_number(rest, tid);
            if find_ticket(rest, tid) is Some {
                let ticket = find_ticket(rest, tid)->Some_0;
                let i = choose|i: int| 0 <= i < rest.len() && rest[i] == ticket;
                assert(tickets[i + 1] == ticket);
            }
        }
    }
}

/// `find_ticket` finds a ticket exactly if some ticket has the number.
pub proof fn lemma_find_ticket_none(tickets: Seq<TicketView>, tid: u64)
    ensures
        find_ticket(tickets, tid) is None <==> forall|j: int|
            0 <= j < tickets.len() ==> tickets[j].id != tid,
    decreases tickets.len(),
{
    if tickets.len() > 0 {
        let rest = tickets.drop_first();
        lemma_find_ticket_none(rest, tid);
        if tickets.first().id != tid {
            if forall|j: int| 0 <= j < rest.len() ==> rest[j].id != tid {
                assert forall|j: int| 0 <= j < tickets.len() implies tickets[j].id != tid by {
                    if j > 0 {
                        assert(rest[j - 1] == tickets[j]);
                    }
                }
            } else {
                let j = choose|j: int| 0 <= j < rest.len() && rest[j].id == tid;
                assert(tickets[j + 1] == rest[j]);
            }
        }
    }
}

impl Store {
    /// The records of a ticket manager that has just been created: the
    /// configuration `config`, no ticket, no assignment and no assessment.
    pub fn new(config: Config) -> (storage: Store)
        ensures
            storage.deep_view() == (StoreView {
                config: config.deep_view(),
                tickets: Seq::empty(),
                pairs: Map::empty(),
                assessed: Seq::empty(),
            }),
    {
        let storage = Store {
            config,
            tickets: Vec::new(),
            pairs: Table::new(),
            assessed: Vec::new(),
        };
        assert(storage.deep_view().tickets =~= Seq::empty());
        assert(storage.deep_view().pairs =~= Map::empty());
        storage
    }
}

/// Replaces the tickets by `tickets`.
pub fn store_tickets(storage: &mut Store, tickets: Vec<Ticket>)
    ensures
        final(storage).deep_view() == (StoreView {
            tickets: tickets.deep_view(),
            ..old(storage).deep_view()
        }),
{
    storage.tickets = tickets;
}

/// A copy of the tickets, in the order they were added.
pub fn read_tickets(storage: &Store) -> (tickets: Vec<Ticket>)
    ensures
        tickets.deep_view() == storage.deep_view().tickets,
{
    let mut tickets: Vec<Ticket> = Vec::new();
    let mut at: usize = 0;
    while at < storage.tickets.len()
        invariant
            at <= storage.tickets@.len(),
            tickets.deep_view() == storage.tickets.deep_view().take(at as int),
        decreases storage.tickets@.len() - at,
    {
        let ghost copied = tickets.deep_view();
        let ticket = storage.tickets[at].clone();
        assert(ticket.deep_view() == storage.tickets.deep_view()[at as int]);
        tickets.push(ticket);
        assert(tickets.deep_view() =~= copied.push(ticket.deep_view()));
        at = at + 1;
        assert(tickets.deep_view() =~= storage.tickets.deep_view().take(at as int));
    }
    assert(storage.tickets.deep_view().take(at as int) =~= storage.tickets.deep_view());
    tickets
}

/// A copy of the first ticket with the number `tid`; `NotFound` if no
/// ticket has it.
pub fn read_ticket_for_id(storage: &Store, tid: u64) -> (found: Result<Ticket, TAError>)
    ensures
        match find_ticket(storage.deep_view().tickets, tid) {
            Some(ticket) => found is Ok && found->Ok_0.deep_view() == ticket,
            None => found == Err::<Ticket, TAError>(TAError::NotFound),
        },
{
    let ghost all = storage.tickets.deep_view();
    let mut at: usize = 0;
    while at < storage.tickets.len()
        invariant
            at <= storage.tickets@.len(),
            all == storage.tickets.deep_view(),
            forall|j: int| 0 <= j < at ==> all[j].id != tid,
        decreases storage.tickets@.len() - at,
    {
        if storage.tickets[at].id == tid {
            proof {
                lemma_find_ticket_first(all, tid, at as int);
            }
            return Ok(storage.tickets[at].clone());
        }
        at = at + 1;
    }
    proof {
        lemma_find_ticket_none(all, tid);
    }
    Err(TAError::NotFound)
}

/// Replaces the configuration by `config`.
pub fn store_config(storage: &mut Store, config: Config)
    ensures
        final(storage).deep_view() == (StoreView {
            config: config.deep_view(),
            ..old(storage).deep_view()
        }),
{
    storage.config = config;
}

/// A copy of the configuration.
pub fn read_config(storage: &Store) -> (config: Config)
    ensures
        config.deep_view() == storage.deep_view().config,
{
    storage.config.clone()
}

/// Records the worker of `msg` as the one that the ticket of `msg` is
/// assigned to, in place of an earlier one.
pub fn store_tw_pair(storage: &mut Store, msg: TicketWorkerPair)
    ensures
        final(storage).deep_view() == (StoreView {
            pairs: old(storage).deep_view().pairs.insert(msg.tid, msg.worker@),
            ..old(storage).deep_view()
        }),
{
    let mut pairs = Table::new();
    core::mem::swap(&mut storage.pairs, &mut pairs);
    let ghost before = pairs;
    let pairs = pairs.insert(msg.tid, msg.worker);
    assert(pairs.deep_view() =~= before.deep_view().insert(msg.tid, msg.worker@));
    storage.pairs = pairs;
}

/// A copy of the worker that the ticket `tid` is assigned to; `NotFound` if
/// it is assigned to none.
pub fn read_worker_for_ticket(storage: &Store, tid: u64) -> (found: Result<String, TAError>)
    ensures
        match found {
            Ok(worker) => storage.deep_view().pairs.contains_key(tid)
                && storage.deep_view().pairs[tid] == worker@,
            Err(error) => {
                error == TAError::NotFound && !storage.deep_view().pairs.contains_key(tid)
            },
        },
{
    match storage.pairs.get(tid) {
        Some(worker) => Ok(worker.clone()),
        None => Err(TAError::NotFound),
    }
}

/// The numbers of the tickets that are assigned to a worker, ascending.
pub fn read_all_assigned_tickets(storage: &Store) -> (tids: Vec<u64>)
    ensures
        ascending(tids@),
        forall|tid: u64| tids@.contains(tid) <==> storage.deep_view().pairs.contains_key(tid),
{
    storage.pairs.keys()
}

/// Replaces the numbers of the assessed tickets by `tids`.
pub fn store_assessed_tickets(storage: &mut Store, tids: Vec<u64>)
    ensures
        final(storage).deep_view() == (StoreView { assessed: tids@, ..old(storage).deep_view() }),
{
    storage.assessed = tids;
}

/// A copy of the numbers of the tickets for which a result has been
/// assessed, in the order of the assessments.
pub fn read_assessed_tickets(storage: &Store) -> (tids: Vec<u64>)
    ensures
        tids@ == storage.deep_view().assessed,
{
    let tids = storage.assessed.clone();
    assert(tids@ =~= storage.assessed@);
    tids
}

/// Whether a result has been assessed for the ticket `tid`.
pub fn is_assessed(storage: &Store, tid: u64) -> (assessed: bool)
    ensures
        assessed == storage.deep_view().assessed.contains(tid),
{
    let mut at: usize = 0;
    while at < storage.assessed.len()
        invariant
            at <= storage.assessed@.len(),
            forall|j: int| 0 <= j < at ==> storage.assessed@[j] != tid,
        decreases storage.assessed@.len() - at,
    {
        if storage.assessed[at] == tid {
            return true;
        }
        at = at + 1;
    }
    false
}

} // verus!
