//! The handlers of the auction manager.
//!
//! The auction manager owns the bets. The user board places a bet for a
//! worker; once the bet deadline of a ticket has come, the admin board has
//! the winner decided: the lowest bet wins, the oldest among equal ones, and
//! the winner is reported to the ticket manager.

use vstd::prelude::*;
use crate::auction_manager::state::{
    read_bets_ticket, read_config, read_curr_avail_tickets, remove_bets_ticket, save_bets_ticket,
    BetDetail, BetDetailView, Config, ConfigView, Store, StoreView,
};
use crate::auction_manager::{
    ExecuteMsg, ExecuteMsgView, InstantiateMsg, InstantiateMsgView, MigrateMsg, PlaceBetMsg,
    PlaceBetMsgView, QueryMsg,
};
use crate::error::TAError;
use crate::host::{
    call, reply, reply_with, settles, AttributeView, CosmosMsg, Env, EnvView, ExecutePayload,
    ExecutePayloadView, MessageInfo, MessageInfoView, QueryAnswer, QueryAnswerView, QueryPayload,
    QueryPayloadView, Response, ResponseView, WasmQuery, WasmQueryView,
};
use crate::table::ascending;
use crate::ticket_manager::state::{find_ticket, lemma_find_ticket_first, lemma_find_ticket_none};
use crate::ticket_manager::{
    ExecuteMsg as TicketExecuteMsg, ExecuteMsgView as TicketExecuteMsgView,
    QueryMsg as TicketQueryMsg, TicketInfoResponse, TicketView, TicketWorkerPair,
    TicketWorkerPairView, TicketsResponse, TicketsResponseView,
};

verus! {

/// What `instantiate` does: the sender becomes the admin board, the peers
/// are the ones that `msg` names, and there is no bet.
pub open spec fn instantiate_model(info: MessageInfoView, msg: InstantiateMsgView) -> (
    StoreView,
    ResponseView,
) {
    (
        StoreView {
            config: ConfigView {
                admin_board: info.sender,
                ticket_manager: msg.ticket_manager,
                user_board: msg.user_board,
            },
            bets: Map::empty(),
        },
        ResponseView {
            messages: Seq::empty(),
            attributes: seq![
                AttributeView { key: "method"@, value: "instantiate"@ },
                AttributeView { key: "admin"@, value: info.sender },
            ],
        },
    )
}

/// Creates the records of an auction manager. This never fails.
pub fn instantiate(
    env: Env,
    info: MessageInfo,
    msg: InstantiateMsg,
) -> (result: Result<(Store, Response), TAError>)
    ensures
        result is Ok,
        result->Ok_0.0.deep_view() == instantiate_model(info.deep_view(), msg.deep_view()).0,
        result->Ok_0.1.deep_view() == instantiate_model(info.deep_view(), msg.deep_view()).1,
{
    let response = Response::new().add_attribute("method", "instantiate").add_attribute(
        "admin",
        info.sender.as_str(),
    );
    assert(response.deep_view().attributes =~= instantiate_model(
        info.deep_view(),
        msg.deep_view(),
    ).1.attributes);
    let storage = Store::new(
        Config {
            admin_board: info.sender,
            ticket_manager: msg.ticket_manager,
            user_board: msg.user_board,
        },
    );
    Ok((storage, response))
}

/// The open bets of the ticket `tid`, oldest first; none where no bets are kept.
pub open spec fn open_bets(bets: Map<u64, Seq<BetDetailView>>, tid: u64) -> Seq<BetDetailView> {
    if bets.contains_key(tid) {
        bets[tid]
    } else {
        Seq::empty()
    }
}

/// What `place_bet` does. It takes no funds, only the user board may call
/// it, the ticket has to be among `tickets`, which are the tickets that the
/// ticket manager has, and the host has to accept the bidder's address. Then
/// the bet goes behind the open bets of the ticket.
pub open spec fn place_bet_model(
    before: StoreView,
    info: MessageInfoView,
    msg: PlaceBetMsgView,
    tickets: TicketsResponseView,
    bidder_valid: bool,
) -> Result<(StoreView, ResponseView), TAError> {
    if info.funds.len() != 0 {
        Err(TAError::UnnecessaryFunds)
    } else if info.sender != before.config.user_board {
        Err(TAError::NotAuthorized)
    } else if find_ticket(tickets.tickets, msg.ticket_id) is None {
        Err(TAError::NotFound)
    } else if !bidder_valid {
        Err(TAError::InvalidAddress)
    } else {
        Ok(
            (
                StoreView {
                    bets: before.bets.insert(
                        msg.ticket_id,
                        open_bets(before.bets, msg.ticket_id).push(
                            BetDetailView { worker: msg.workder, bet_amt: msg.bet_amount },
                        ),
                    ),
                    ..before
                },
                reply("place_bet"@),
            ),
        )
    }
}

/// Whether a ticket with the number `tid` is among `tickets`.
pub fn ticket_exists(tickets: &TicketsResponse, tid: u64) -> (exists: bool)
    ensures
        exists == (find_ticket(tickets.deep_view().tickets, tid) is Some),
{
    let ghost all = tickets.deep_view().tickets;
    let mut at: usize = 0;
    while at < tickets.tickets.len()
        invariant
            at <= tickets.tickets@.len(),
            all == tickets.tickets.deep_view(),
            forall|j: int| 0 <= j < at ==> all[j].id != tid,
        decreases tickets.tickets@.len() - at,
    {
        if tickets.tickets[at].id == tid {
            proof {
                lemma_find_ticket_first(all, tid, at as int);
            }
            return true;
        }
        at = at + 1;
    }
    proof {
        lemma_find_ticket_none(all, tid);
    }
    false
}

/// Places a bet. `tickets` is what the ticket manager answered to
/// `QueryTickets`; `bidder_valid` says whether the host accepts the address
/// of the bidder.
pub fn place_bet(
    storage: &mut Store,
    info: MessageInfo,
    msg: PlaceBetMsg,
    tickets: &TicketsResponse,
    bidder_valid: bool,
) -> (result: Result<Response, TAError>)
    ensures
        settles(
            old(storage).deep_view(),
            final(storage).deep_view(),
            result,
            place_bet_model(
                old(storage).deep_view(),
                info.deep_view(),
                msg.deep_view(),
                tickets.deep_view(),
                bidder_valid,
            ),
        ),
{
    if !info.funds.is_empty() {
        return Err(TAError::UnnecessaryFunds);
    }
    let config = read_config(storage);
    if !(info.sender == config.user_board) {
        return Err(TAError::NotAuthorized);
    }
    if !ticket_exists(tickets, msg.ticket_id) {
        return Err(TAError::NotFound);
    }
    if !bidder_valid {
        return Err(TAError::InvalidAddress);
    }
    let mut bets = match read_bets_ticket(storage, msg.ticket_id) {
        Ok(bets) => bets,
        Err(_) => Vec::new(),
    };
    let ghost open = bets.deep_view();
    assert(open =~= open_bets(old(storage).deep_view().bets, msg.ticket_id));
    let bet = BetDetail { worker: msg.workder, bet_amt: msg.bet_amount };
    bets.push(bet);
    assert(bets.deep_view() =~= open.push(bet.deep_view()));
    save_bets_ticket(storage, msg.ticket_id, bets);
    Ok(Response::reporting("place_bet"))
}

/// The index of the winning bet among `bets`: of the lowest bet, and of the
/// oldest one where several are equally low. See [`lemma_lowest_bet`].
pub open spec fn lowest_bet(bets: Seq<BetDetailView>) -> int
    decreases bets.len(),
{
    if bets.len() <= 1 {
        0
    } else {
        let earlier = lowest_bet(bets.drop_last());
        if bets.last().bet_amt < bets[earlier].bet_amt {
            bets.len() - 1
        } else {
            earlier
        }
    }
}

/// The winning bet is a bet, no bet is lower, and every bet before it is
/// higher.
pub proof fn lemma_lowest_bet(bets: Seq<BetDetailView>)
    requires
        bets.len() > 0,
    ensures
        0 <= lowest_bet(bets) < bets.len(),
        forall|j: int|
            0 <= j < bets.len() ==> bets[lowest_bet(bets)].bet_amt <= (#[trigger] bets[j]).bet_amt,
        forall|j: int|
            0 <= j < lowest_bet(bets) ==> (#[trigger] bets[j]).bet_amt > bets[lowest_bet(
                bets,
            )].bet_amt,
    decreases bets.len(),
{
    if bets.len() > 1 {
        let front = bets.drop_last();
        lemma_lowest_bet(front);
        assert forall|j: int| 0 <= j < front.len() implies front[j] == bets[j] by {}
    }
}

/// What `decide_winning_bet` does. Only the admin board may call it, and it
/// takes no funds. `ticket_info` is the ticket as the ticket manager knows
/// it: it has to exist and its bet deadline has to have come. There have to
/// be open bets. Then the bets of the ticket are dropped and the bidder of
/// the [`lowest_bet`] is reported to the ticket manager as the winner.
pub open spec fn decide_winning_bet_model(
    before: StoreView,
    env: EnvView,
    info: MessageInfoView,
    tid: u64,
    ticket_info: Option<TicketView>,
) -> Result<(StoreView, ResponseView), TAError> {
    if info.sender != before.config.admin_board {
        Err(TAError::NotAuthorized)
    } else if info.funds.len() != 0 {
        Err(TAError::UnnecessaryFunds)
    } else {
        match ticket_info {
            None => Err(TAError::NotFound),
            Some(ticket) => if env.time < ticket.bet_finish_timestamp {
                Err(TAError::BetNotFinished)
            } else if open_bets(before.bets, tid).len() == 0 {
                Err(TAError::NotFound)
            } else {
                Ok(
                    (
                        StoreView { bets: before.bets.remove(tid), ..before },
                        reply_with(
                            call(
                                before.config.ticket_manager,
                                ExecutePayloadView::TicketManager(
                                    TicketExecuteMsgView::SaveTicketWorker(
                                        TicketWorkerPairView {
                                            tid,
                                            worker: before.bets[tid][lowest_bet(
                                                before.bets[tid],
                                            )].worker,
                                        },
                                    ),
                                ),
                            ),
                            "win_bet"@,
                        ),
                    ),
                )
            },
        }
    }
}

/// The position of the winning bet among `bets`; `None` if there is no bet.
pub fn winning_bet(bets: &Vec<BetDetail>) -> (winner: Option<usize>)
    ensures
        match winner {
            Some(at) => at == lowest_bet(bets.deep_view()) && at < bets@.len(),
            None => bets@.len() == 0,
        },
{
    if bets.len() == 0 {
        return None;
    }
    let ghost all = bets.deep_view();
    let mut best: usize = 0;
    let mut at: usize = 1;
    assert(all.take(1).len() == 1);
    while at < bets.len()
        invariant
            1 <= at <= bets@.len(),
            all == bets.deep_view(),
            best < at,
            best == lowest_bet(all.take(at as int)),
        decreases bets@.len() - at,
    {
        proof {
            let longer = all.take(at + 1);
            assert(longer.drop_last() =~= all.take(at as int));
            assert(longer.last() == all[at as int]);
            assert(longer[best as int] == all[best as int]);
        }
        if bets[at].bet_amt < bets[best].bet_amt {
            best = at;
        }
        at = at + 1;
    }
    assert(all.take(at as int) =~= all);
    Some(best)
}

/// Decides the winner of a ticket. `ticket_info` is what the ticket manager
/// answered to `QueryTicketInfo` for the ticket, `None` if it has no such
/// ticket.
pub fn decide_winning_bet(
    storage: &mut Store,
    env: Env,
    info: MessageInfo,
    tid: u64,
    ticket_info: Option<TicketInfoResponse>,
) -> (result: Result<Response, TAError>)
    ensures
        settles(
            old(storage).deep_view(),
            final(storage).deep_view(),
            result,
            decide_winning_bet_model(
                old(storage).deep_view(),
                env.deep_view(),
                info.deep_view(),
                tid,
                ticket_info.deep_view(),
            ),
        ),
{
    let config = read_config(storage);
    if !(info.sender == config.admin_board) {
        return Err(TAError::NotAuthorized);
    }
    if !info.funds.is_empty() {
        return Err(TAError::UnnecessaryFunds);
    }
    let ticket_info = match ticket_info {
        Some(ticket_info) => ticket_info,
        None => {
            return Err(TAError::NotFound);
        },
    };
    if env.time < ticket_info.bet_finish_timestamp {
        return Err(TAError::BetNotFinished);
    }
    let curr_bets = match read_bets_ticket(storage, tid) {
        Ok(bets) => bets,
        Err(_) => {
            return Err(TAError::NotFound);
        },
    };
    let winner = match winning_bet(&curr_bets) {
        Some(winner) => winner,
        None => {
            return Err(TAError::NotFound);
        },
    };
    let worker = curr_bets[winner].worker.clone();
    assert(worker@ == curr_bets.deep_view()[winner as int].worker);
    remove_bets_ticket(storage, tid);
    let message = CosmosMsg::call(
        config.ticket_manager,
        ExecutePayload::TicketManager(
            TicketExecuteMsg::SaveTicketWorker(TicketWorkerPair { tid, worker }),
        ),
    );
    Ok(Response::sending(message, "win_bet"))
}

/// The address that the host has to check before `execute` can run `msg`:
/// the one of the bidder, where a bet is placed.
pub open spec fn checked_address_model(msg: ExecuteMsgView) -> Option<Seq<char>> {
    match msg {
        ExecuteMsgView::PlaceBet(msg) => Some(msg.workder),
        _ => None,
    }
}

/// The address whose validity `execute` is told for `msg`, if it looks at one.
pub fn checked_address(msg: &ExecuteMsg) -> (address: Option<String>)
    ensures
        address.deep_view() == checked_address_model(msg.deep_view()),
{
    match msg {
        ExecuteMsg::PlaceBet(msg) => Some(msg.workder.clone()),
        _ => None,
    }
}

/// What has to be asked of the ticket manager before `execute` can run
/// `msg`: all its tickets for a bet, the one ticket for a decision. The
/// checks that need no answer are made first, and their errors come out here.
pub open spec fn peer_query_model(
    before: StoreView,
    info: MessageInfoView,
    msg: ExecuteMsgView,
) -> Result<Option<WasmQueryView>, TAError> {
    match msg {
        ExecuteMsgView::PlaceBet(_) => if info.funds.len() != 0 {
            Err(TAError::UnnecessaryFunds)
        } else if info.sender != before.config.user_board {
            Err(TAError::NotAuthorized)
        } else {
            Ok(
                Some(
                    WasmQueryView {
                        contract_addr: before.config.ticket_manager,
                        msg: QueryPayloadView::TicketManager(TicketQueryMsg::QueryTickets {  }),
                    },
                ),
            )
        },
        ExecuteMsgView::DecideWinningBet { tid } => if info.sender != before.config.admin_board {
            Err(TAError::NotAuthorized)
        } else if info.funds.len() != 0 {
            Err(TAError::UnnecessaryFunds)
        } else {
            Ok(
                Some(
                    WasmQueryView {
                        contract_addr: before.config.ticket_manager,
                        msg: QueryPayloadView::TicketManager(
                            TicketQueryMsg::QueryTicketInfo { tid },
                        ),
                    },
                ),
            )
        },
    }
}

/// The question whose answer `execute` needs for `msg`, or the error with
/// which `execute` fails whatever the answer is.
pub fn peer_query(
    storage: &Store,
    info: &MessageInfo,
    msg: &ExecuteMsg,
) -> (result: Result<Option<WasmQuery>, TAError>)
    ensures
        match peer_query_model(storage.deep_view(), info.deep_view(), msg.deep_view()) {
            Ok(query) => result is Ok && result->Ok_0.deep_view() == query,
            Err(error) => result == Err::<Option<WasmQuery>, TAError>(error),
        },
{
    let config = read_config(storage);
    match msg {
        ExecuteMsg::PlaceBet(_) => {
            if !info.funds.is_empty() {
                return Err(TAError::UnnecessaryFunds);
            }
            if !(info.sender == config.user_board) {
                return Err(TAError::NotAuthorized);
            }
            Ok(
                Some(
                    WasmQuery {
                        contract_addr: config.ticket_manager,
                        msg: QueryPayload::TicketManager(TicketQueryMsg::QueryTickets {  }),
                    },
                ),
            )
        },
        ExecuteMsg::DecideWinningBet { tid } => {
            if !(info.sender == config.admin_board) {
                return Err(TAError::NotAuthorized);
            }
            if !info.funds.is_empty() {
                return Err(TAError::UnnecessaryFunds);
            }
            Ok(
                Some(
                    WasmQuery {
                        contract_addr: config.ticket_manager,
                        msg: QueryPayload::TicketManager(
                            TicketQueryMsg::QueryTicketInfo { tid: *tid },
                        ),
                    },
                ),
            )
        },
    }
}

/// What `execute` does: what the handler of the message does with what the
/// answer holds for it.
pub open spec fn execute_model(
    before: StoreView,
    env: EnvView,
    info: MessageInfoView,
    msg: ExecuteMsgView,
    bidder_valid: bool,
    answer: QueryAnswerView,
) -> Result<(StoreView, ResponseView), TAError> {
    match msg {
        ExecuteMsgView::PlaceBet(msg) => place_bet_model(
            before,
            info,
            msg,
            answer.tickets(),
            bidder_valid,
        ),
        ExecuteMsgView::DecideWinningBet { tid } => decide_winning_bet_model(
            before,
            env,
            info,
            tid,
            answer.ticket_info(),
        ),
    }
}

/// Runs the handler of `msg`. `answer` is what the ticket manager answered
/// to the question of [`peer_query`]; `bidder_valid` matters to a bet only.
/// An error of [`peer_query`] is the error of `execute`, whatever the answer.
pub fn execute(
    storage: &mut Store,
    env: Env,
    info: MessageInfo,
    msg: ExecuteMsg,
    bidder_valid: bool,
    answer: QueryAnswer,
) -> (result: Result<Response, TAError>)
    ensures
        settles(
            old(storage).deep_view(),
            final(storage).deep_view(),
            result,
            execute_model(
                old(storage).deep_view(),
                env.deep_view(),
                info.deep_view(),
                msg.deep_view(),
                bidder_valid,
                answer.deep_view(),
            ),
        ),
        peer_query_model(old(storage).deep_view(), info.deep_view(), msg.deep_view()) is Err
            ==> result is Err && result->Err_0 == peer_query_model(
            old(storage).deep_view(),
            info.deep_view(),
            msg.deep_view(),
        )->Err_0,
{
    match msg {
        ExecuteMsg::PlaceBet(msg) => {
            let tickets = answer.into_tickets();
            place_bet(storage, info, msg, &tickets, bidder_valid)
        },
        ExecuteMsg::DecideWinningBet { tid } => decide_winning_bet(
            storage,
            env,
            info,
            tid,
            answer.into_ticket_info(),
        ),
    }
}

/// The numbers of the tickets that bets are kept for, ascending.
pub fn query_bet_avail_tickets(storage: &Store) -> (tids: Vec<u64>)
    ensures
        ascending(tids@),
        forall|tid: u64| tids@.contains(tid) <==> storage.deep_view().bets.contains_key(tid),
{
    read_curr_avail_tickets(storage)
}

/// The open bets of the ticket `tid`, oldest first; `NotFound` if none are
/// kept for it.
pub fn query_curr_active_bets(storage: &Store, tid: u64) -> (found: Result<Vec<BetDetail>, TAError>)
    ensures
        match found {
            Ok(bets) => storage.deep_view().bets.contains_key(tid)
                && storage.deep_view().bets[tid] == bets.deep_view(),
            Err(error) => error == TAError::NotFound && !storage.deep_view().bets.contains_key(tid),
        },
{
    read_bets_ticket(storage, tid)
}

/// The answer `answer` is the one that the records `records` give to `msg`.
pub open spec fn answers(records: StoreView, msg: QueryMsg, answer: QueryAnswerView) -> bool {
    match msg {
        QueryMsg::BetAvailableTickets => answer matches QueryAnswerView::TicketIds(tids)
            && ascending(tids) && forall|tid: u64|
            tids.contains(tid) <==> records.bets.contains_key(tid),
        QueryMsg::CurrActiveBets { tid } => answer == QueryAnswerView::Bets(records.bets[tid]),
    }
}

/// Whether the records `records` have an answer to `msg`: the bets of a
/// ticket can be told only where bets are kept for it.
pub open spec fn answerable(records: StoreView, msg: QueryMsg) -> bool {
    match msg {
        QueryMsg::BetAvailableTickets => true,
        QueryMsg::CurrActiveBets { tid } => records.bets.contains_key(tid),
    }
}

/// Answers `msg` from the records; `NotFound` where they have no answer.
pub fn query(storage: &Store, msg: QueryMsg) -> (result: Result<QueryAnswer, TAError>)
    ensures
        match result {
            Ok(answer) => answerable(storage.deep_view(), msg) && answers(
                storage.deep_view(),
                msg,
                answer.deep_view(),
            ),
            Err(error) => error == TAError::NotFound && !answerable(storage.deep_view(), msg),
        },
{
    match msg {
        QueryMsg::BetAvailableTickets => {
            let tids = query_bet_avail_tickets(storage);
            assert(tids.deep_view() =~= tids@);
            Ok(QueryAnswer::TicketIds(tids))
        },
        QueryMsg::CurrActiveBets { tid } => match query_curr_active_bets(storage, tid) {
            Ok(bets) => Ok(QueryAnswer::Bets(bets)),
            Err(_) => Err(TAError::NotFound),
        },
    }
}

/// Migrating touches no record and answers with an empty response.
pub fn migrate(msg: MigrateMsg) -> (result: Result<Response, TAError>)
    ensures
        result is Ok,
        result->Ok_0.deep_view() == (ResponseView {
            messages: Seq::empty(),
            attributes: Seq::empty(),
        }),
{
    Ok(Response::new())
}

} // verus!
