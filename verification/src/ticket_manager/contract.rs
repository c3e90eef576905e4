//! The handlers of the ticket manager.
//!
//! The ticket manager owns the tickets and the assignments. The admin board
//! adds, changes and removes tickets, the auction manager records the winner
//! of a ticket, and a submitted result is assessed here: the part of the
//! stake to withhold is computed and sent to the admin board, which settles
//! the stake. No funds move here.
//!
//! No two tickets have the same number, a bet deadline is never after the
//! close deadline of its ticket, and a result is assessed once for a ticket.

use vstd::prelude::*;
use crate::admin_board::{
    ExecuteMsg as AdminExecuteMsg, ExecuteMsgView as AdminExecuteMsgView, SlashMsg, SlashMsgView,
};
use crate::error::TAError;
use crate::host::{
    call, reply, reply_with, settles, AttributeView, CosmosMsg, Env, EnvView, ExecutePayload,
    ExecutePayloadView, MessageInfo, MessageInfoView, QueryAnswer, QueryAnswerView, Response,
    ResponseView,
};
use crate::table::ascending;
use crate::ticket_manager::state::{
    distinct_numbers, find_ticket, is_assessed, lemma_find_ticket_has_number,
    lemma_find_ticket_none,
    read_all_assigned_tickets, read_assessed_tickets, read_config, read_ticket_for_id,
    read_tickets, read_worker_for_ticket, store_assessed_tickets, store_config, store_tickets,
    store_tw_pair, Config, ConfigView, Store, StoreView,
};
use crate::ticket_manager::{
    AddTicketMsg, ExecuteMsg, ExecuteMsgView, InstantiateMsg, InstantiateMsgView, MigrateMsg,
    PostConfigMsg, PostConfigMsgView, QueryMsg, TWPairsReponse, Ticket, TicketInfoResponse,
    TicketResultMsg, TicketResultMsgView, TicketView, TicketWorkerPair, TicketWorkerPairView,
    TicketsResponse, TicketsResponseView, UpdateTicketMsg, UpdateTicketMsgView,
};

verus! {

/// The thousandths of the collateral withheld for a wrong result.
pub const MISMATCH_SLASH: u128 = 500;

/// The thousandths of the collateral withheld for a late result.
pub const LATE_SLASH: u128 = 300;

/// The most that is ever withheld: the whole collateral, in thousandths.
pub const FULL_SLASH: u128 = 1000;

/// What `instantiate` does: it takes no funds, makes the sender the admin
/// board, and starts without tickets and without assignments.
pub open spec fn instantiate_model(
    env: EnvView,
    info: MessageInfoView,
    msg: InstantiateMsgView,
) -> Result<(StoreView, ResponseView), TAError> {
    if info.funds.len() != 0 {
        Err(TAError::UnnecessaryFunds)
    } else {
        Ok(
            (
                StoreView {
                    config: ConfigView {
                        admin_board: info.sender,
                        auction_manager: msg.auction_manager,
                        user_board: msg.user_board,
                    },
                    tickets: Seq::empty(),
                    pairs: Map::empty(),
                    assessed: Seq::empty(),
                },
                ResponseView {
                    messages: Seq::empty(),
                    attributes: seq![
                        AttributeView { key: "method"@, value: "instantiate"@ },
                        AttributeView { key: "contract"@, value: env.contract },
                        AttributeView { key: "admin"@, value: info.sender },
                    ],
                },
            ),
        )
    }
}

/// Creates the records of a ticket manager.
pub fn instantiate(
    env: Env,
    info: MessageInfo,
    msg: InstantiateMsg,
) -> (result: Result<(Store, Response), TAError>)
    ensures
        match instantiate_model(env.deep_view(), info.deep_view(), msg.deep_view()) {
            Ok((records, response)) => {
                &&& result is Ok
                &&& result->Ok_0.0.deep_view() == records
                &&& result->Ok_0.1.deep_view() == response
            },
            Err(error) => result is Err && result->Err_0 == error,
        },
{
    if !info.funds.is_empty() {
        return Err(TAError::UnnecessaryFunds);
    }
    let response = Response::new().add_attribute("method", "instantiate").add_attribute(
        "contract",
        env.contract.as_str(),
    ).add_attribute("admin", info.sender.as_str());
    let storage = Store::new(
        Config {
            admin_board: info.sender,
            auction_manager: msg.auction_manager,
            user_board: msg.user_board,
        },
    );
    assert(response.deep_view().attributes =~= instantiate_model(
        env.deep_view(),
        info.deep_view(),
        msg.deep_view(),
    )->Ok_0.1.attributes);
    Ok((storage, response))
}

/// The bet deadline of `ticket` is not after its close deadline.
pub open spec fn deadlines_in_order(ticket: TicketView) -> bool {
    ticket.bet_finish_timestamp <= ticket.close_timestamp
}

/// What `add_ticket` does: only the admin board may call it, and it takes no
/// funds. A ticket whose number is listed already is refused with
/// `AlreadyExists`, and one whose bet deadline is after its close deadline
/// with `InvalidDeadline`. Otherwise the ticket goes behind the others.
pub open spec fn add_ticket_model(
    before: StoreView,
    info: MessageInfoView,
    msg: TicketView,
) -> Result<(StoreView, ResponseView), TAError> {
    if info.sender != before.config.admin_board {
        Err(TAError::NotAuthorized)
    } else if info.funds.len() != 0 {
        Err(TAError::UnnecessaryFunds)
    } else if find_ticket(before.tickets, msg.id) is Some {
        Err(TAError::AlreadyExists)
    } else if !deadlines_in_order(msg) {
        Err(TAError::InvalidDeadline)
    } else {
        Ok(
            (
                StoreView { tickets: before.tickets.push(msg), ..before },
                ResponseView {
                    messages: Seq::empty(),
                    attributes: seq![
                        AttributeView { key: "method"@, value: "store_ticket"@ },
                        AttributeView { key: "result"@, value: "success"@ },
                    ],
                },
            ),
        )
    }
}

/// Adds a ticket.
pub fn add_ticket(
    storage: &mut Store,
    info: MessageInfo,
    msg: AddTicketMsg,
) -> (result: Result<Response, TAError>)
    ensures
        settles(
            old(storage).deep_view(),
            final(storage).deep_view(),
            result,
            add_ticket_model(old(storage).deep_view(), info.deep_view(), msg.deep_view()),
        ),
{
    let config = read_config(storage);
    if !(info.sender == config.admin_board) {
        return Err(TAError::NotAuthorized);
    }
    if !info.funds.is_empty() {
        return Err(TAError::UnnecessaryFunds);
    }
    if read_ticket_for_id(storage, msg.id).is_ok() {
        return Err(TAError::AlreadyExists);
    }
    if msg.bet_finish_timestamp > msg.close_timestamp {
        return Err(TAError::InvalidDeadline);
    }
    let mut tickets = read_tickets(storage);
    let ghost listed = tickets.deep_view();
    let ticket = Ticket {
        id: msg.id,
        bet_finish_timestamp: msg.bet_finish_timestamp,
        close_timestamp: msg.close_timestamp,
        result: msg.result,
        collateral: msg.collateral,
    };
    tickets.push(ticket);
    assert(tickets.deep_view() =~= listed.push(msg.deep_view()));
    store_tickets(storage, tickets);
    let response = Response::new().add_attribute("method", "store_ticket").add_attribute(
        "result",
        "success",
    );
    assert(response.deep_view().attributes =~= add_ticket_model(
        old(storage).deep_view(),
        info.deep_view(),
        msg.deep_view(),
    )->Ok_0.1.attributes);
    Ok(response)
}

/// The ticket `ticket` with the fields that `msg` gives put in place of its own.
pub open spec fn updated_ticket(ticket: TicketView, msg: UpdateTicketMsgView) -> TicketView {
    TicketView {
        id: ticket.id,
        bet_finish_timestamp: match msg.bet_finish_timestamp {
            Some(time) => time,
            None => ticket.bet_finish_timestamp,
        },
        close_timestamp: match msg.close_timestamp {
            Some(time) => time,
            None => ticket.close_timestamp,
        },
        result: match msg.result {
            Some(result) => result,
            None => ticket.result,
        },
        collateral: match msg.collateral {
            Some(collateral) => collateral,
            None => ticket.collateral,
        },
    }
}

/// What `update_ticket` does: only the admin board may call it, and the
/// ticket has to exist. A change that would put the bet deadline after the
/// close deadline is refused with `InvalidDeadline`. Otherwise every ticket
/// with the number becomes the first such ticket with the given fields
/// changed.
pub open spec fn update_ticket_model(
    before: StoreView,
    info: MessageInfoView,
    msg: UpdateTicketMsgView,
) -> Result<(StoreView, ResponseView), TAError> {
    if info.sender != before.config.admin_board {
        Err(TAError::NotAuthorized)
    } else {
        match find_ticket(before.tickets, msg.id) {
            None => Err(TAError::NotFound),
            Some(ticket) => if !deadlines_in_order(updated_ticket(ticket, msg)) {
                Err(TAError::InvalidDeadline)
            } else {
                Ok(
                    (
                        StoreView {
                            tickets: before.tickets.map_values(
                                |other: TicketView|
                                    if other.id == msg.id {
                                        updated_ticket(ticket, msg)
                                    } else {
                                        other
                                    },
                            ),
                            ..before
                        },
                        reply("update_ticket"@),
                    ),
                )
            },
        }
    }
}

/// Changes fields of a ticket.
pub fn update_ticket(
    storage: &mut Store,
    info: MessageInfo,
    msg: UpdateTicketMsg,
) -> (result: Result<Response, TAError>)
    ensures
        settles(
            old(storage).deep_view(),
            final(storage).deep_view(),
            result,
            update_ticket_model(old(storage).deep_view(), info.deep_view(), msg.deep_view()),
        ),
{
    let config = read_config(storage);
    if !(info.sender == config.admin_board) {
        return Err(TAError::NotAuthorized);
    }
    let ticket_id = msg.id;
    let mut ticket = match read_ticket_for_id(storage, ticket_id) {
        Ok(ticket) => ticket,
        Err(_) => {
            return Err(TAError::NotFound);
        },
    };
    let ghost found = ticket.deep_view();
    if let Some(bet_finish_timestamp) = msg.bet_finish_timestamp {
        ticket.bet_finish_timestamp = bet_finish_timestamp;
    }
    if let Some(close_timestamp) = msg.close_timestamp {
        ticket.close_timestamp = close_timestamp;
    }
    if let Some(collateral) = msg.collateral {
        ticket.collateral = collateral;
    }
    if let Some(result) = msg.result {
        ticket.result = result;
    }
    assert(ticket.deep_view() == updated_ticket(found, msg.deep_view()));
    if ticket.bet_finish_timestamp > ticket.close_timestamp {
        return Err(TAError::InvalidDeadline);
    }

    let tickets = read_tickets(storage);
    let ghost change = |other: TicketView|
        if other.id == ticket_id {
            ticket.deep_view()
        } else {
            other
        };
    let mut changed: Vec<Ticket> = Vec::new();
    let mut at: usize = 0;
    while at < tickets.len()
        invariant
            at <= tickets@.len(),
            change == (|other: TicketView|
                if other.id == ticket_id {
                    ticket.deep_view()
                } else {
                    other
                }),
            changed.deep_view() == tickets.deep_view().take(at as int).map_values(change),
        decreases tickets@.len() - at,
    {
        let ghost done = changed.deep_view();
        let next = if tickets[at].id == ticket_id {
            ticket.clone()
        } else {
            tickets[at].clone()
        };
        assert(next.deep_view() == change(tickets.deep_view()[at as int]));
        changed.push(next);
        assert(changed.deep_view() =~= done.push(next.deep_view()));
        at = at + 1;
        assert(changed.deep_view() =~= tickets.deep_view().take(at as int).map_values(change));
    }
    assert(tickets.deep_view().take(at as int) =~= tickets.deep_view());
    assert(changed.deep_view() =~= update_ticket_model(
        old(storage).deep_view(),
        info.deep_view(),
        msg.deep_view(),
    )->Ok_0.0.tickets);
    store_tickets(storage, changed);
    Ok(Response::reporting("update_ticket"))
}

/// What `remove_ticket` does: only the admin board may call it, and every
/// ticket with the number leaves. The assignment of the ticket and the
/// record that a result was assessed for it stay as they are, and so do the
/// bets and stakes that other services keep for it: a later ticket of the
/// same number is not settled a second time.
pub open spec fn remove_ticket_model(
    before: StoreView,
    info: MessageInfoView,
    id: u64,
) -> Result<(StoreView, ResponseView), TAError> {
    if info.sender != before.config.admin_board {
        Err(TAError::NotAuthorized)
    } else {
        Ok(
            (
                StoreView {
                    tickets: before.tickets.filter(|ticket: TicketView| ticket.id != id),
                    ..before
                },
                reply("remove_ticket"@),
            ),
        )
    }
}

/// Removes a ticket.
pub fn remove_ticket(
    storage: &mut Store,
    info: MessageInfo,
    id: u64,
) -> (result: Result<Response, TAError>)
    ensures
        settles(
            old(storage).deep_view(),
            final(storage).deep_view(),
            result,
            remove_ticket_model(old(storage).deep_view(), info.deep_view(), id),
        ),
{
    let config = read_config(storage);
    if !(info.sender == config.admin_board) {
        return Err(TAError::NotAuthorized);
    }
    let tickets = read_tickets(storage);
    let ghost keep = |ticket: TicketView| ticket.id != id;
    let mut kept: Vec<Ticket> = Vec::new();
    let mut at: usize = 0;
    while at < tickets.len()
        invariant
            at <= tickets@.len(),
            keep == (|ticket: TicketView| ticket.id != id),
            kept.deep_view() == tickets.deep_view().take(at as int).filter(keep),
        decreases tickets@.len() - at,
    {
        let ghost seen = tickets.deep_view().take(at as int);
        let ghost done = kept.deep_view();
        proof {
            assert(tickets.deep_view().take(at + 1) =~= seen.push(tickets.deep_view()[at as int]));
            seen.lemma_filter_push(tickets.deep_view()[at as int], keep);
        }
        if tickets[at].id != id {
            let ticket = tickets[at].clone();
            kept.push(ticket);
            assert(kept.deep_view() =~= done.push(ticket.deep_view()));
        }
        at = at + 1;
    }
    assert(tickets.deep_view().take(at as int) =~= tickets.deep_view());
    store_tickets(storage, kept);
    Ok(Response::reporting("remove_ticket"))
}

/// Filtering keeps the numbers distinct.
proof fn lemma_filter_keeps_distinct(tickets: Seq<TicketView>, keep: spec_fn(TicketView) -> bool)
    requires
        distinct_numbers(tickets),
    ensures
        distinct_numbers(tickets.filter(keep)),
    decreases tickets.len(),
{
    reveal(Seq::filter);
    if tickets.len() > 0 {
        let front = tickets.drop_last();
        assert forall|i: int, j: int| 0 <= i < j < front.len() implies front[i].id
            != front[j].id by {
            assert(front[i] == tickets[i] && front[j] == tickets[j]);
        }
        lemma_filter_keeps_distinct(front, keep);
        let kept = front.filter(keep);
        if keep(tickets.last()) {
            let all = kept.push(tickets.last());
            assert forall|i: int, j: int| 0 <= i < j < all.len() implies all[i].id
                != all[j].id by {
                if j == kept.len() {
                    front.lemma_filter_contains_rev(keep, kept[i]);
                    let k = choose|k: int| 0 <= k < front.len() && front[k] == kept[i];
                    assert(tickets[k] == kept[i]);
                } else {
                    assert(kept[i].id != kept[j].id);
                }
            }
        }
    }
}

/// The tickets keep distinct numbers. Where no two tickets have the same
/// number, none of adding, changing and removing a ticket makes two tickets
/// have the same number, whether the call succeeds or fails.
pub proof fn lemma_ticket_numbers_stay_distinct(
    before: StoreView,
    info: MessageInfoView,
    added: TicketView,
    change: UpdateTicketMsgView,
    removed: u64,
)
    requires
        distinct_numbers(before.tickets),
    ensures
        add_ticket_model(before, info, added) matches Ok((after, _)) ==> distinct_numbers(
            after.tickets,
        ),
        update_ticket_model(before, info, change) matches Ok((after, _)) ==> distinct_numbers(
            after.tickets,
        ),
        remove_ticket_model(before, info, removed) matches Ok((after, _)) ==> distinct_numbers(
            after.tickets,
        ),
{
    if add_ticket_model(before, info, added) is Ok {
        lemma_find_ticket_none(before.tickets, added.id);
    }
    if update_ticket_model(before, info, change) is Ok {
        lemma_find_ticket_has_number(before.tickets, change.id);
        let after = update_ticket_model(before, info, change)->Ok_0.0.tickets;
        assert forall|i: int| 0 <= i < after.len() implies after[i].id == before.tickets[i].id by {}
    }
    lemma_filter_keeps_distinct(before.tickets, |ticket: TicketView| ticket.id != removed);
}

/// What `save_ticket_worker` does: only the configured auction manager may
/// call it, the ticket has to exist, and the worker takes the place of an
/// earlier assignment of the ticket.
pub open spec fn save_ticket_worker_model(
    before: StoreView,
    info: MessageInfoView,
    msg: TicketWorkerPairView,
) -> Result<(StoreView, ResponseView), TAError> {
    match before.config.auction_manager {
        None => Err(TAError::NotInitialized),
        Some(auction_manager) => if info.sender != auction_manager {
            Err(TAError::NotAuthorized)
        } else if find_ticket(before.tickets, msg.tid) is None {
            Err(TAError::NotFound)
        } else {
            Ok(
                (
                    StoreView { pairs: before.pairs.insert(msg.tid, msg.worker), ..before },
                    reply("save ticket-worker pair"@),
                ),
            )
        },
    }
}

/// Records the winner of a ticket.
pub fn save_ticket_worker(
    storage: &mut Store,
    info: MessageInfo,
    msg: TicketWorkerPair,
) -> (result: Result<Response, TAError>)
    ensures
        settles(
            old(storage).deep_view(),
            final(storage).deep_view(),
            result,
            save_ticket_worker_model(old(storage).deep_view(), info.deep_view(), msg.deep_view()),
        ),
{
    let config = read_config(storage);
    let auction_manager = match config.auction_manager {
        Some(auction_manager) => auction_manager,
        None => {
            return Err(TAError::NotInitialized);
        },
    };
    if !(info.sender == auction_manager) {
        return Err(TAError::NotAuthorized);
    }
    if read_ticket_for_id(storage, msg.tid).is_err() {
        return Err(TAError::NotFound);
    }
    store_tw_pair(storage, msg);
    Ok(Response::reporting("save ticket-worker pair"))
}

/// The thousandths of the collateral to withhold for the submission `result`
/// made at the time `now` for `ticket`: `MISMATCH_SLASH` if the result is not
/// the expected one, and `LATE_SLASH` more if `now` is past the close
/// deadline, but never more than `FULL_SLASH`.
pub open spec fn slash_percent(ticket: TicketView, result: Seq<char>, now: u64) -> u128 {
    let mismatch: u128 = if ticket.result != result {
        MISMATCH_SLASH
    } else {
        0
    };
    let late: u128 = if now > ticket.close_timestamp {
        LATE_SLASH
    } else {
        0
    };
    if mismatch + late > FULL_SLASH {
        FULL_SLASH
    } else {
        (mismatch + late) as u128
    }
}

/// Computes [`slash_percent`].
pub fn assess(ticket: &Ticket, result: &String, now: u64) -> (slash_perc: u128)
    ensures
        slash_perc == slash_percent(ticket.deep_view(), result@, now),
        slash_perc <= FULL_SLASH,
{
    let mut slash_perc: u128 = 0;
    if !(ticket.result == *result) {
        slash_perc = slash_perc + MISMATCH_SLASH;
    }
    if now > ticket.close_timestamp {
        slash_perc = slash_perc + LATE_SLASH;
    }
    if slash_perc > FULL_SLASH {
        slash_perc = FULL_SLASH;
    }
    slash_perc
}

/// What is withheld never shrinks as a submission gets worse: a later
/// submission of the same result has no less withheld, and a wrong result
/// has no less withheld than the expected one at the same time. A wrong and
/// late submission has 800 thousandths withheld, the expected result on time
/// has nothing withheld, and no submission has more than the whole withheld.
pub proof fn lemma_slash_percent_monotone(
    ticket: TicketView,
    result: Seq<char>,
    now: u64,
    later: u64,
)
    requires
        now <= later,
    ensures
        slash_percent(ticket, result, now) <= slash_percent(ticket, result, later),
        slash_percent(ticket, ticket.result, now) <= slash_percent(ticket, result, now),
        result != ticket.result && now > ticket.close_timestamp ==> slash_percent(
            ticket,
            result,
            now,
        ) == 800,
        now <= ticket.close_timestamp ==> slash_percent(ticket, ticket.result, now) == 0,
        slash_percent(ticket, result, now) <= FULL_SLASH,
{
}

/// What `assess_submission` does. It takes no funds, the ticket has to be
/// assigned, and to the worker that `msg` names. The ticket has to exist,
/// and no result may have been assessed for it before: a second submission
/// is refused with `AlreadyAssessed`. The host has to accept the worker's
/// address. Then the ticket is recorded as assessed, and the admin board is
/// asked to settle the worker's stake with [`slash_percent`] thousandths
/// withheld.
pub open spec fn assess_submission_model(
    before: StoreView,
    env: EnvView,
    info: MessageInfoView,
    msg: TicketResultMsgView,
    worker_valid: bool,
) -> Result<(StoreView, ResponseView), TAError> {
    if info.funds.len() != 0 {
        Err(TAError::UnnecessaryFunds)
    } else if !before.pairs.contains_key(msg.tid) {
        Err(TAError::NotFound)
    } else if msg.worker != before.pairs[msg.tid] {
        Err(TAError::NotAuthorized)
    } else {
        match find_ticket(before.tickets, msg.tid) {
            None => Err(TAError::NotFound),
            Some(ticket) => if before.assessed.contains(msg.tid) {
                Err(TAError::AlreadyAssessed)
            } else if !worker_valid {
                Err(TAError::InvalidAddress)
            } else {
                Ok(
                    (
                        StoreView { assessed: before.assessed.push(msg.tid), ..before },
                        reply_with(
                            call(
                                before.config.admin_board,
                                ExecutePayloadView::AdminBoard(
                                    AdminExecuteMsgView::ReleaseStakeWithSlash(
                                        SlashMsgView {
                                            tid: msg.tid,
                                            worker: msg.worker,
                                            slash_perc: slash_percent(ticket, msg.result, env.time),
                                        },
                                    ),
                                ),
                            ),
                            "assess submission"@,
                        ),
                    ),
                )
            },
        }
    }
}

/// Assesses a submitted result. `worker_valid` says whether the host accepts
/// the address of the submitting worker.
pub fn assess_submission(
    storage: &mut Store,
    env: Env,
    info: MessageInfo,
    msg: TicketResultMsg,
    worker_valid: bool,
) -> (result: Result<Response, TAError>)
    ensures
        settles(
            old(storage).deep_view(),
            final(storage).deep_view(),
            result,
            assess_submission_model(
                old(storage).deep_view(),
                env.deep_view(),
                info.deep_view(),
                msg.deep_view(),
                worker_valid,
            ),
        ),
{
    let config = read_config(storage);
    if !info.funds.is_empty() {
        return Err(TAError::UnnecessaryFunds);
    }
    let assignee = match read_worker_for_ticket(storage, msg.tid) {
        Ok(assignee) => assignee,
        Err(_) => {
            return Err(TAError::NotFound);
        },
    };
    if !(msg.worker == assignee) {
        return Err(TAError::NotAuthorized);
    }
    let ticket = match read_ticket_for_id(storage, msg.tid) {
        Ok(ticket) => ticket,
        Err(_) => {
            return Err(TAError::NotFound);
        },
    };
    if is_assessed(storage, msg.tid) {
        return Err(TAError::AlreadyAssessed);
    }
    let slash_perc = assess(&ticket, &msg.result, env.time);
    if !worker_valid {
        return Err(TAError::InvalidAddress);
    }
    let mut assessed = read_assessed_tickets(storage);
    assessed.push(msg.tid);
    store_assessed_tickets(storage, assessed);
    let message = CosmosMsg::call(
        config.admin_board,
        ExecutePayload::AdminBoard(
            AdminExecuteMsg::ReleaseStakeWithSlash(
                SlashMsg { tid: msg.tid, worker: msg.worker, slash_perc },
            ),
        ),
    );
    Ok(Response::sending(message, "assess submission"))
}

/// What `execute_post_config` does: it takes no funds, only the admin board
/// may call it, and both peer addresses are replaced.
pub open spec fn execute_post_config_model(
    before: StoreView,
    info: MessageInfoView,
    msg: PostConfigMsgView,
) -> Result<(StoreView, ResponseView), TAError> {
    if info.funds.len() != 0 {
        Err(TAError::UnnecessaryFunds)
    } else if info.sender != before.config.admin_board {
        Err(TAError::NotAuthorized)
    } else {
        Ok(
            (
                StoreView {
                    config: ConfigView {
                        admin_board: before.config.admin_board,
                        auction_manager: msg.auction_manager,
                        user_board: msg.user_board,
                    },
                    ..before
                },
                reply("PostConfig"@),
            ),
        )
    }
}

/// Replaces the peer addresses.
pub fn execute_post_config(
    storage: &mut Store,
    info: MessageInfo,
    msg: PostConfigMsg,
) -> (result: Result<Response, TAError>)
    ensures
        settles(
            old(storage).deep_view(),
            final(storage).deep_view(),
            result,
            execute_post_config_model(old(storage).deep_view(), info.deep_view(), msg.deep_view()),
        ),
{
    if !info.funds.is_empty() {
        return Err(TAError::UnnecessaryFunds);
    }
    let mut config = read_config(storage);
    if !(info.sender == config.admin_board) {
        return Err(TAError::NotAuthorized);
    }
    config.auction_manager = msg.auction_manager;
    config.user_board = msg.user_board;
    store_config(storage, config);
    Ok(Response::reporting("PostConfig"))
}

/// The address that the host has to check before `execute` can run `msg`:
/// the one of the submitting worker, where a result is submitted.
pub open spec fn checked_address_model(msg: ExecuteMsgView) -> Option<Seq<char>> {
    match msg {
        ExecuteMsgView::AssessSubmission(msg) => Some(msg.worker),
        _ => None,
    }
}

/// The address whose validity `execute` is told for `msg`, if it looks at one.
pub fn checked_address(msg: &ExecuteMsg) -> (address: Option<String>)
    ensures
        address.deep_view() == checked_address_model(msg.deep_view()),
{
    match msg {
        ExecuteMsg::AssessSubmission(msg) => Some(msg.worker.clone()),
        _ => None,
    }
}

/// What `execute` does: what the handler of the message does.
pub open spec fn execute_model(
    before: StoreView,
    env: EnvView,
    info: MessageInfoView,
    msg: ExecuteMsgView,
    worker_valid: bool,
) -> Result<(StoreView, ResponseView), TAError> {
    match msg {
        ExecuteMsgView::AddTicket(msg) => add_ticket_model(before, info, msg),
        ExecuteMsgView::UpdateTicket(msg) => update_ticket_model(before, info, msg),
        ExecuteMsgView::RemoveTicket { tid } => remove_ticket_model(before, info, tid),
        ExecuteMsgView::AssessSubmission(msg) => assess_submission_model(
            before,
            env,
            info,
            msg,
            worker_valid,
        ),
        ExecuteMsgView::SaveTicketWorker(msg) => save_ticket_worker_model(before, info, msg),
        ExecuteMsgView::PostConfig(msg) => execute_post_config_model(before, info, msg),
    }
}

/// Runs the handler of `msg`. `worker_valid` matters to a submission only:
/// it says whether the host accepts the address of the submitting worker.
pub fn execute(
    storage: &mut Store,
    env: Env,
    info: MessageInfo,
    msg: ExecuteMsg,
    worker_valid: bool,
) -> (result: Result<Response, TAError>)
    ensures
        settles(
            old(storage).deep_view(),
            final(storage).deep_view(),
            result,
            execute_model(
                old(storage).deep_view(),
                env.deep_view(),
                info.deep_view(),
                msg.deep_view(),
                worker_valid,
            ),
        ),
{
    match msg {
        ExecuteMsg::AddTicket(msg) => add_ticket(storage, info, msg),
        ExecuteMsg::UpdateTicket(msg) => update_ticket(storage, info, msg),
        ExecuteMsg::RemoveTicket { tid } => remove_ticket(storage, info, tid),
        ExecuteMsg::AssessSubmission(msg) => assess_submission(
            storage,
            env,
            info,
            msg,
            worker_valid,
        ),
        ExecuteMsg::SaveTicketWorker(msg) => save_ticket_worker(storage, info, msg),
        ExecuteMsg::PostConfig(msg) => execute_post_config(storage, info, msg),
    }
}

/// The first ticket with the number `id`; `NotFound` if no ticket has it.
pub fn query_ticket(storage: &Store, id: u64) -> (found: Result<TicketInfoResponse, TAError>)
    ensures
        match find_ticket(storage.deep_view().tickets, id) {
            Some(ticket) => found is Ok && found->Ok_0.deep_view() == ticket,
            None => found == Err::<TicketInfoResponse, TAError>(TAError::NotFound),
        },
{
    match read_ticket_for_id(storage, id) {
        Ok(ticket) => Ok(
            TicketInfoResponse {
                id: ticket.id,
                bet_finish_timestamp: ticket.bet_finish_timestamp,
                close_timestamp: ticket.close_timestamp,
                result: ticket.result,
                collateral: ticket.collateral,
            },
        ),
        Err(_) => Err(TAError::NotFound),
    }
}

/// All tickets, in the order they were added.
pub fn query_tickets(storage: &Store) -> (tickets: Vec<Ticket>)
    ensures
        tickets.deep_view() == storage.deep_view().tickets,
{
    read_tickets(storage)
}

/// The pairs list every assignment of `pairs` once, by ascending ticket.
pub open spec fn lists_pairs(
    listed: Seq<TicketWorkerPairView>,
    pairs: Map<u64, Seq<char>>,
) -> bool {
    &&& forall|i: int, j: int| 0 <= i < j < listed.len() ==> listed[i].tid < listed[j].tid
    &&& forall|i: int|
        0 <= i < listed.len() ==> pairs.contains_key(#[trigger] listed[i].tid)
            && pairs[listed[i].tid] == listed[i].worker
    &&& forall|tid: u64|
        pairs.contains_key(tid) ==> exists|i: int|
            0 <= i < listed.len() && #[trigger] listed[i].tid == tid
}

/// All assignments, by ascending ticket number.
pub fn query_ticket_worker_pairs(storage: &Store) -> (answer: TWPairsReponse)
    ensures
        lists_pairs(answer.deep_view().pairs, storage.deep_view().pairs),
{
    let tids = read_all_assigned_tickets(storage);
    let mut pairs: Vec<TicketWorkerPair> = Vec::new();
    let mut at: usize = 0;
    while at < tids.len()
        invariant
            at <= tids@.len(),
            ascending(tids@),
            forall|tid: u64| tids@.contains(tid) <==> storage.deep_view().pairs.contains_key(tid),
            pairs@.len() == at,
            forall|i: int| 0 <= i < at ==> (#[trigger] pairs.deep_view()[i]).tid == tids@[i],
            forall|i: int|
                0 <= i < at ==> (#[trigger] pairs.deep_view()[i]).worker
                    == storage.deep_view().pairs[tids@[i]],
        decreases tids@.len() - at,
    {
        let tid = tids[at];
        assert(tids@.contains(tid));
        let ghost listed = pairs.deep_view();
        match read_worker_for_ticket(storage, tid) {
            Ok(worker) => {
                let pair = TicketWorkerPair { tid, worker };
                pairs.push(pair);
                assert(pairs.deep_view() =~= listed.push(pair.deep_view()));
            },
            Err(_) => {
                assert(false);
            },
        }
        at = at + 1;
    }
    let answer = TWPairsReponse { pairs };
    proof {
        let listed = answer.deep_view().pairs;
        assert forall|i: int| 0 <= i < listed.len() implies storage.deep_view().pairs.contains_key(
            #[trigger] listed[i].tid,
        ) && storage.deep_view().pairs[listed[i].tid] == listed[i].worker by {
            assert(tids@.contains(tids@[i]));
        }
        assert forall|tid: u64| storage.deep_view().pairs.contains_key(tid) implies exists|i: int|
            0 <= i < listed.len() && #[trigger] listed[i].tid == tid by {
            assert(tids@.contains(tid));
            let i = choose|i: int| 0 <= i < tids@.len() && tids@[i] == tid;
            assert(listed[i].tid == tid);
        }
    }
    answer
}

/// The worker that the ticket `tid` is assigned to; `NotFound` if it is
/// assigned to none.
pub fn query_ticket_worker(storage: &Store, tid: u64) -> (found: Result<String, TAError>)
    ensures
        match found {
            Ok(worker) => storage.deep_view().pairs.contains_key(tid)
                && storage.deep_view().pairs[tid] == worker@,
            Err(error) => {
                error == TAError::NotFound && !storage.deep_view().pairs.contains_key(tid)
            },
        },
{
    read_worker_for_ticket(storage, tid)
}

/// The answer `answer` is the one that the records `records` give to `msg`.
pub open spec fn answers(records: StoreView, msg: QueryMsg, answer: QueryAnswerView) -> bool {
    match msg {
        QueryMsg::QueryTicketInfo { tid } => answer == QueryAnswerView::TicketInfo(
            find_ticket(records.tickets, tid)->Some_0,
        ),
        QueryMsg::QueryTickets {  } => answer == QueryAnswerView::Tickets(
            TicketsResponseView { tickets: records.tickets },
        ),
        QueryMsg::QueryTicketWorkerPairs {  } => answer matches QueryAnswerView::Pairs(listed)
            && lists_pairs(listed.pairs, records.pairs),
        QueryMsg::QueryTicketWorker { tid } => {
            answer == QueryAnswerView::Worker(records.pairs[tid])
        },
    }
}

/// Whether the records `records` have an answer to `msg`: a question for
/// one ticket has none if the ticket does not exist, and a question for the
/// worker of a ticket has none if the ticket is not assigned.
pub open spec fn answerable(records: StoreView, msg: QueryMsg) -> bool {
    match msg {
        QueryMsg::QueryTicketInfo { tid } => find_ticket(records.tickets, tid) is Some,
        QueryMsg::QueryTicketWorker { tid } => records.pairs.contains_key(tid),
        _ => true,
    }
}

/// Answers `msg` from the records; `NotFound` where they have no answer.
pub fn query(storage: &Store, msg: QueryMsg) -> (result: Result<QueryAnswer, TAError>)
    ensures
        match result {
            Ok(answer) => answerable(storage.deep_view(), msg) && answers(
                storage.deep_view(),
                msg,
                answer.deep_view(),
            ),
            Err(error) => error == TAError::NotFound && !answerable(storage.deep_view(), msg),
        },
{
    match msg {
        QueryMsg::QueryTicketInfo { tid } => match query_ticket(storage, tid) {
            Ok(ticket) => Ok(QueryAnswer::TicketInfo(ticket)),
            Err(_) => Err(TAError::NotFound),
        },
        QueryMsg::QueryTickets {  } => Ok(
            QueryAnswer::Tickets(TicketsResponse { tickets: query_tickets(storage) }),
        ),
        QueryMsg::QueryTicketWorkerPairs {  } => Ok(
            QueryAnswer::Pairs(query_ticket_worker_pairs(storage)),
        ),
        QueryMsg::QueryTicketWorker { tid } => match query_ticket_worker(storage, tid) {
            Ok(worker) => Ok(QueryAnswer::Worker(worker)),
            Err(_) => Err(TAError::NotFound),
        },
    }
}

/// Migrating touches no record and answers with an empty response.
pub fn migrate(msg: MigrateMsg) -> (result: Result<Response, TAError>)
    ensures
        result is Ok,
        result->Ok_0.deep_view() == (ResponseView {
            messages: Seq::empty(),
            attributes: Seq::empty(),
        }),
{
    Ok(Response::new())
}

} // verus!
