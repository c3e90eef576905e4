//! The handlers of the user board.
//!
//! Workers act through the user board. It passes a stake on to the
//! collateral manager, a bet on to the auction manager once the worker has a
//! stake locked for the ticket, and a result on to the ticket manager if the
//! ticket is assigned to the worker.

use vstd::prelude::*;
use crate::auction_manager::{
    ExecuteMsg as AuctionExecuteMsg, ExecuteMsgView as AuctionExecuteMsgView,
    PlaceBetMsg as AuctionPlaceBetMsg, PlaceBetMsgView as AuctionPlaceBetMsgView,
    QueryMsg as AuctionQueryMsg,
};
use crate::collateral_manager::contract::is_staked;
use crate::collateral_manager::{
    ExecuteMsg as CollateralExecuteMsg, ExecuteMsgView as CollateralExecuteMsgView,
    QueryMsg as CollateralQueryMsg, QueryMsgView as CollateralQueryMsgView, QueryStakeStatusMsg,
    QueryStakeStatusMsgView,
};
use crate::error::TAError;
use crate::host::{
    call, reply, reply_with, settles, AttributeView, CosmosMsg, CosmosMsgView, Env, ExecutePayload,
    ExecutePayloadView, MessageInfo, MessageInfoView, QueryAnswer, QueryAnswerView, QueryPayload,
    QueryPayloadView, Response, ResponseView, WasmMsg, WasmMsgView, WasmQuery, WasmQueryView,
};
use crate::ticket_manager::{
    ExecuteMsg as TicketExecuteMsg, ExecuteMsgView as TicketExecuteMsgView,
    QueryMsg as TicketQueryMsg, TicketResultMsg, TicketResultMsgView,
};
use crate::user_board::state::{read_config, store_config, Config, ConfigView, Store, StoreView};
use crate::user_board::{
    ExecuteMsg, ExecuteMsgView, InstantiateMsg, InstantiateMsgView, MigrateMsg, PlaceBetMsg,
    PostConfigMsg, PostConfigMsgView, QueryMsg, QueryMsgView,
};

verus! {

/// What `instantiate` does: it takes no funds, the sender becomes the admin
/// board, and the peers are the ones that `msg` names.
pub open spec fn instantiate_model(
    info: MessageInfoView,
    msg: InstantiateMsgView,
) -> Result<(StoreView, ResponseView), TAError> {
    if info.funds.len() != 0 {
        Err(TAError::UnnecessaryFunds)
    } else {
        Ok(
            (
                StoreView {
                    config: ConfigView {
                        admin_board: info.sender,
                        ticket_manager: msg.ticket_manager,
                        collateral_manager: msg.collateral_manater,
                        auction_manager: msg.auction_manager,
                    },
                },
                ResponseView {
                    messages: Seq::empty(),
                    attributes: seq![
                        AttributeView { key: "method"@, value: "instantiate"@ },
                        AttributeView { key: "owner"@, value: info.sender },
                    ],
                },
            ),
        )
    }
}

/// Creates the records of a user board.
pub fn instantiate(
    env: Env,
    info: MessageInfo,
    msg: InstantiateMsg,
) -> (result: Result<(Store, Response), TAError>)
    ensures
        match instantiate_model(info.deep_view(), msg.deep_view()) {
            Ok((records, response)) => {
                &&& result is Ok
                &&& result->Ok_0.0.deep_view() == records
                &&& result->Ok_0.1.deep_view() == response
            },
            Err(error) => result is Err && result->Err_0 == error,
        },
{
    if !info.funds.is_empty() {
        return Err(TAError::UnnecessaryFunds);
    }
    let response = Response::new().add_attribute("method", "instantiate").add_attribute(
        "owner",
        info.sender.as_str(),
    );
    assert(response.deep_view().attributes =~= instantiate_model(
        info.deep_view(),
        msg.deep_view(),
    )->Ok_0.1.attributes);
    let storage = Store::new(
        Config {
            admin_board: info.sender,
            ticket_manager: msg.ticket_manager,
            collateral_manager: msg.collateral_manater,
            auction_manager: msg.auction_manager,
        },
    );
    Ok((storage, response))
}

/// What `execute_lock_stake` does. Funds have to be attached, the host has
/// to accept the sender's address, and the collateral manager has to be
/// configured. Then the collateral manager is asked to lock the attached
/// funds as the stake of the sender. The records do not change.
pub open spec fn execute_lock_stake_model(
    before: StoreView,
    info: MessageInfoView,
    tid: u64,
    sender_valid: bool,
) -> Result<(StoreView, ResponseView), TAError> {
    if info.funds.len() == 0 {
        Err(TAError::InsufficientFunds)
    } else if !sender_valid {
        Err(TAError::InvalidAddress)
    } else {
        match before.config.collateral_manager {
            None => Err(TAError::NotInitialized),
            Some(collateral_manager) => Ok(
                (
                    before,
                    reply_with(
                        CosmosMsgView::Wasm(
                            WasmMsgView::Execute {
                                contract_addr: collateral_manager,
                                msg: ExecutePayloadView::CollateralManager(
                                    CollateralExecuteMsgView::LockStake {
                                        tid,
                                        worker: info.sender,
                                    },
                                ),
                                funds: info.funds,
                            },
                        ),
                        "lock stake"@,
                    ),
                ),
            ),
        }
    }
}

/// Passes a stake on. `sender_valid` says whether the host accepts the
/// address of the sender.
pub fn execute_lock_stake(
    storage: &mut Store,
    info: MessageInfo,
    tid: u64,
    sender_valid: bool,
) -> (result: Result<Response, TAError>)
    ensures
        settles(
            old(storage).deep_view(),
            final(storage).deep_view(),
            result,
            execute_lock_stake_model(old(storage).deep_view(), info.deep_view(), tid, sender_valid),
        ),
{
    if info.funds.is_empty() {
        return Err(TAError::InsufficientFunds);
    }
    if !sender_valid {
        return Err(TAError::InvalidAddress);
    }
    let config = read_config(storage);
    let collateral_manager = match config.collateral_manager {
        Some(collateral_manager) => collateral_manager,
        None => {
            return Err(TAError::NotInitialized);
        },
    };
    let message = CosmosMsg::Wasm(
        WasmMsg::Execute {
            contract_addr: collateral_manager,
            msg: ExecutePayload::CollateralManager(
                CollateralExecuteMsg::LockStake { tid, worker: info.sender },
            ),
            funds: info.funds,
        },
    );
    Ok(Response::sending(message, "lock stake"))
}

/// The question whether the sender has a stake locked for the ticket `tid`.
pub open spec fn stake_query(
    collateral_manager: Seq<char>,
    tid: u64,
    worker: Seq<char>,
) -> WasmQueryView {
    WasmQueryView {
        contract_addr: collateral_manager,
        msg: QueryPayloadView::CollateralManager(
            CollateralQueryMsgView::QueryStakeStatus(QueryStakeStatusMsgView { tid, worker }),
        ),
    }
}

/// What `execute_place_bet` does. It takes no funds and the collateral
/// manager has to be configured. `is_staked` is what the collateral manager
/// says of the sender and the ticket: without a stake there is no bet. The
/// auction manager has to be configured; it is asked to place the bet for
/// the sender. The records do not change.
pub open spec fn execute_place_bet_model(
    before: StoreView,
    info: MessageInfoView,
    msg: PlaceBetMsg,
    is_staked: bool,
) -> Result<(StoreView, ResponseView), TAError> {
    if info.funds.len() != 0 {
        Err(TAError::UnnecessaryFunds)
    } else if before.config.collateral_manager is None {
        Err(TAError::NotInitialized)
    } else if !is_staked {
        Err(TAError::NotStaked)
    } else {
        match before.config.auction_manager {
            None => Err(TAError::NotInitialized),
            Some(auction_manager) => Ok(
                (
                    before,
                    reply_with(
                        call(
                            auction_manager,
                            ExecutePayloadView::AuctionManager(
                                AuctionExecuteMsgView::PlaceBet(
                                    AuctionPlaceBetMsgView {
                                        ticket_id: msg.ticket_id,
                                        workder: info.sender,
                                        bet_amount: msg.bet_amount,
                                    },
                                ),
                            ),
                        ),
                        "place bet"@,
                    ),
                ),
            ),
        }
    }
}

/// Passes a bet on. `is_staked` is what the collateral manager answered to
/// `QueryStakeStatus` for the sender and the ticket.
pub fn execute_place_bet(
    storage: &mut Store,
    info: MessageInfo,
    msg: PlaceBetMsg,
    is_staked: bool,
) -> (result: Result<Response, TAError>)
    ensures
        settles(
            old(storage).deep_view(),
            final(storage).deep_view(),
            result,
            execute_place_bet_model(old(storage).deep_view(), info.deep_view(), msg, is_staked),
        ),
{
    if !info.funds.is_empty() {
        return Err(TAError::UnnecessaryFunds);
    }
    let config = read_config(storage);
    if config.collateral_manager.is_none() {
        return Err(TAError::NotInitialized);
    }
    if !is_staked {
        return Err(TAError::NotStaked);
    }
    let auction_manager = match config.auction_manager {
        Some(auction_manager) => auction_manager,
        None => {
            return Err(TAError::NotInitialized);
        },
    };
    let message = CosmosMsg::call(
        auction_manager,
        ExecutePayload::AuctionManager(
            AuctionExecuteMsg::PlaceBet(
                AuctionPlaceBetMsg {
                    ticket_id: msg.ticket_id,
                    workder: info.sender,
                    bet_amount: msg.bet_amount,
                },
            ),
        ),
    );
    Ok(Response::sending(message, "place bet"))
}

/// What `execute_submit_result` does. It takes no funds and the ticket
/// manager has to be configured. `right_worker` is the worker that the
/// ticket is assigned to, as the ticket manager knows it: there has to be
/// one, and it has to be the sender. Then the ticket manager is asked to
/// assess the result for the ticket as a submission of the sender, whatever
/// worker `msg` names. The records do not change.
pub open spec fn execute_submit_result_model(
    before: StoreView,
    info: MessageInfoView,
    msg: TicketResultMsgView,
    right_worker: Option<Seq<char>>,
) -> Result<(StoreView, ResponseView), TAError> {
    if info.funds.len() != 0 {
        Err(TAError::UnnecessaryFunds)
    } else {
        match before.config.ticket_manager {
            None => Err(TAError::NotInitialized),
            Some(ticket_manager) => match right_worker {
                None => Err(TAError::NotFound),
                Some(right_worker) => if info.sender != right_worker {
                    Err(TAError::NotAuthorized)
                } else {
                    Ok(
                        (
                            before,
                            reply_with(
                                call(
                                    ticket_manager,
                                    ExecutePayloadView::TicketManager(
                                        TicketExecuteMsgView::AssessSubmission(
                                            TicketResultMsgView {
                                                tid: msg.tid,
                                                worker: info.sender,
                                                result: msg.result,
                                            },
                                        ),
                                    ),
                                ),
                                "submit result"@,
                            ),
                        ),
                    )
                },
            },
        }
    }
}

/// Passes a result on. `right_worker` is what the ticket manager answered to
/// `QueryTicketWorker` for the ticket, `None` if the ticket is not assigned.
pub fn execute_submit_result(
    storage: &mut Store,
    info: MessageInfo,
    msg: TicketResultMsg,
    right_worker: Option<String>,
) -> (result: Result<Response, TAError>)
    ensures
        settles(
            old(storage).deep_view(),
            final(storage).deep_view(),
            result,
            execute_submit_result_model(
                old(storage).deep_view(),
                info.deep_view(),
                msg.deep_view(),
                right_worker.deep_view(),
            ),
        ),
{
    if !info.funds.is_empty() {
        return Err(TAError::UnnecessaryFunds);
    }
    let config = read_config(storage);
    let ticket_manager = match config.ticket_manager {
        Some(ticket_manager) => ticket_manager,
        None => {
            return Err(TAError::NotInitialized);
        },
    };
    let right_worker = match right_worker {
        Some(right_worker) => right_worker,
        None => {
            return Err(TAError::NotFound);
        },
    };
    if !(info.sender == right_worker) {
        return Err(TAError::NotAuthorized);
    }
    let message = CosmosMsg::call(
        ticket_manager,
        ExecutePayload::TicketManager(
            TicketExecuteMsg::AssessSubmission(
                TicketResultMsg { tid: msg.tid, worker: info.sender, result: msg.result },
            ),
        ),
    );
    Ok(Response::sending(message, "submit result"))
}

/// What `execute_post_config` does: it takes no funds, only the admin board
/// may call it, and the three peer addresses are replaced.
pub open spec fn execute_post_config_model(
    before: StoreView,
    info: MessageInfoView,
    msg: PostConfigMsgView,
) -> Result<(StoreView, ResponseView), TAError> {
    if info.funds.len() != 0 {
        Err(TAError::UnnecessaryFunds)
    } else if info.sender != before.config.admin_board {
        Err(TAError::NotAuthorized)
    } else {
        Ok(
            (
                StoreView {
                    config: ConfigView {
                        admin_board: before.config.admin_board,
                        ticket_manager: msg.ticket_manager,
                        collateral_manager: msg.collateral_manager,
                        auction_manager: msg.auction_manager,
                    },
                },
                reply("PostConfig"@),
            ),
        )
    }
}

/// Replaces the peer addresses.
pub fn execute_post_config(
    storage: &mut Store,
    info: MessageInfo,
    msg: PostConfigMsg,
) -> (result: Result<Response, TAError>)
    ensures
        settles(
            old(storage).deep_view(),
            final(storage).deep_view(),
            result,
            execute_post_config_model(old(storage).deep_view(), info.deep_view(), msg.deep_view()),
        ),
{
    if !info.funds.is_empty() {
        return Err(TAError::UnnecessaryFunds);
    }
    let mut config = read_config(storage);
    if !(info.sender == config.admin_board) {
        return Err(TAError::NotAuthorized);
    }
    config.auction_manager = msg.auction_manager;
    config.collateral_manager = msg.collateral_manager;
    config.ticket_manager = msg.ticket_manager;
    store_config(storage, config);
    Ok(Response::reporting("PostConfig"))
}

/// The address that the host has to check before `execute` can run `msg`:
/// the one of the sender, where a stake is locked.
pub open spec fn checked_address_model(info: MessageInfoView, msg: ExecuteMsgView) -> Option<
    Seq<char>,
> {
    match msg {
        ExecuteMsgView::LockStake { tid } => Some(info.sender),
        _ => None,
    }
}

/// The address whose validity `execute` is told for `msg`, if it looks at one.
pub fn checked_address(info: &MessageInfo, msg: &ExecuteMsg) -> (address: Option<String>)
    ensures
        address.deep_view() == checked_address_model(info.deep_view(), msg.deep_view()),
{
    match msg {
        ExecuteMsg::LockStake { tid } => Some(info.sender.clone()),
        _ => None,
    }
}

/// What has to be asked of a peer before `execute` can run `msg`: the stake
/// status of the sender for a bet, the assigned worker for a submission. The
/// checks that need no answer are made first, and their errors come out here.
pub open spec fn peer_query_model(
    before: StoreView,
    info: MessageInfoView,
    msg: ExecuteMsgView,
) -> Result<Option<WasmQueryView>, TAError> {
    match msg {
        ExecuteMsgView::PlaceBet(msg) => if info.funds.len() != 0 {
            Err(TAError::UnnecessaryFunds)
        } else {
            match before.config.collateral_manager {
                None => Err(TAError::NotInitialized),
                Some(collateral_manager) => Ok(
                    Some(stake_query(collateral_manager, msg.ticket_id, info.sender)),
                ),
            }
        },
        ExecuteMsgView::SubmitResult(msg) => if info.funds.len() != 0 {
            Err(TAError::UnnecessaryFunds)
        } else {
            match before.config.ticket_manager {
                None => Err(TAError::NotInitialized),
                Some(ticket_manager) => Ok(
                    Some(
                        WasmQueryView {
                            contract_addr: ticket_manager,
                            msg: QueryPayloadView::TicketManager(
                                TicketQueryMsg::QueryTicketWorker { tid: msg.tid },
                            ),
                        },
                    ),
                ),
            }
        },
        _ => Ok(None),
    }
}

/// The question whose answer `execute` needs for `msg`, if it needs one, or
/// the error with which `execute` fails whatever the answer is.
pub fn peer_query(
    storage: &Store,
    info: &MessageInfo,
    msg: &ExecuteMsg,
) -> (result: Result<Option<WasmQuery>, TAError>)
    ensures
        match peer_query_model(storage.deep_view(), info.deep_view(), msg.deep_view()) {
            Ok(query) => result is Ok && result->Ok_0.deep_view() == query,
            Err(error) => result == Err::<Option<WasmQuery>, TAError>(error),
        },
{
    match msg {
        ExecuteMsg::PlaceBet(msg) => {
            if !info.funds.is_empty() {
                return Err(TAError::UnnecessaryFunds);
            }
            let config = read_config(storage);
            match config.collateral_manager {
                None => Err(TAError::NotInitialized),
                Some(collateral_manager) => Ok(
                    Some(
                        WasmQuery {
                            contract_addr: collateral_manager,
                            msg: QueryPayload::CollateralManager(
                                CollateralQueryMsg::QueryStakeStatus(
                                    QueryStakeStatusMsg {
                                        tid: msg.ticket_id,
                                        worker: info.sender.clone(),
                                    },
                                ),
                            ),
                        },
                    ),
                ),
            }
        },
        ExecuteMsg::SubmitResult(msg) => {
            if !info.funds.is_empty() {
                return Err(TAError::UnnecessaryFunds);
            }
            let config = read_config(storage);
            match config.ticket_manager {
                None => Err(TAError::NotInitialized),
                Some(ticket_manager) => Ok(
                    Some(
                        WasmQuery {
                            contract_addr: ticket_manager,
                            msg: QueryPayload::TicketManager(
                                TicketQueryMsg::QueryTicketWorker { tid: msg.tid },
                            ),
                        },
                    ),
                ),
            }
        },
        _ => Ok(None),
    }
}

/// What `execute` does: what the handler of the message does with what the
/// answer holds for it.
pub open spec fn execute_model(
    before: StoreView,
    info: MessageInfoView,
    msg: ExecuteMsgView,
    sender_valid: bool,
    answer: QueryAnswerView,
) -> Result<(StoreView, ResponseView), TAError> {
    match msg {
        ExecuteMsgView::LockStake { tid } => {
            execute_lock_stake_model(before, info, tid, sender_valid)
        },
        ExecuteMsgView::PlaceBet(msg) => execute_place_bet_model(
            before,
            info,
            msg,
            answer.stake_status(),
        ),
        ExecuteMsgView::SubmitResult(msg) => execute_submit_result_model(
            before,
            info,
            msg,
            answer.worker(),
        ),
        ExecuteMsgView::PostConfig(msg) => execute_post_config_model(before, info, msg),
    }
}

/// Runs the handler of `msg`. `answer` is what the peer answered to the
/// question of [`peer_query`]; `sender_valid` matters to a stake only. An
/// error of [`peer_query`] is the error of `execute`, whatever the answer.
pub fn execute(
    storage: &mut Store,
    env: Env,
    info: MessageInfo,
    msg: ExecuteMsg,
    sender_valid: bool,
    answer: QueryAnswer,
) -> (result: Result<Response, TAError>)
    ensures
        settles(
            old(storage).deep_view(),
            final(storage).deep_view(),
            result,
            execute_model(
                old(storage).deep_view(),
                info.deep_view(),
                msg.deep_view(),
                sender_valid,
                answer.deep_view(),
            ),
        ),
        peer_query_model(old(storage).deep_view(), info.deep_view(), msg.deep_view()) is Err
            ==> result is Err && result->Err_0 == peer_query_model(
            old(storage).deep_view(),
            info.deep_view(),
            msg.deep_view(),
        )->Err_0,
{
    match msg {
        ExecuteMsg::LockStake { tid } => execute_lock_stake(storage, info, tid, sender_valid),
        ExecuteMsg::PlaceBet(msg) => execute_place_bet(storage, info, msg, answer.stake_status()),
        ExecuteMsg::SubmitResult(msg) => execute_submit_result(
            storage,
            info,
            msg,
            answer.into_worker(),
        ),
        ExecuteMsg::PostConfig(msg) => execute_post_config(storage, info, msg),
    }
}

/// What `query` does with `msg`: it names the peer to ask, the auction
/// manager for the tickets with open bets and the collateral manager for a
/// stake status. `NotInitialized` if that peer is not configured.
pub open spec fn query_model(
    records: StoreView,
    msg: QueryMsgView,
) -> Result<WasmQueryView, TAError> {
    match msg {
        QueryMsgView::QueryBetAvailTickets {  } => match records.config.auction_manager {
            None => Err(TAError::NotInitialized),
            Some(auction_manager) => Ok(
                WasmQueryView {
                    contract_addr: auction_manager,
                    msg: QueryPayloadView::AuctionManager(AuctionQueryMsg::BetAvailableTickets),
                },
            ),
        },
        QueryMsgView::QueryStakeStatus(msg) => match records.config.collateral_manager {
            None => Err(TAError::NotInitialized),
            Some(collateral_manager) => Ok(stake_query(collateral_manager, msg.tid, msg.worker)),
        },
    }
}

/// The question for the tickets with open bets, to be put to the auction manager.
pub fn query_bet_avail_tickets(storage: &Store) -> (result: Result<WasmQuery, TAError>)
    ensures
        match query_model(storage.deep_view(), QueryMsgView::QueryBetAvailTickets {  }) {
            Ok(query) => result is Ok && result->Ok_0.deep_view() == query,
            Err(error) => result == Err::<WasmQuery, TAError>(error),
        },
{
    let config = read_config(storage);
    match config.auction_manager {
        None => Err(TAError::NotInitialized),
        Some(auction_manager) => Ok(
            WasmQuery {
                contract_addr: auction_manager,
                msg: QueryPayload::AuctionManager(AuctionQueryMsg::BetAvailableTickets),
            },
        ),
    }
}

/// The question for a stake status, to be put to the collateral manager.
pub fn query_stake_status(
    storage: &Store,
    msg: QueryStakeStatusMsg,
) -> (result: Result<WasmQuery, TAError>)
    ensures
        match query_model(storage.deep_view(), QueryMsgView::QueryStakeStatus(msg.deep_view())) {
            Ok(query) => result is Ok && result->Ok_0.deep_view() == query,
            Err(error) => result == Err::<WasmQuery, TAError>(error),
        },
{
    let config = read_config(storage);
    match config.collateral_manager {
        None => Err(TAError::NotInitialized),
        Some(collateral_manager) => Ok(
            WasmQuery {
                contract_addr: collateral_manager,
                msg: QueryPayload::CollateralManager(CollateralQueryMsg::QueryStakeStatus(msg)),
            },
        ),
    }
}

/// Names the question that answers `msg`, and the peer to put it to.
pub fn query(storage: &Store, msg: QueryMsg) -> (result: Result<WasmQuery, TAError>)
    ensures
        match query_model(storage.deep_view(), msg.deep_view()) {
            Ok(query) => result is Ok && result->Ok_0.deep_view() == query,
            Err(error) => result == Err::<WasmQuery, TAError>(error),
        },
{
    match msg {
        QueryMsg::QueryBetAvailTickets {  } => query_bet_avail_tickets(storage),
        QueryMsg::QueryStakeStatus(msg) => query_stake_status(storage, msg),
    }
}

/// A worker without a stake for a ticket cannot bid for it. Where the
/// stakes `stakes` of the collateral manager hold none of the sender for the
/// ticket, a bet that is decided on the stake status taken from `stakes`
/// fails; it fails with `NotStaked` where the call attaches no funds and the
/// collateral manager is configured. Stakes that nobody has locked into hold
/// none of anybody.
pub proof fn lemma_no_bet_without_stake(
    before: StoreView,
    info: MessageInfoView,
    msg: PlaceBetMsg,
    stakes: Map<u64, Seq<Seq<char>>>,
)
    ensures
        !is_staked(stakes, msg.ticket_id, info.sender) ==> execute_place_bet_model(
            before,
            info,
            msg,
            is_staked(stakes, msg.ticket_id, info.sender),
        ) is Err,
        !is_staked(stakes, msg.ticket_id, info.sender) && info.funds.len() == 0
            && before.config.collateral_manager is Some ==> execute_place_bet_model(
            before,
            info,
            msg,
            is_staked(stakes, msg.ticket_id, info.sender),
        ) == Err::<(StoreView, ResponseView), TAError>(TAError::NotStaked),
        !is_staked(Map::empty(), msg.ticket_id, info.sender),
{
}

/// Migrating touches no record and answers with an empty response.
pub fn migrate(msg: MigrateMsg) -> (result: Result<Response, TAError>)
    ensures
        result is Ok,
        result->Ok_0.deep_view() == (ResponseView {
            messages: Seq::empty(),
            attributes: Seq::empty(),
        }),
{
    Ok(Response::new())
}

} // verus!
