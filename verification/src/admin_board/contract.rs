//! The handlers of the admin board.
//!
//! The administrator acts through the admin board: it passes tickets on to
//! the ticket manager and has the auction manager decide a winner. The
//! ticket manager, and nobody else, asks it to settle a stake: the admin
//! board computes what is released and has the collateral manager pay it.

use vstd::prelude::*;
use crate::admin_board::state::{read_config, store_config, Config, ConfigView, Store, StoreView};
use crate::admin_board::{
    ExecuteMsg, ExecuteMsgView, InstantiateMsg, MigrateMsg, PostConfigMsg, PostConfigMsgView,
    QueryMsg, SlashMsg, SlashMsgView,
};
use crate::auction_manager::{
    ExecuteMsg as AuctionExecuteMsg, ExecuteMsgView as AuctionExecuteMsgView,
    InstantiateMsg as AuctionInstantiateMsg, InstantiateMsgView as AuctionInstantiateMsgView,
};
use crate::collateral_manager::{
    ExecuteMsg as CollateralExecuteMsg, ExecuteMsgView as CollateralExecuteMsgView,
    InstantiateMsg as CollateralInstantiateMsg,
    InstantiateMsgView as CollateralInstantiateMsgView, ReleaseStakeMsg, ReleaseStakeMsgView,
};
use crate::decimal::{
    can_be_settled, can_settle, lemma_settlement_is_exact, release_amount, settle, slash_amount,
};
use crate::error::TAError;
use crate::host::{
    call, reply, reply_with, settles, AttributeView, CosmosMsg, CosmosMsgView, Env, EnvView,
    ExecutePayload, ExecutePayloadView, InstantiatePayload, InstantiatePayloadView, MessageInfo,
    MessageInfoView, QueryAnswer, QueryAnswerView, QueryPayload, QueryPayloadView, Response,
    ResponseView, WasmMsg, WasmMsgView, WasmQuery, WasmQueryView,
};
use crate::ticket_manager::{
    AddTicketMsg, ExecuteMsg as TicketExecuteMsg, ExecuteMsgView as TicketExecuteMsgView,
    InstantiateMsg as TicketInstantiateMsg, InstantiateMsgView as TicketInstantiateMsgView,
    QueryMsg as TicketQueryMsg, TicketInfoResponse, TicketView, UpdateTicketMsg,
    UpdateTicketMsgView,
};
use crate::user_board::{
    InstantiateMsg as UserBoardInstantiateMsg, InstantiateMsgView as UserBoardInstantiateMsgView,
};

verus! {

/// What `instantiate` does: the sender becomes the administrator, and no
/// peer is configured.
pub open spec fn instantiate_model(info: MessageInfoView) -> (StoreView, ResponseView) {
    (
        StoreView {
            config: ConfigView {
                admin: info.sender,
                ticket_manager: None,
                collateral_manager: None,
                auction_manager: None,
                user_board: None,
            },
        },
        ResponseView {
            messages: Seq::empty(),
            attributes: seq![
                AttributeView { key: "method"@, value: "instantiate"@ },
                AttributeView { key: "owner"@, value: info.sender },
            ],
        },
    )
}

/// Creates the records of an admin board. This never fails.
pub fn instantiate(
    env: Env,
    info: MessageInfo,
    msg: InstantiateMsg,
) -> (result: Result<(Store, Response), TAError>)
    ensures
        result is Ok,
        result->Ok_0.0.deep_view() == instantiate_model(info.deep_view()).0,
        result->Ok_0.1.deep_view() == instantiate_model(info.deep_view()).1,
{
    let response = Response::new().add_attribute("method", "instantiate").add_attribute(
        "owner",
        info.sender.as_str(),
    );
    assert(response.deep_view().attributes =~= instantiate_model(info.deep_view()).1.attributes);
    let storage = Store::new(
        Config {
            admin: info.sender,
            ticket_manager: None,
            collateral_manager: None,
            auction_manager: None,
            user_board: None,
        },
    );
    Ok((storage, response))
}

/// What the administrator has to meet for every call: the call attaches no
/// funds, and the sender is the administrator. The error of the first that
/// does not hold, if one does not.
pub open spec fn admin_check(before: StoreView, info: MessageInfoView) -> Option<TAError> {
    if info.funds.len() != 0 {
        Some(TAError::UnnecessaryFunds)
    } else if info.sender != before.config.admin {
        Some(TAError::NotAuthorized)
    } else {
        None
    }
}

/// What passing a call on does: the call has to pass [`admin_check`] and
/// the service `target` has to be configured. Then `msg` is sent to it, and
/// `method` is reported. The records do not change.
pub open spec fn forward_model(
    before: StoreView,
    info: MessageInfoView,
    target: Option<Seq<char>>,
    msg: ExecutePayloadView,
    method: Seq<char>,
) -> Result<(StoreView, ResponseView), TAError> {
    match admin_check(before, info) {
        Some(error) => Err(error),
        None => match target {
            None => Err(TAError::NotInitialized),
            Some(contract_addr) => Ok((before, reply_with(call(contract_addr, msg), method))),
        },
    }
}

/// Checks the call as [`admin_check`] says.
fn check_admin(config: &Config, info: &MessageInfo) -> (result: Result<(), TAError>)
    ensures
        match admin_check(StoreView { config: config.deep_view() }, info.deep_view()) {
            Some(error) => result == Err::<(), TAError>(error),
            None => result is Ok,
        },
{
    if !info.funds.is_empty() {
        return Err(TAError::UnnecessaryFunds);
    }
    if !(info.sender == config.admin) {
        return Err(TAError::NotAuthorized);
    }
    Ok(())
}

/// What `execute_add_ticket` does: it passes the ticket on to the ticket manager.
pub open spec fn execute_add_ticket_model(
    before: StoreView,
    info: MessageInfoView,
    msg: TicketView,
) -> Result<(StoreView, ResponseView), TAError> {
    forward_model(
        before,
        info,
        before.config.ticket_manager,
        ExecutePayloadView::TicketManager(TicketExecuteMsgView::AddTicket(msg)),
        "add a new ticket"@,
    )
}

/// Has the ticket manager add a ticket.
pub fn execute_add_ticket(
    storage: &mut Store,
    info: MessageInfo,
    msg: AddTicketMsg,
) -> (result: Result<Response, TAError>)
    ensures
        settles(
            old(storage).deep_view(),
            final(storage).deep_view(),
            result,
            execute_add_ticket_model(old(storage).deep_view(), info.deep_view(), msg.deep_view()),
        ),
{
    let config = read_config(storage);
    check_admin(&config, &info)?;
    let ticket_manager = match config.ticket_manager {
        Some(ticket_manager) => ticket_manager,
        None => {
            return Err(TAError::NotInitialized);
        },
    };
    let message = CosmosMsg::call(
        ticket_manager,
        ExecutePayload::TicketManager(TicketExecuteMsg::AddTicket(msg)),
    );
    Ok(Response::sending(message, "add a new ticket"))
}

/// What `execute_update_ticket` does: it passes the change on to the ticket manager.
pub open spec fn execute_update_ticket_model(
    before: StoreView,
    info: MessageInfoView,
    msg: UpdateTicketMsgView,
) -> Result<(StoreView, ResponseView), TAError> {
    forward_model(
        before,
        info,
        before.config.ticket_manager,
        ExecutePayloadView::TicketManager(TicketExecuteMsgView::UpdateTicket(msg)),
        "update ticket"@,
    )
}

/// Has the ticket manager change a ticket.
pub fn execute_update_ticket(
    storage: &mut Store,
    info: MessageInfo,
    msg: UpdateTicketMsg,
) -> (result: Result<Response, TAError>)
    ensures
        settles(
            old(storage).deep_view(),
            final(storage).deep_view(),
            result,
            execute_update_ticket_model(
                old(storage).deep_view(),
                info.deep_view(),
                msg.deep_view(),
            ),
        ),
{
    let config = read_config(storage);
    check_admin(&config, &info)?;
    let ticket_manager = match config.ticket_manager {
        Some(ticket_manager) => ticket_manager,
        None => {
            return Err(TAError::NotInitialized);
        },
    };
    let message = CosmosMsg::call(
        ticket_manager,
        ExecutePayload::TicketManager(TicketExecuteMsg::UpdateTicket(msg)),
    );
    Ok(Response::sending(message, "update ticket"))
}

/// What `execute_remove_ticket` does: it passes the removal on to the ticket manager.
pub open spec fn execute_remove_ticket_model(
    before: StoreView,
    info: MessageInfoView,
    tid: u64,
) -> Result<(StoreView, ResponseView), TAError> {
    forward_model(
        before,
        info,
        before.config.ticket_manager,
        ExecutePayloadView::TicketManager(TicketExecuteMsgView::RemoveTicket { tid }),
        "remove ticket"@,
    )
}

/// Has the ticket manager remove a ticket.
pub fn execute_remove_ticket(
    storage: &mut Store,
    info: MessageInfo,
    tid: u64,
) -> (result: Result<Response, TAError>)
    ensures
        settles(
            old(storage).deep_view(),
            final(storage).deep_view(),
            result,
            execute_remove_ticket_model(old(storage).deep_view(), info.deep_view(), tid),
        ),
{
    let config = read_config(storage);
    check_admin(&config, &info)?;
    let ticket_manager = match config.ticket_manager {
        Some(ticket_manager) => ticket_manager,
        None => {
            return Err(TAError::NotInitialized);
        },
    };
    let message = CosmosMsg::call(
        ticket_manager,
        ExecutePayload::TicketManager(TicketExecuteMsg::RemoveTicket { tid }),
    );
    Ok(Response::sending(message, "remove ticket"))
}

/// What `execute_decide_win_bet` does: it has the auction manager decide
/// the winner of the ticket.
pub open spec fn execute_decide_win_bet_model(
    before: StoreView,
    info: MessageInfoView,
    tid: u64,
) -> Result<(StoreView, ResponseView), TAError> {
    forward_model(
        before,
        info,
        before.config.auction_manager,
        ExecutePayloadView::AuctionManager(AuctionExecuteMsgView::DecideWinningBet { tid }),
        "decide winning bet"@,
    )
}

/// Has the auction manager decide the winner of a ticket.
pub fn execute_decide_win_bet(
    storage: &mut Store,
    info: MessageInfo,
    tid: u64,
) -> (result: Result<Response, TAError>)
    ensures
        settles(
            old(storage).deep_view(),
            final(storage).deep_view(),
            result,
            execute_decide_win_bet_model(old(storage).deep_view(), info.deep_view(), tid),
        ),
{
    let config = read_config(storage);
    check_admin(&config, &info)?;
    let auction_manager = match config.auction_manager {
        Some(auction_manager) => auction_manager,
        None => {
            return Err(TAError::NotInitialized);
        },
    };
    let message = CosmosMsg::call(
        auction_manager,
        ExecutePayload::AuctionManager(AuctionExecuteMsg::DecideWinningBet { tid }),
    );
    Ok(Response::sending(message, "decide winning bet"))
}

/// What `execute_release_stake_with_slash` does. The ticket manager has to
/// be configured, and only it may call. `ticket_info` is the ticket as the
/// ticket manager knows it now: it has to exist. The collateral manager has
/// to be configured; it is asked to release to the worker what is left of
/// the ticket's collateral after the thousandths of `msg` are withheld. What
/// is withheld is not sent anywhere: it stays in the account of the
/// collateral manager, which holds the stakes. The records do not change.
pub open spec fn execute_release_stake_with_slash_model(
    before: StoreView,
    info: MessageInfoView,
    msg: SlashMsgView,
    ticket_info: Option<TicketView>,
) -> Result<(StoreView, ResponseView), TAError> {
    match before.config.ticket_manager {
        None => Err(TAError::NotInitialized),
        Some(ticket_manager) => if info.sender != ticket_manager {
            Err(TAError::NotAuthorized)
        } else {
            match ticket_info {
                None => Err(TAError::NotFound),
                Some(ticket) => match before.config.collateral_manager {
                    None => Err(TAError::NotInitialized),
                    Some(collateral_manager) => Ok(
                        (
                            before,
                            reply_with(
                                call(
                                    collateral_manager,
                                    ExecutePayloadView::CollateralManager(
                                        CollateralExecuteMsgView::ReleaseStake(
                                            ReleaseStakeMsgView {
                                                tid: msg.tid,
                                                worker: msg.worker,
                                                amt: release_amount(
                                                    ticket.collateral,
                                                    msg.slash_perc,
                                                ) as u128,
                                            },
                                        ),
                                    ),
                                ),
                                "release stake with slash"@,
                            ),
                        ),
                    ),
                },
            }
        },
    }
}

/// Settles a stake. `ticket_info` is what the ticket manager answered to
/// `QueryTicketInfo` for the ticket, `None` if it has no such ticket. The
/// collateral of the ticket has to be one that can be split at the
/// thousandths of `msg`, which every collateral is at up to a thousand.
pub fn execute_release_stake_with_slash(
    storage: &mut Store,
    info: MessageInfo,
    msg: SlashMsg,
    ticket_info: Option<TicketInfoResponse>,
) -> (result: Result<Response, TAError>)
    requires
        ticket_info matches Some(ticket) ==> can_be_settled(ticket.collateral, msg.slash_perc),
    ensures
        settles(
            old(storage).deep_view(),
            final(storage).deep_view(),
            result,
            execute_release_stake_with_slash_model(
                old(storage).deep_view(),
                info.deep_view(),
                msg.deep_view(),
                ticket_info.deep_view(),
            ),
        ),
{
    let config = read_config(storage);
    let ticket_manager = match config.ticket_manager {
        Some(ticket_manager) => ticket_manager,
        None => {
            return Err(TAError::NotInitialized);
        },
    };
    if !(info.sender == ticket_manager) {
        return Err(TAError::NotAuthorized);
    }
    let ticket_info = match ticket_info {
        Some(ticket_info) => ticket_info,
        None => {
            return Err(TAError::NotFound);
        },
    };
    let (_, release_amt) = settle(ticket_info.collateral, msg.slash_perc);
    let collateral_manager = match config.collateral_manager {
        Some(collateral_manager) => collateral_manager,
        None => {
            return Err(TAError::NotInitialized);
        },
    };
    let message = CosmosMsg::call(
        collateral_manager,
        ExecutePayload::CollateralManager(
            CollateralExecuteMsg::ReleaseStake(
                ReleaseStakeMsg { tid: msg.tid, worker: msg.worker, amt: release_amt },
            ),
        ),
    );
    Ok(Response::sending(message, "release stake with slash"))
}

/// Only the configured ticket manager has a stake settled: a request from
/// any other sender fails with `NotAuthorized`, whatever else holds, and a
/// request that succeeds came from the ticket manager. What is then released
/// and what is withheld make the collateral of the ticket.
pub proof fn lemma_only_ticket_manager_settles(
    before: StoreView,
    info: MessageInfoView,
    msg: SlashMsgView,
    ticket_info: Option<TicketView>,
)
    ensures
        before.config.ticket_manager is Some && before.config.ticket_manager != Some(info.sender)
            ==> execute_release_stake_with_slash_model(before, info, msg, ticket_info) == Err::<
            (StoreView, ResponseView),
            TAError,
        >(TAError::NotAuthorized),
        execute_release_stake_with_slash_model(before, info, msg, ticket_info) is Ok
            ==> before.config.ticket_manager == Some(info.sender),
        ticket_info is Some ==> release_amount(ticket_info->Some_0.collateral, msg.slash_perc)
            + slash_amount(ticket_info->Some_0.collateral, msg.slash_perc)
            == ticket_info->Some_0.collateral,
{
    if ticket_info is Some {
        lemma_settlement_is_exact(ticket_info->Some_0.collateral, msg.slash_perc);
    }
}

/// What creating a service does: the call has to pass [`admin_check`].
/// Then the host is asked to create a service from the stored code
/// `code_id` with `msg`, with this admin board as the one that may migrate
/// it, without funds and without a label. The records do not change.
pub open spec fn create_model(
    before: StoreView,
    env: EnvView,
    info: MessageInfoView,
    code_id: u64,
    msg: InstantiatePayloadView,
    method: Seq<char>,
) -> Result<(StoreView, ResponseView), TAError> {
    match admin_check(before, info) {
        Some(error) => Err(error),
        None => Ok(
            (
                before,
                reply_with(
                    CosmosMsgView::Wasm(
                        WasmMsgView::Instantiate {
                            admin: Some(env.contract),
                            code_id,
                            msg,
                            funds: Seq::empty(),
                            label: Seq::empty(),
                        },
                    ),
                    method,
                ),
            ),
        ),
    }
}

/// The answer that holds the creation of a service and reports `method`.
fn create(env: Env, code_id: u64, msg: InstantiatePayload, method: &str) -> (response: Response)
    ensures
        response.deep_view() == reply_with(
            CosmosMsgView::Wasm(
                WasmMsgView::Instantiate {
                    admin: Some(env.contract@),
                    code_id,
                    msg: msg.deep_view(),
                    funds: Seq::empty(),
                    label: Seq::empty(),
                },
            ),
            method@,
        ),
{
    let message = CosmosMsg::Wasm(
        WasmMsg::Instantiate {
            admin: Some(env.contract),
            code_id,
            msg,
            funds: Vec::new(),
            label: String::new(),
        },
    );
    assert(message.deep_view()->Wasm_0->Instantiate_funds =~= Seq::empty());
    Response::sending(message, method)
}

/// What `execute_create_ticket_manager` does: it has a ticket manager
/// created that knows no peer yet.
pub open spec fn execute_create_ticket_manager_model(
    before: StoreView,
    env: EnvView,
    info: MessageInfoView,
    code_id: u64,
) -> Result<(StoreView, ResponseView), TAError> {
    create_model(
        before,
        env,
        info,
        code_id,
        InstantiatePayloadView::TicketManager(
            TicketInstantiateMsgView { auction_manager: None, user_board: None },
        ),
        "instantiate ticket manager"@,
    )
}

/// Has a ticket manager created.
pub fn execute_create_ticket_manager(
    storage: &mut Store,
    env: Env,
    info: MessageInfo,
    code_id: u64,
) -> (result: Result<Response, TAError>)
    ensures
        settles(
            old(storage).deep_view(),
            final(storage).deep_view(),
            result,
            execute_create_ticket_manager_model(
                old(storage).deep_view(),
                env.deep_view(),
                info.deep_view(),
                code_id,
            ),
        ),
{
    let config = read_config(storage);
    check_admin(&config, &info)?;
    Ok(
        create(
            env,
            code_id,
            InstantiatePayload::TicketManager(
                TicketInstantiateMsg { auction_manager: None, user_board: None },
            ),
            "instantiate ticket manager",
        ),
    )
}

/// What `execute_create_user_board_manager` does: it has a user board
/// created that knows no peer yet.
pub open spec fn execute_create_user_board_manager_model(
    before: StoreView,
    env: EnvView,
    info: MessageInfoView,
    code_id: u64,
) -> Result<(StoreView, ResponseView), TAError> {
    create_model(
        before,
        env,
        info,
        code_id,
        InstantiatePayloadView::UserBoard(
            UserBoardInstantiateMsgView {
                ticket_manager: None,
                collateral_manater: None,
                auction_manager: None,
            },
        ),
        "instantiate user_board manager"@,
    )
}

/// Has a user board created.
pub fn execute_create_user_board_manager(
    storage: &mut Store,
    env: Env,
    info: MessageInfo,
    code_id: u64,
) -> (result: Result<Response, TAError>)
    ensures
        settles(
            old(storage).deep_view(),
            final(storage).deep_view(),
            result,
            execute_create_user_board_manager_model(
                old(storage).deep_view(),
                env.deep_view(),
                info.deep_view(),
                code_id,
            ),
        ),
{
    let config = read_config(storage);
    check_admin(&config, &info)?;
    Ok(
        create(
            env,
            code_id,
            InstantiatePayload::UserBoard(
                UserBoardInstantiateMsg {
                    ticket_manager: None,
                    collateral_manater: None,
                    auction_manager: None,
                },
            ),
            "instantiate user_board manager",
        ),
    )
}

/// What `execute_create_auction_manager` does: after [`admin_check`], with
/// the ticket manager and the user board configured, it has an auction
/// manager created that knows the two.
pub open spec fn execute_create_auction_manager_model(
    before: StoreView,
    env: EnvView,
    info: MessageInfoView,
    code_id: u64,
) -> Result<(StoreView, ResponseView), TAError> {
    match admin_check(before, info) {
        Some(error) => Err(error),
        None => match (before.config.ticket_manager, before.config.user_board) {
            (Some(ticket_manager), Some(user_board)) => create_model(
                before,
                env,
                info,
                code_id,
                InstantiatePayloadView::AuctionManager(
                    AuctionInstantiateMsgView { ticket_manager, user_board },
                ),
                "instantiate auction manager"@,
            ),
            _ => Err(TAError::NotInitialized),
        },
    }
}

/// Has an auction manager created.
pub fn execute_create_auction_manager(
    storage: &mut Store,
    env: Env,
    info: MessageInfo,
    code_id: u64,
) -> (result: Result<Response, TAError>)
    ensures
        settles(
            old(storage).deep_view(),
            final(storage).deep_view(),
            result,
            execute_create_auction_manager_model(
                old(storage).deep_view(),
                env.deep_view(),
                info.deep_view(),
                code_id,
            ),
        ),
{
    let config = read_config(storage);
    check_admin(&config, &info)?;
    let ticket_manager = match config.ticket_manager {
        Some(ticket_manager) => ticket_manager,
        None => {
            return Err(TAError::NotInitialized);
        },
    };
    let user_board = match config.user_board {
        Some(user_board) => user_board,
        None => {
            return Err(TAError::NotInitialized);
        },
    };
    Ok(
        create(
            env,
            code_id,
            InstantiatePayload::AuctionManager(
                AuctionInstantiateMsg { ticket_manager, user_board },
            ),
            "instantiate auction manager",
        ),
    )
}

/// What `execute_create_collateral_manager` does: after [`admin_check`],
/// with the ticket manager and the user board configured, it has a
/// collateral manager created that knows the two. It reports the method of
/// an auction manager's creation.
pub open spec fn execute_create_collateral_manager_model(
    before: StoreView,
    env: EnvView,
    info: MessageInfoView,
    code_id: u64,
) -> Result<(StoreView, ResponseView), TAError> {
    match admin_check(before, info) {
        Some(error) => Err(error),
        None => match (before.config.ticket_manager, before.config.user_board) {
            (Some(ticket_manager), Some(user_board)) => create_model(
                before,
                env,
                info,
                code_id,
                InstantiatePayloadView::CollateralManager(
                    CollateralInstantiateMsgView { user_board, ticket_manager },
                ),
                "instantiate auction manager"@,
            ),
            _ => Err(TAError::NotInitialized),
        },
    }
}

/// Has a collateral manager created.
pub fn execute_create_collateral_manager(
    storage: &mut Store,
    env: Env,
    info: MessageInfo,
    code_id: u64,
) -> (result: Result<Response, TAError>)
    ensures
        settles(
            old(storage).deep_view(),
            final(storage).deep_view(),
            result,
            execute_create_collateral_manager_model(
                old(storage).deep_view(),
                env.deep_view(),
                info.deep_view(),
                code_id,
            ),
        ),
{
    let config = read_config(storage);
    check_admin(&config, &info)?;
    let ticket_manager = match config.ticket_manager {
        Some(ticket_manager) => ticket_manager,
        None => {
            return Err(TAError::NotInitialized);
        },
    };
    let user_board = match config.user_board {
        Some(user_board) => user_board,
        None => {
            return Err(TAError::NotInitialized);
        },
    };
    Ok(
        create(
            env,
            code_id,
            InstantiatePayload::CollateralManager(
                CollateralInstantiateMsg { user_board, ticket_manager },
            ),
            "instantiate auction manager",
        ),
    )
}

/// What `execute_post_config` does: after [`admin_check`], the four peer
/// addresses are replaced.
pub open spec fn execute_post_config_model(
    before: StoreView,
    info: MessageInfoView,
    msg: PostConfigMsgView,
) -> Result<(StoreView, ResponseView), TAError> {
    match admin_check(before, info) {
        Some(error) => Err(error),
        None => Ok(
            (
                StoreView {
                    config: ConfigView {
                        admin: before.config.admin,
                        ticket_manager: msg.ticket_manager,
                        collateral_manager: msg.collateral_manager,
                        auction_manager: msg.auction_manager,
                        user_board: msg.user_board,
                    },
                },
                reply("PostConfig"@),
            ),
        ),
    }
}

/// Replaces the peer addresses.
pub fn execute_post_config(
    storage: &mut Store,
    info: MessageInfo,
    msg: PostConfigMsg,
) -> (result: Result<Response, TAError>)
    ensures
        settles(
            old(storage).deep_view(),
            final(storage).deep_view(),
            result,
            execute_post_config_model(old(storage).deep_view(), info.deep_view(), msg.deep_view()),
        ),
{
    let mut config = read_config(storage);
    check_admin(&config, &info)?;
    config.auction_manager = msg.auction_manager;
    config.collateral_manager = msg.collateral_manager;
    config.ticket_manager = msg.ticket_manager;
    config.user_board = msg.user_board;
    store_config(storage, config);
    Ok(Response::reporting("PostConfig"))
}

/// The question for the ticket `tid`, put to the ticket manager at `ticket_manager`.
pub open spec fn ticket_info_query(ticket_manager: Seq<char>, tid: u64) -> WasmQueryView {
    WasmQueryView {
        contract_addr: ticket_manager,
        msg: QueryPayloadView::TicketManager(TicketQueryMsg::QueryTicketInfo { tid }),
    }
}

/// What has to be asked of the ticket manager before `execute` can run
/// `msg`: the ticket, where a stake is settled. The checks that need no
/// answer are made first, and their errors come out here.
pub open spec fn peer_query_model(
    before: StoreView,
    info: MessageInfoView,
    msg: ExecuteMsgView,
) -> Result<Option<WasmQueryView>, TAError> {
    match msg {
        ExecuteMsgView::ReleaseStakeWithSlash(msg) => match before.config.ticket_manager {
            None => Err(TAError::NotInitialized),
            Some(ticket_manager) => if info.sender != ticket_manager {
                Err(TAError::NotAuthorized)
            } else {
                Ok(Some(ticket_info_query(ticket_manager, msg.tid)))
            },
        },
        _ => Ok(None),
    }
}

/// The question whose answer `execute` needs for `msg`, if it needs one, or
/// the error with which `execute` fails whatever the answer is.
pub fn peer_query(
    storage: &Store,
    info: &MessageInfo,
    msg: &ExecuteMsg,
) -> (result: Result<Option<WasmQuery>, TAError>)
    ensures
        match peer_query_model(storage.deep_view(), info.deep_view(), msg.deep_view()) {
            Ok(query) => result is Ok && result->Ok_0.deep_view() == query,
            Err(error) => result == Err::<Option<WasmQuery>, TAError>(error),
        },
{
    match msg {
        ExecuteMsg::ReleaseStakeWithSlash(msg) => {
            let config = read_config(storage);
            let ticket_manager = match config.ticket_manager {
                Some(ticket_manager) => ticket_manager,
                None => {
                    return Err(TAError::NotInitialized);
                },
            };
            if !(info.sender == ticket_manager) {
                return Err(TAError::NotAuthorized);
            }
            Ok(
                Some(
                    WasmQuery {
                        contract_addr: ticket_manager,
                        msg: QueryPayload::TicketManager(
                            TicketQueryMsg::QueryTicketInfo { tid: msg.tid },
                        ),
                    },
                ),
            )
        },
        _ => Ok(None),
    }
}

/// What `execute` does: what the handler of the message does with what the
/// answer holds for it.
pub open spec fn execute_model(
    before: StoreView,
    env: EnvView,
    info: MessageInfoView,
    msg: ExecuteMsgView,
    answer: QueryAnswerView,
) -> Result<(StoreView, ResponseView), TAError> {
    match msg {
        ExecuteMsgView::AddTicket(msg) => execute_add_ticket_model(before, info, msg),
        ExecuteMsgView::UpdateTicket(msg) => execute_update_ticket_model(before, info, msg),
        ExecuteMsgView::RemoveTicket { tid } => execute_remove_ticket_model(before, info, tid),
        ExecuteMsgView::DecideWinningBet { tid } => execute_decide_win_bet_model(before, info, tid),
        ExecuteMsgView::ReleaseStakeWithSlash(msg) => execute_release_stake_with_slash_model(
            before,
            info,
            msg,
            answer.ticket_info(),
        ),
        ExecuteMsgView::CreateTicketManager { code_id } => execute_create_ticket_manager_model(
            before,
            env,
            info,
            code_id,
        ),
        ExecuteMsgView::CreateUsrBoardManager { code_id } => {
            execute_create_user_board_manager_model(before, env, info, code_id)
        },
        ExecuteMsgView::CreateAuctionManager { code_id } => execute_create_auction_manager_model(
            before,
            env,
            info,
            code_id,
        ),
        ExecuteMsgView::CreateCollateralManager {
            code_id,
        } => execute_create_collateral_manager_model(before, env, info, code_id),
        ExecuteMsgView::PostConfig(msg) => execute_post_config_model(before, info, msg),
    }
}

/// What `execute` asks of its input: where a stake is to be settled and the
/// answer holds the ticket, the collateral of the ticket can be split at the
/// thousandths of the request. A request of up to a thousand thousandths
/// meets this whatever the collateral.
pub open spec fn executable(msg: ExecuteMsg, answer: QueryAnswer) -> bool {
    match (msg, answer) {
        (ExecuteMsg::ReleaseStakeWithSlash(slash), QueryAnswer::TicketInfo(ticket)) => {
            can_be_settled(ticket.collateral, slash.slash_perc)
        },
        _ => true,
    }
}

/// Whether `execute` can be called with `msg` and `answer`.
pub fn can_execute(msg: &ExecuteMsg, answer: &QueryAnswer) -> (possible: bool)
    ensures
        possible == executable(*msg, *answer),
{
    match (msg, answer) {
        (ExecuteMsg::ReleaseStakeWithSlash(slash), QueryAnswer::TicketInfo(ticket)) => can_settle(
            ticket.collateral,
            slash.slash_perc,
        ),
        _ => true,
    }
}

/// Runs the handler of `msg`. `answer` is what the ticket manager answered
/// to the question of [`peer_query`]. An error of [`peer_query`] is the
/// error of `execute`, whatever the answer.
pub fn execute(
    storage: &mut Store,
    env: Env,
    info: MessageInfo,
    msg: ExecuteMsg,
    answer: QueryAnswer,
) -> (result: Result<Response, TAError>)
    requires
        executable(msg, answer),
    ensures
        settles(
            old(storage).deep_view(),
            final(storage).deep_view(),
            result,
            execute_model(
                old(storage).deep_view(),
                env.deep_view(),
                info.deep_view(),
                msg.deep_view(),
                answer.deep_view(),
            ),
        ),
        peer_query_model(old(storage).deep_view(), info.deep_view(), msg.deep_view()) is Err
            ==> result is Err && result->Err_0 == peer_query_model(
            old(storage).deep_view(),
            info.deep_view(),
            msg.deep_view(),
        )->Err_0,
{
    match msg {
        ExecuteMsg::AddTicket(msg) => execute_add_ticket(storage, info, msg),
        ExecuteMsg::UpdateTicket(msg) => execute_update_ticket(storage, info, msg),
        ExecuteMsg::RemoveTicket { tid } => execute_remove_ticket(storage, info, tid),
        ExecuteMsg::DecideWinningBet { tid } => execute_decide_win_bet(storage, info, tid),
        ExecuteMsg::ReleaseStakeWithSlash(msg) => execute_release_stake_with_slash(
            storage,
            info,
            msg,
            answer.into_ticket_info(),
        ),
        ExecuteMsg::CreateTicketManager { code_id } => execute_create_ticket_manager(
            storage,
            env,
            info,
            code_id,
        ),
        ExecuteMsg::CreateUsrBoardManager { code_id } => execute_create_user_board_manager(
            storage,
            env,
            info,
            code_id,
        ),
        ExecuteMsg::CreateAuctionManager { code_id } => execute_create_auction_manager(
            storage,
            env,
            info,
            code_id,
        ),
        ExecuteMsg::CreateCollateralManager { code_id } => execute_create_collateral_manager(
            storage,
            env,
            info,
            code_id,
        ),
        ExecuteMsg::PostConfig(msg) => execute_post_config(storage, info, msg),
    }
}

/// What `query` does with `msg`: it passes the question on to the ticket
/// manager. `NotInitialized` if the ticket manager is not configured.
pub open spec fn query_model(records: StoreView, msg: QueryMsg) -> Result<WasmQueryView, TAError> {
    match records.config.ticket_manager {
        None => Err(TAError::NotInitialized),
        Some(ticket_manager) => Ok(
            WasmQueryView {
                contract_addr: ticket_manager,
                msg: QueryPayloadView::TicketManager(
                    match msg {
                        QueryMsg::QueryTicketInfo { tid } => TicketQueryMsg::QueryTicketInfo {
                            tid,
                        },
                        QueryMsg::QueryTicketWorker { tid } => TicketQueryMsg::QueryTicketWorker {
                            tid,
                        },
                    },
                ),
            },
        ),
    }
}

/// The question for the ticket `tid`, to be put to the ticket manager.
pub fn query_ticket_info(storage: &Store, tid: u64) -> (result: Result<WasmQuery, TAError>)
    ensures
        match query_model(storage.deep_view(), QueryMsg::QueryTicketInfo { tid }) {
            Ok(query) => result is Ok && result->Ok_0.deep_view() == query,
            Err(error) => result == Err::<WasmQuery, TAError>(error),
        },
{
    let config = read_config(storage);
    match config.ticket_manager {
        None => Err(TAError::NotInitialized),
        Some(ticket_manager) => Ok(
            WasmQuery {
                contract_addr: ticket_manager,
                msg: QueryPayload::TicketManager(TicketQueryMsg::QueryTicketInfo { tid }),
            },
        ),
    }
}

/// The question for the worker of the ticket `tid`, to be put to the ticket manager.
pub fn query_ticket_worker(storage: &Store, tid: u64) -> (result: Result<WasmQuery, TAError>)
    ensures
        match query_model(storage.deep_view(), QueryMsg::QueryTicketWorker { tid }) {
            Ok(query) => result is Ok && result->Ok_0.deep_view() == query,
            Err(error) => result == Err::<WasmQuery, TAError>(error),
        },
{
    let config = read_config(storage);
    match config.ticket_manager {
        None => Err(TAError::NotInitialized),
        Some(ticket_manager) => Ok(
            WasmQuery {
                contract_addr: ticket_manager,
                msg: QueryPayload::TicketManager(TicketQueryMsg::QueryTicketWorker { tid }),
            },
        ),
    }
}

/// Names the question that answers `msg`, to be put to the ticket manager.
pub fn query(storage: &Store, msg: QueryMsg) -> (result: Result<WasmQuery, TAError>)
    ensures
        match query_model(storage.deep_view(), msg) {
            Ok(query) => result is Ok && result->Ok_0.deep_view() == query,
            Err(error) => result == Err::<WasmQuery, TAError>(error),
        },
{
    match msg {
        QueryMsg::QueryTicketInfo { tid } => query_ticket_info(storage, tid),
        QueryMsg::QueryTicketWorker { tid } => query_ticket_worker(storage, tid),
    }
}

/// Migrating touches no record and answers with an empty response.
pub fn migrate(msg: MigrateMsg) -> (result: Result<Response, TAError>)
    ensures
        result is Ok,
        result->Ok_0.deep_view() == (ResponseView {
            messages: Seq::empty(),
            attributes: Seq::empty(),
        }),
{
    Ok(Response::new())
}

} // verus!
