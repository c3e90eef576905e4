//! The handlers of the collateral manager.
//!
//! The collateral manager holds the stakes. A worker locks a stake through
//! the user board, with exactly the collateral of the ticket attached; the
//! admin board has a stake released, with the amount it has computed.

use vstd::prelude::*;
use crate::collateral_manager::state::{
    read_config, read_stakes, store_stakes, Config, ConfigView, Store, StoreView,
};
use crate::collateral_manager::{
    ExecuteMsg, ExecuteMsgView, InstantiateMsg, InstantiateMsgView, MigrateMsg, QueryMsg,
    QueryMsgView, QueryStakeStatusMsg, ReleaseStakeMsg, ReleaseStakeMsgView,
};
use crate::error::TAError;
use crate::host::{
    base_denom, funds_pay_exactly, pays_exactly, reply, reply_with, settles, AttributeView,
    BankMsg, BankMsgView, BASE_DENOM, Coin, CoinView, CosmosMsg, CosmosMsgView, Env, EnvView,
    MessageInfo, MessageInfoView, QueryAnswer, QueryAnswerView, QueryPayload, QueryPayloadView,
    QueryStep, QueryStepView, Response, ResponseView, WasmQuery, WasmQueryView,
};
use crate::ticket_manager::{QueryMsg as TicketQueryMsg, TicketInfoResponse, TicketView};

verus! {

/// What `instantiate` does: it takes no funds, the sender becomes the admin
/// board, the peers are the ones that `msg` names, and there is no stake.
pub open spec fn instantiate_model(
    env: EnvView,
    info: MessageInfoView,
    msg: InstantiateMsgView,
) -> Result<(StoreView, ResponseView), TAError> {
    if info.funds.len() != 0 {
        Err(TAError::UnnecessaryFunds)
    } else {
        Ok(
            (
                StoreView {
                    config: ConfigView {
                        admin_board: info.sender,
                        ticket_manager: msg.ticket_manager,
                        user_board: msg.user_board,
                    },
                    stakes: Map::empty(),
                },
                ResponseView {
                    messages: Seq::empty(),
                    attributes: seq![
                        AttributeView { key: "method"@, value: "instantiate"@ },
                        AttributeView { key: "contract"@, value: env.contract },
                        AttributeView { key: "admin"@, value: info.sender },
                    ],
                },
            ),
        )
    }
}

/// Creates the records of a collateral manager.
pub fn instantiate(
    env: Env,
    info: MessageInfo,
    msg: InstantiateMsg,
) -> (result: Result<(Store, Response), TAError>)
    ensures
        match instantiate_model(env.deep_view(), info.deep_view(), msg.deep_view()) {
            Ok((records, response)) => {
                &&& result is Ok
                &&& result->Ok_0.0.deep_view() == records
                &&& result->Ok_0.1.deep_view() == response
            },
            Err(error) => result is Err && result->Err_0 == error,
        },
{
    if !info.funds.is_empty() {
        return Err(TAError::UnnecessaryFunds);
    }
    let response = Response::new().add_attribute("method", "instantiate").add_attribute(
        "contract",
        env.contract.as_str(),
    ).add_attribute("admin", info.sender.as_str());
    assert(response.deep_view().attributes =~= instantiate_model(
        env.deep_view(),
        info.deep_view(),
        msg.deep_view(),
    )->Ok_0.1.attributes);
    let storage = Store::new(
        Config {
            admin_board: info.sender,
            ticket_manager: msg.ticket_manager,
            user_board: msg.user_board,
        },
    );
    Ok((storage, response))
}

/// The workers that have a stake locked for the ticket `tid`, in the order
/// they locked it; none where no list is kept.
pub open spec fn staked(stakes: Map<u64, Seq<Seq<char>>>, tid: u64) -> Seq<Seq<char>> {
    if stakes.contains_key(tid) {
        stakes[tid]
    } else {
        Seq::empty()
    }
}

/// The worker `worker` has a stake locked for the ticket `tid`.
pub open spec fn is_staked(stakes: Map<u64, Seq<Seq<char>>>, tid: u64, worker: Seq<char>) -> bool {
    staked(stakes, tid).contains(worker)
}

/// What `execute_lock_stake` does. Only the user board may call it.
/// `ticket_info` is the ticket as the ticket manager knows it: it has to
/// exist, and the attached funds have to be exactly its collateral. Then
/// `worker` goes behind the workers with a stake for the ticket, also where
/// the worker is among them already.
pub open spec fn execute_lock_stake_model(
    before: StoreView,
    info: MessageInfoView,
    tid: u64,
    worker: Seq<char>,
    ticket_info: Option<TicketView>,
) -> Result<(StoreView, ResponseView), TAError> {
    if info.sender != before.config.user_board {
        Err(TAError::NotAuthorized)
    } else {
        match ticket_info {
            None => Err(TAError::NotFound),
            Some(ticket) => if !pays_exactly(info.funds, ticket.collateral as u128) {
                Err(TAError::UnnecessaryFunds)
            } else {
                Ok(
                    (
                        StoreView {
                            stakes: before.stakes.insert(
                                tid,
                                staked(before.stakes, tid).push(worker),
                            ),
                            ..before
                        },
                        reply("lock_stake"@),
                    ),
                )
            },
        }
    }
}

/// Locks the attached funds as the stake of `worker` for the ticket `tid`.
/// `ticket_info` is what the ticket manager answered to `QueryTicketInfo`
/// for the ticket, `None` if it has no such ticket.
pub fn execute_lock_stake(
    storage: &mut Store,
    info: MessageInfo,
    tid: u64,
    worker: String,
    ticket_info: Option<TicketInfoResponse>,
) -> (result: Result<Response, TAError>)
    ensures
        settles(
            old(storage).deep_view(),
            final(storage).deep_view(),
            result,
            execute_lock_stake_model(
                old(storage).deep_view(),
                info.deep_view(),
                tid,
                worker@,
                ticket_info.deep_view(),
            ),
        ),
{
    let config = read_config(storage);
    if !(info.sender == config.user_board) {
        return Err(TAError::NotAuthorized);
    }
    let ticket_info = match ticket_info {
        Some(ticket_info) => ticket_info,
        None => {
            return Err(TAError::NotFound);
        },
    };
    if !funds_pay_exactly(&info.funds, ticket_info.collateral as u128) {
        return Err(TAError::UnnecessaryFunds);
    }
    let mut workers = match read_stakes(storage, tid) {
        Ok(workers) => workers,
        Err(_) => Vec::new(),
    };
    let ghost locked = workers.deep_view();
    assert(locked =~= staked(old(storage).deep_view().stakes, tid));
    workers.push(worker);
    assert(workers.deep_view() =~= locked.push(worker@));
    store_stakes(storage, tid, workers);
    Ok(Response::reporting("lock_stake"))
}

/// The stakes `stakes` without any stake of `worker` for the ticket `tid`.
pub open spec fn without_stake(
    stakes: Map<u64, Seq<Seq<char>>>,
    tid: u64,
    worker: Seq<char>,
) -> Map<u64, Seq<Seq<char>>> {
    if stakes.contains_key(tid) {
        stakes.insert(tid, stakes[tid].filter(|other: Seq<char>| other != worker))
    } else {
        stakes
    }
}

/// The message that transfers `amount` of the base denomination to `worker`.
pub open spec fn pay_out(worker: Seq<char>, amount: u128) -> CosmosMsgView {
    CosmosMsgView::Bank(
        BankMsgView::Send {
            to_address: worker,
            amount: seq![CoinView { denom: base_denom(), amount }],
        },
    )
}

/// What `execute_release_stake` does. Only the admin board may call it.
/// Every stake of the worker for the ticket leaves the records, and the
/// ledger is asked to transfer the amount of `msg` to the worker. The amount
/// is taken as given, and the transfer is asked for also where the worker
/// had no stake.
pub open spec fn execute_release_stake_model(
    before: StoreView,
    info: MessageInfoView,
    msg: ReleaseStakeMsgView,
) -> Result<(StoreView, ResponseView), TAError> {
    if info.sender != before.config.admin_board {
        Err(TAError::NotAuthorized)
    } else {
        Ok(
            (
                StoreView { stakes: without_stake(before.stakes, msg.tid, msg.worker), ..before },
                reply_with(pay_out(msg.worker, msg.amt), "release stake"@),
            ),
        )
    }
}

/// Releases a stake.
pub fn execute_release_stake(
    storage: &mut Store,
    info: MessageInfo,
    msg: ReleaseStakeMsg,
) -> (result: Result<Response, TAError>)
    ensures
        settles(
            old(storage).deep_view(),
            final(storage).deep_view(),
            result,
            execute_release_stake_model(
                old(storage).deep_view(),
                info.deep_view(),
                msg.deep_view(),
            ),
        ),
{
    let config = read_config(storage);
    if !(info.sender == config.admin_board) {
        return Err(TAError::NotAuthorized);
    }
    match read_stakes(storage, msg.tid) {
        Ok(workers) => {
            let ghost keep = |other: Seq<char>| other != msg.worker@;
            let mut kept: Vec<String> = Vec::new();
            let mut at: usize = 0;
            while at < workers.len()
                invariant
                    at <= workers@.len(),
                    keep == (|other: Seq<char>| other != msg.worker@),
                    kept.deep_view() == workers.deep_view().take(at as int).filter(keep),
                decreases workers@.len() - at,
            {
                let ghost seen = workers.deep_view().take(at as int);
                let ghost done = kept.deep_view();
                proof {
                    assert(workers.deep_view().take(at + 1) =~= seen.push(
                        workers.deep_view()[at as int],
                    ));
                    seen.lemma_filter_push(workers.deep_view()[at as int], keep);
                }
                if !(workers[at] == msg.worker) {
                    let worker = workers[at].clone();
                    kept.push(worker);
                    assert(kept.deep_view() =~= done.push(worker@));
                }
                at = at + 1;
            }
            assert(workers.deep_view().take(at as int) =~= workers.deep_view());
            store_stakes(storage, msg.tid, kept);
        },
        Err(_) => {},
    }
    let base = BASE_DENOM.to_string();
    let mut amount: Vec<Coin> = Vec::new();
    amount.push(Coin { denom: base, amount: msg.amt });
    let message = CosmosMsg::Bank(BankMsg::Send { to_address: msg.worker, amount });
    assert(message.deep_view() == pay_out(msg.worker@, msg.amt)) by {
        assert(message.deep_view()->Bank_0->Send_amount =~= seq![
            CoinView { denom: base_denom(), amount: msg.amt },
        ]);
    }
    Ok(Response::sending(message, "release stake"))
}

/// The question for the ticket `tid`, put to the ticket manager.
pub open spec fn ticket_query(before: StoreView, tid: u64) -> WasmQueryView {
    WasmQueryView {
        contract_addr: before.config.ticket_manager,
        msg: QueryPayloadView::TicketManager(TicketQueryMsg::QueryTicketInfo { tid }),
    }
}

/// What has to be asked of the ticket manager before `execute` can run
/// `msg`: the ticket, where a stake is locked. The check that needs no
/// answer is made first, and its error comes out here.
pub open spec fn peer_query_model(
    before: StoreView,
    info: MessageInfoView,
    msg: ExecuteMsgView,
) -> Result<Option<WasmQueryView>, TAError> {
    match msg {
        ExecuteMsgView::LockStake { tid, worker } => if info.sender != before.config.user_board {
            Err(TAError::NotAuthorized)
        } else {
            Ok(Some(ticket_query(before, tid)))
        },
        ExecuteMsgView::ReleaseStake(_) => Ok(None),
    }
}

/// The question whose answer `execute` needs for `msg`, if it needs one, or
/// the error with which `execute` fails whatever the answer is.
pub fn peer_query(
    storage: &Store,
    info: &MessageInfo,
    msg: &ExecuteMsg,
) -> (result: Result<Option<WasmQuery>, TAError>)
    ensures
        match peer_query_model(storage.deep_view(), info.deep_view(), msg.deep_view()) {
            Ok(query) => result is Ok && result->Ok_0.deep_view() == query,
            Err(error) => result == Err::<Option<WasmQuery>, TAError>(error),
        },
{
    match msg {
        ExecuteMsg::LockStake { tid, worker } => {
            let config = read_config(storage);
            if !(info.sender == config.user_board) {
                return Err(TAError::NotAuthorized);
            }
            Ok(Some(query_ticket(storage, *tid)))
        },
        ExecuteMsg::ReleaseStake(_) => Ok(None),
    }
}

/// What `execute` does: what the handler of the message does with what the
/// answer holds for it.
pub open spec fn execute_model(
    before: StoreView,
    info: MessageInfoView,
    msg: ExecuteMsgView,
    answer: QueryAnswerView,
) -> Result<(StoreView, ResponseView), TAError> {
    match msg {
        ExecuteMsgView::LockStake { tid, worker } => execute_lock_stake_model(
            before,
            info,
            tid,
            worker,
            answer.ticket_info(),
        ),
        ExecuteMsgView::ReleaseStake(msg) => execute_release_stake_model(before, info, msg),
    }
}

/// Runs the handler of `msg`. `answer` is what the ticket manager answered
/// to the question of [`peer_query`]. An error of [`peer_query`] is the
/// error of `execute`, whatever the answer.
pub fn execute(
    storage: &mut Store,
    env: Env,
    info: MessageInfo,
    msg: ExecuteMsg,
    answer: QueryAnswer,
) -> (result: Result<Response, TAError>)
    ensures
        settles(
            old(storage).deep_view(),
            final(storage).deep_view(),
            result,
            execute_model(
                old(storage).deep_view(),
                info.deep_view(),
                msg.deep_view(),
                answer.deep_view(),
            ),
        ),
        peer_query_model(old(storage).deep_view(), info.deep_view(), msg.deep_view()) is Err
            ==> result is Err && result->Err_0 == peer_query_model(
            old(storage).deep_view(),
            info.deep_view(),
            msg.deep_view(),
        )->Err_0,
{
    match msg {
        ExecuteMsg::LockStake { tid, worker } => execute_lock_stake(
            storage,
            info,
            tid,
            worker,
            answer.into_ticket_info(),
        ),
        ExecuteMsg::ReleaseStake(msg) => execute_release_stake(storage, info, msg),
    }
}

/// The question for the ticket `tid`, to be put to the ticket manager.
pub fn query_ticket(storage: &Store, tid: u64) -> (query: WasmQuery)
    ensures
        query.deep_view() == ticket_query(storage.deep_view(), tid),
{
    let config = read_config(storage);
    WasmQuery {
        contract_addr: config.ticket_manager,
        msg: QueryPayload::TicketManager(TicketQueryMsg::QueryTicketInfo { tid }),
    }
}

/// Whether the worker of `msg` has a stake locked for the ticket of `msg`.
pub fn query_stake_status(storage: &Store, msg: &QueryStakeStatusMsg) -> (staked: bool)
    ensures
        staked == is_staked(storage.deep_view().stakes, msg.tid, msg.worker@),
{
    match read_stakes(storage, msg.tid) {
        Ok(workers) => {
            let ghost all = workers.deep_view();
            let mut at: usize = 0;
            while at < workers.len()
                invariant
                    at <= workers@.len(),
                    all == workers.deep_view(),
                    all == staked(storage.deep_view().stakes, msg.tid),
                    forall|j: int| 0 <= j < at ==> all[j] != msg.worker@,
                decreases workers@.len() - at,
            {
                if workers[at] == msg.worker {
                    assert(all[at as int] == msg.worker@);
                    return true;
                }
                at = at + 1;
            }
            false
        },
        Err(_) => false,
    }
}

/// What `query` does with `msg`: the stake status it answers from the
/// records, a question for a ticket it passes on to the ticket manager.
pub open spec fn query_model(records: StoreView, msg: QueryMsgView) -> QueryStepView {
    match msg {
        QueryMsgView::QueryTicket { tid } => QueryStepView::Ask(ticket_query(records, tid)),
        QueryMsgView::QueryStakeStatus(msg) => QueryStepView::Answer(
            QueryAnswerView::StakeStatus(is_staked(records.stakes, msg.tid, msg.worker)),
        ),
    }
}

/// Answers `msg` from the records, or names the question to pass on. This
/// never fails.
pub fn query(storage: &Store, msg: QueryMsg) -> (result: Result<QueryStep, TAError>)
    ensures
        result is Ok,
        result->Ok_0.deep_view() == query_model(storage.deep_view(), msg.deep_view()),
{
    match msg {
        QueryMsg::QueryTicket { tid } => Ok(QueryStep::Ask(query_ticket(storage, tid))),
        QueryMsg::QueryStakeStatus(msg) => Ok(
            QueryStep::Answer(QueryAnswer::StakeStatus(query_stake_status(storage, &msg))),
        ),
    }
}

/// A stake that is locked is recorded. Where locking succeeds, the attached
/// funds were exactly the collateral of the ticket, and the stake status of
/// the worker for the ticket is true afterwards. Where the user board calls
/// with other funds than the collateral, locking fails with
/// `UnnecessaryFunds`.
pub proof fn lemma_locked_stake_is_staked(
    before: StoreView,
    info: MessageInfoView,
    tid: u64,
    worker: Seq<char>,
    ticket: TicketView,
)
    ensures
        match execute_lock_stake_model(before, info, tid, worker, Some(ticket)) {
            Ok((after, _)) => pays_exactly(info.funds, ticket.collateral as u128) && is_staked(
                after.stakes,
                tid,
                worker,
            ),
            Err(error) => info.sender == before.config.user_board ==> error
                == TAError::UnnecessaryFunds && !pays_exactly(
                info.funds,
                ticket.collateral as u128,
            ),
        },
{
    let locked = staked(before.stakes, tid).push(worker);
    assert(locked[locked.len() - 1] == worker);
}

/// Migrating touches no record and answers with an empty response.
pub fn migrate(msg: MigrateMsg) -> (result: Result<Response, TAError>)
    ensures
        result is Ok,
        result->Ok_0.deep_view() == (ResponseView {
            messages: Seq::empty(),
            attributes: Seq::empty(),
        }),
{
    Ok(Response::new())
}

} // verus!
