//! How the five services act together.
//!
//! A call to one service makes it hand back a message for the next. Where the
//! services are configured with each other's addresses, each such message is
//! taken by the service it is meant for, so that a stake, a bet, a decision
//! and a submission each run through to their end. The theorems below follow
//! one such chain each, step by step, over what the handlers are proved to do.

use vstd::prelude::*;
use crate::admin_board::contract::execute_model as admin_board_does;
use crate::admin_board::state::StoreView as AdminBoardView;
use crate::admin_board::{ExecuteMsgView as AdminExecuteMsgView, SlashMsgView};
use crate::auction_manager::contract::{
    execute_model as auction_manager_does, lemma_lowest_bet, lowest_bet, open_bets,
};
use crate::auction_manager::state::{BetDetailView, StoreView as AuctionManagerView};
use crate::auction_manager::{
    ExecuteMsgView as AuctionExecuteMsgView, PlaceBetMsgView as AuctionPlaceBetMsgView,
};
use crate::collateral_manager::contract::{
    execute_model as collateral_manager_does, is_staked, pay_out, staked, without_stake,
};
use crate::collateral_manager::state::StoreView as CollateralManagerView;
use crate::collateral_manager::{
    ExecuteMsgView as CollateralExecuteMsgView, ReleaseStakeMsgView,
};
use crate::decimal::{lemma_settlement_is_exact, release_amount, slash_amount};
use crate::error::TAError;
use crate::host::{
    base_denom, call, pays_exactly, reply, reply_with, CoinView, CosmosMsgView, EnvView,
    ExecutePayloadView, MessageInfoView, QueryAnswerView, ResponseView, WasmMsgView,
};
use crate::ticket_manager::contract::{
    execute_model as ticket_manager_does, lemma_slash_percent_monotone, slash_percent, FULL_SLASH,
};
use crate::ticket_manager::state::{find_ticket, StoreView as TicketManagerView};
use crate::ticket_manager::{
    ExecuteMsgView as TicketExecuteMsgView, TicketResultMsgView, TicketWorkerPairView,
    TicketsResponseView,
};
use crate::user_board::contract::execute_model as user_board_does;
use crate::user_board::state::StoreView as UserBoardView;
use crate::user_board::{ExecuteMsgView as UserExecuteMsgView, PlaceBetMsg};

verus! {

/// The addresses under which the five services run.
pub struct Addresses {
    pub admin_board: Seq<char>,
    pub ticket_manager: Seq<char>,
    pub auction_manager: Seq<char>,
    pub collateral_manager: Seq<char>,
    pub user_board: Seq<char>,
}

/// The five services with what each keeps between calls.
pub struct Services {
    pub admin_board: AdminBoardView,
    pub ticket_manager: TicketManagerView,
    pub auction_manager: AuctionManagerView,
    pub collateral_manager: CollateralManagerView,
    pub user_board: UserBoardView,
}

/// Every service is configured with the addresses under which its peers run.
pub open spec fn wired(services: Services, at: Addresses) -> bool {
    &&& services.admin_board.config.ticket_manager == Some(at.ticket_manager)
    &&& services.admin_board.config.collateral_manager == Some(at.collateral_manager)
    &&& services.admin_board.config.auction_manager == Some(at.auction_manager)
    &&& services.admin_board.config.user_board == Some(at.user_board)
    &&& services.ticket_manager.config.admin_board == at.admin_board
    &&& services.ticket_manager.config.auction_manager == Some(at.auction_manager)
    &&& services.ticket_manager.config.user_board == Some(at.user_board)
    &&& services.auction_manager.config.admin_board == at.admin_board
    &&& services.auction_manager.config.ticket_manager == at.ticket_manager
    &&& services.auction_manager.config.user_board == at.user_board
    &&& services.collateral_manager.config.admin_board == at.admin_board
    &&& services.collateral_manager.config.ticket_manager == at.ticket_manager
    &&& services.collateral_manager.config.user_board == at.user_board
    &&& services.user_board.config.ticket_manager == Some(at.ticket_manager)
    &&& services.user_board.config.collateral_manager == Some(at.collateral_manager)
    &&& services.user_board.config.auction_manager == Some(at.auction_manager)
}

/// A call by `sender` that attaches `funds`.
pub open spec fn from(sender: Seq<char>, funds: Seq<CoinView>) -> MessageInfoView {
    MessageInfoView { sender, funds }
}

/// The message that calls the service at `target` with `msg` and attaches `funds`.
pub open spec fn call_with(
    target: Seq<char>,
    msg: ExecutePayloadView,
    funds: Seq<CoinView>,
) -> CosmosMsgView {
    CosmosMsgView::Wasm(WasmMsgView::Execute { contract_addr: target, msg, funds })
}

/// A stake runs through. A worker who attaches exactly the collateral of a
/// ticket that the ticket manager has, from an address that the host
/// accepts, has the user board send the funds on to the collateral manager,
/// which records the stake for the worker: the stake status of the worker
/// for the ticket is true afterwards, and nobody else's has changed.
pub proof fn theorem_stake_is_locked(
    services: Services,
    at: Addresses,
    worker: Seq<char>,
    funds: Seq<CoinView>,
    tid: u64,
)
    requires
        wired(services, at),
        find_ticket(services.ticket_manager.tickets, tid) is Some,
        pays_exactly(
            funds,
            find_ticket(services.ticket_manager.tickets, tid)->Some_0.collateral as u128,
        ),
    ensures
        ({
            let ticket = find_ticket(services.ticket_manager.tickets, tid)->Some_0;
            let lock = CollateralExecuteMsgView::LockStake { tid, worker };
            let escrow = services.collateral_manager;
            let locked = escrow.stakes.insert(tid, staked(escrow.stakes, tid).push(worker));
            &&& user_board_does(
                services.user_board,
                from(worker, funds),
                UserExecuteMsgView::LockStake { tid },
                true,
                QueryAnswerView::Missing,
            ) == Ok::<_, TAError>(
                (
                    services.user_board,
                    reply_with(
                        call_with(
                            at.collateral_manager,
                            ExecutePayloadView::CollateralManager(lock),
                            funds,
                        ),
                        "lock stake"@,
                    ),
                ),
            )
            &&& collateral_manager_does(
                escrow,
                from(at.user_board, funds),
                lock,
                QueryAnswerView::TicketInfo(ticket),
            ) == Ok::<_, TAError>(
                (CollateralManagerView { stakes: locked, ..escrow }, reply("lock_stake"@)),
            )
            &&& is_staked(locked, tid, worker)
            &&& forall|other: Seq<char>, ticket: u64|
                (other != worker || ticket != tid) ==> is_staked(locked, ticket, other)
                    == is_staked(escrow.stakes, ticket, other)
        }),
{
    let escrow = services.collateral_manager;
    let before = staked(escrow.stakes, tid);
    let after = before.push(worker);
    let locked = escrow.stakes.insert(tid, after);
    assert(funds.len() > 0) by {
        if funds.len() == 0 {
            assert(funds.filter(|coin: CoinView| coin.denom == base_denom()).len() == 0);
        }
    }
    assert(after[before.len() as int] == worker);
    assert forall|other: Seq<char>, ticket: u64|
        (other != worker || ticket != tid) implies is_staked(locked, ticket, other) == is_staked(
        escrow.stakes,
        ticket,
        other,
    ) by {
        if ticket == tid {
            if before.contains(other) {
                let i = choose|i: int| 0 <= i < before.len() && before[i] == other;
                assert(after[i] == other);
            }
            if after.contains(other) {
                let i = choose|i: int| 0 <= i < after.len() && after[i] == other;
                assert(before[i] == other);
            }
        }
    }
}

/// A bet runs through. A worker with a stake for a ticket that the ticket
/// manager has, whose address the host accepts, has the user board pass the
/// bet on to the auction manager, which puts it behind the open bets of the
/// ticket under the worker's name.
pub proof fn theorem_bet_is_placed(
    services: Services,
    at: Addresses,
    worker: Seq<char>,
    bet: PlaceBetMsg,
    now: u64,
)
    requires
        wired(services, at),
        is_staked(services.collateral_manager.stakes, bet.ticket_id, worker),
        find_ticket(services.ticket_manager.tickets, bet.ticket_id) is Some,
    ensures
        ({
            let placed = AuctionExecuteMsgView::PlaceBet(
                AuctionPlaceBetMsgView {
                    ticket_id: bet.ticket_id,
                    workder: worker,
                    bet_amount: bet.bet_amount,
                },
            );
            let auction = services.auction_manager;
            &&& user_board_does(
                services.user_board,
                from(worker, Seq::empty()),
                UserExecuteMsgView::PlaceBet(bet),
                true,
                QueryAnswerView::StakeStatus(
                    is_staked(services.collateral_manager.stakes, bet.ticket_id, worker),
                ),
            ) == Ok::<_, TAError>(
                (
                    services.user_board,
                    reply_with(
                        call(at.auction_manager, ExecutePayloadView::AuctionManager(placed)),
                        "place bet"@,
                    ),
                ),
            )
            &&& auction_manager_does(
                auction,
                EnvView { time: now, contract: at.auction_manager },
                from(at.user_board, Seq::empty()),
                placed,
                true,
                QueryAnswerView::Tickets(
                    TicketsResponseView { tickets: services.ticket_manager.tickets },
                ),
            ) == Ok::<_, TAError>(
                (
                    AuctionManagerView {
                        bets: auction.bets.insert(
                            bet.ticket_id,
                            open_bets(auction.bets, bet.ticket_id).push(
                                BetDetailView { worker, bet_amt: bet.bet_amount },
                            ),
                        ),
                        ..auction
                    },
                    reply("place_bet"@),
                ),
            )
        }),
{
}

/// A decision runs through. Once the bet deadline of a ticket has come and
/// there are open bets for it, the administrator has the admin board ask the
/// auction manager for the decision; the auction manager drops the bets of
/// the ticket and reports the bidder of the lowest bet, the oldest among
/// equally low ones, to the ticket manager, which records that bidder as the
/// worker of the ticket.
pub proof fn theorem_winner_is_assigned(services: Services, at: Addresses, tid: u64, now: u64)
    requires
        wired(services, at),
        find_ticket(services.ticket_manager.tickets, tid) is Some,
        now >= find_ticket(services.ticket_manager.tickets, tid)->Some_0.bet_finish_timestamp,
        open_bets(services.auction_manager.bets, tid).len() > 0,
    ensures
        ({
            let ticket = find_ticket(services.ticket_manager.tickets, tid)->Some_0;
            let decide = AuctionExecuteMsgView::DecideWinningBet { tid };
            let auction = services.auction_manager;
            let bets = auction.bets[tid];
            let winner = bets[lowest_bet(bets)];
            let assign = TicketExecuteMsgView::SaveTicketWorker(
                TicketWorkerPairView { tid, worker: winner.worker },
            );
            let registry = services.ticket_manager;
            &&& admin_board_does(
                services.admin_board,
                EnvView { time: now, contract: at.admin_board },
                from(services.admin_board.config.admin, Seq::empty()),
                AdminExecuteMsgView::DecideWinningBet { tid },
                QueryAnswerView::Missing,
            ) == Ok::<_, TAError>(
                (
                    services.admin_board,
                    reply_with(
                        call(at.auction_manager, ExecutePayloadView::AuctionManager(decide)),
                        "decide winning bet"@,
                    ),
                ),
            )
            &&& auction_manager_does(
                auction,
                EnvView { time: now, contract: at.auction_manager },
                from(at.admin_board, Seq::empty()),
                decide,
                true,
                QueryAnswerView::TicketInfo(ticket),
            ) == Ok::<_, TAError>(
                (
                    AuctionManagerView { bets: auction.bets.remove(tid), ..auction },
                    reply_with(
                        call(at.ticket_manager, ExecutePayloadView::TicketManager(assign)),
                        "win_bet"@,
                    ),
                ),
            )
            &&& ticket_manager_does(
                registry,
                EnvView { time: now, contract: at.ticket_manager },
                from(at.auction_manager, Seq::empty()),
                assign,
                true,
            ) == Ok::<_, TAError>(
                (
                    TicketManagerView {
                        pairs: registry.pairs.insert(tid, winner.worker),
                        ..registry
                    },
                    reply("save ticket-worker pair"@),
                ),
            )
            &&& 0 <= lowest_bet(bets) < bets.len()
            &&& forall|i: int|
                0 <= i < bets.len() ==> winner.bet_amt <= (#[trigger] bets[i]).bet_amt
            &&& forall|i: int|
                0 <= i < lowest_bet(bets) ==> (#[trigger] bets[i]).bet_amt > winner.bet_amt
        }),
{
    lemma_lowest_bet(services.auction_manager.bets[tid]);
}

/// A submission runs through to the payment. The worker that a ticket is
/// assigned to, from an address that the host accepts, submits `result` at
/// the time `now`, for a ticket that no result has been assessed for. The
/// user board passes the result on to the ticket manager as a submission of
/// the caller, whatever worker `named` the submission names. The ticket
/// manager assesses it, records the ticket as assessed and asks the admin
/// board to settle; the admin board computes what is released from the
/// ticket's current collateral and has the collateral manager pay it; the
/// collateral manager drops the worker's stake and asks the ledger to
/// transfer the amount to the worker.
///
/// The amount is the collateral less the thousandths that the assessment
/// withholds, the two parts make the collateral, and the transfer goes to
/// the assigned worker and to nobody else.
pub proof fn theorem_submission_is_settled(
    services: Services,
    at: Addresses,
    worker: Seq<char>,
    named: Seq<char>,
    tid: u64,
    result: Seq<char>,
    now: u64,
)
    requires
        wired(services, at),
        find_ticket(services.ticket_manager.tickets, tid) is Some,
        services.ticket_manager.pairs.contains_key(tid),
        services.ticket_manager.pairs[tid] == worker,
        !services.ticket_manager.assessed.contains(tid),
    ensures
        ({
            let ticket = find_ticket(services.ticket_manager.tickets, tid)->Some_0;
            let submitted = TicketResultMsgView { tid, worker: named, result };
            let submission = TicketResultMsgView { tid, worker, result };
            let assess = TicketExecuteMsgView::AssessSubmission(submission);
            let registry = services.ticket_manager;
            let withheld = slash_percent(ticket, result, now);
            let slash = SlashMsgView { tid, worker, slash_perc: withheld };
            let settle = AdminExecuteMsgView::ReleaseStakeWithSlash(slash);
            let amount = release_amount(ticket.collateral, withheld);
            let release = CollateralExecuteMsgView::ReleaseStake(
                ReleaseStakeMsgView { tid, worker, amt: amount as u128 },
            );
            let escrow = services.collateral_manager;
            &&& user_board_does(
                services.user_board,
                from(worker, Seq::empty()),
                UserExecuteMsgView::SubmitResult(submitted),
                true,
                QueryAnswerView::Worker(services.ticket_manager.pairs[tid]),
            ) == Ok::<_, TAError>(
                (
                    services.user_board,
                    reply_with(
                        call(at.ticket_manager, ExecutePayloadView::TicketManager(assess)),
                        "submit result"@,
                    ),
                ),
            )
            &&& ticket_manager_does(
                services.ticket_manager,
                EnvView { time: now, contract: at.ticket_manager },
                from(at.user_board, Seq::empty()),
                assess,
                true,
            ) == Ok::<_, TAError>(
                (
                    TicketManagerView { assessed: registry.assessed.push(tid), ..registry },
                    reply_with(
                        call(at.admin_board, ExecutePayloadView::AdminBoard(settle)),
                        "assess submission"@,
                    ),
                ),
            )
            &&& registry.assessed.push(tid).contains(tid)
            &&& withheld <= FULL_SLASH
            &&& admin_board_does(
                services.admin_board,
                EnvView { time: now, contract: at.admin_board },
                from(at.ticket_manager, Seq::empty()),
                settle,
                QueryAnswerView::TicketInfo(ticket),
            ) == Ok::<_, TAError>(
                (
                    services.admin_board,
                    reply_with(
                        call(at.collateral_manager, ExecutePayloadView::CollateralManager(release)),
                        "release stake with slash"@,
                    ),
                ),
            )
            &&& collateral_manager_does(
                escrow,
                from(at.admin_board, Seq::empty()),
                release,
                QueryAnswerView::Missing,
            ) == Ok::<_, TAError>(
                (
                    CollateralManagerView {
                        stakes: without_stake(escrow.stakes, tid, worker),
                        ..escrow
                    },
                    reply_with(pay_out(worker, amount as u128), "release stake"@),
                ),
            )
            &&& 0 <= amount <= ticket.collateral
            &&& amount + slash_amount(ticket.collateral, withheld) == ticket.collateral
            &&& !is_staked(without_stake(escrow.stakes, tid, worker), tid, worker)
        }),
{
    let ticket = find_ticket(services.ticket_manager.tickets, tid)->Some_0;
    let withheld = slash_percent(ticket, result, now);
    let assessed = services.ticket_manager.assessed.push(tid);
    assert(assessed[assessed.len() - 1] == tid);
    lemma_slash_percent_monotone(ticket, result, now, now);
    lemma_settlement_is_exact(ticket.collateral, withheld);
    let stakes = services.collateral_manager.stakes;
    if stakes.contains_key(tid) {
        let keep = |other: Seq<char>| other != worker;
        let kept = stakes[tid].filter(keep);
        if kept.contains(worker) {
            let i = choose|i: int| 0 <= i < kept.len() && kept[i] == worker;
            stakes[tid].lemma_filter_pred(keep, i);
        }
    }
}

/// A ticket is settled once. Once a result has been assessed for a ticket,
/// the ticket manager refuses every further submission for it, whoever
/// makes it and whatever it holds: the records stay as they are and no
/// settlement is asked for. The theorems that follow trace every payment
/// back to a settlement that the ticket manager asked for on an assessment.
pub proof fn theorem_no_second_settlement(
    registry: TicketManagerView,
    env: EnvView,
    info: MessageInfoView,
    submission: TicketResultMsgView,
    worker_valid: bool,
)
    requires
        registry.assessed.contains(submission.tid),
    ensures
        ticket_manager_does(
            registry,
            env,
            info,
            TicketExecuteMsgView::AssessSubmission(submission),
            worker_valid,
        ) is Err,
        !(info.funds.len() != 0) && registry.pairs.contains_key(submission.tid)
            && registry.pairs[submission.tid] == submission.worker && find_ticket(
            registry.tickets,
            submission.tid,
        ) is Some ==> ticket_manager_does(
            registry,
            env,
            info,
            TicketExecuteMsgView::AssessSubmission(submission),
            worker_valid,
        ) == Err::<(TicketManagerView, ResponseView), TAError>(TAError::AlreadyAssessed),
{
}

/// Funds leave only on the word of the admin board. Whatever the collateral
/// manager is called with, it asks the ledger for a transfer only where the
/// caller is its admin board and the call is a release; the transfer is then
/// the one that the release names, to the worker and of the amount of the
/// release, and it is the only message.
pub proof fn theorem_only_the_admin_board_has_funds_paid(
    escrow: CollateralManagerView,
    info: MessageInfoView,
    msg: CollateralExecuteMsgView,
    answer: QueryAnswerView,
)
    ensures
        match collateral_manager_does(escrow, info, msg, answer) {
            Ok((_, response)) => forall|i: int|
                0 <= i < response.messages.len() && #[trigger] response.messages[i] is Bank ==> {
                    &&& info.sender == escrow.config.admin_board
                    &&& msg matches CollateralExecuteMsgView::ReleaseStake(release)
                    &&& response.messages == seq![pay_out(release.worker, release.amt)]
                },
            Err(_) => true,
        },
{
    match collateral_manager_does(escrow, info, msg, answer) {
        Ok((_, response)) => {
            match msg {
                CollateralExecuteMsgView::ReleaseStake(release) => {
                    assert(response.messages =~= seq![pay_out(release.worker, release.amt)]);
                },
                CollateralExecuteMsgView::LockStake { .. } => {},
            }
        },
        Err(_) => {},
    }
}

/// The release that `message` asks a collateral manager for, with the
/// address it is sent to, if it asks for one.
pub open spec fn release_in(message: CosmosMsgView) -> Option<(Seq<char>, ReleaseStakeMsgView)> {
    match message {
        CosmosMsgView::Wasm(
            WasmMsgView::Execute {
                contract_addr,
                msg: ExecutePayloadView::CollateralManager(
                    CollateralExecuteMsgView::ReleaseStake(release),
                ),
                ..
            },
        ) => Some((contract_addr, release)),
        _ => None,
    }
}

/// A release is asked for only on the word of the ticket manager. Whatever
/// the admin board is called with, it sends a release only where the caller
/// is the configured ticket manager and the call asks for a stake to be
/// settled; the release then goes to the configured collateral manager, is
/// for the worker and the ticket of that call, and is the only message. The
/// administrator cannot have a stake released.
pub proof fn theorem_only_the_ticket_manager_has_stakes_released(
    admin: AdminBoardView,
    env: EnvView,
    info: MessageInfoView,
    msg: AdminExecuteMsgView,
    answer: QueryAnswerView,
)
    ensures
        match admin_board_does(admin, env, info, msg, answer) {
            Ok((_, response)) => forall|i: int|
                0 <= i < response.messages.len() && (#[trigger] release_in(
                    response.messages[i],
                )) is Some ==> {
                    let (target, release) = release_in(response.messages[i])->Some_0;
                    &&& admin.config.ticket_manager == Some(info.sender)
                    &&& admin.config.collateral_manager == Some(target)
                    &&& msg matches AdminExecuteMsgView::ReleaseStakeWithSlash(slash)
                    &&& release.worker == slash.worker
                    &&& release.tid == slash.tid
                    &&& response.messages.len() == 1
                },
            Err(_) => true,
        },
{
}

/// The settlement that `message` asks an admin board for, with the address
/// it is sent to, if it asks for one.
pub open spec fn settlement_in(message: CosmosMsgView) -> Option<(Seq<char>, SlashMsgView)> {
    match message {
        CosmosMsgView::Wasm(
            WasmMsgView::Execute {
                contract_addr,
                msg: ExecutePayloadView::AdminBoard(
                    AdminExecuteMsgView::ReleaseStakeWithSlash(slash),
                ),
                ..
            },
        ) => Some((contract_addr, slash)),
        _ => None,
    }
}

/// A settlement is asked for only for the assigned worker. Whatever the
/// ticket manager is called with, it asks for a settlement only where the
/// call is a submission for a ticket that exists and has not been assessed
/// before, by the worker that the ticket is assigned to; the request then
/// goes to the admin board, is for that worker, withholds what the
/// assessment of the submission says, and is the only message.
pub proof fn theorem_only_the_assigned_worker_is_settled(
    registry: TicketManagerView,
    env: EnvView,
    info: MessageInfoView,
    msg: TicketExecuteMsgView,
    worker_valid: bool,
)
    ensures
        match ticket_manager_does(registry, env, info, msg, worker_valid) {
            Ok((_, response)) => forall|i: int|
                0 <= i < response.messages.len() && (#[trigger] settlement_in(
                    response.messages[i],
                )) is Some ==> {
                    let (target, slash) = settlement_in(response.messages[i])->Some_0;
                    &&& target == registry.config.admin_board
                    &&& msg matches TicketExecuteMsgView::AssessSubmission(submission)
                    &&& find_ticket(registry.tickets, submission.tid) matches Some(ticket)
                    &&& registry.pairs.contains_key(submission.tid)
                    &&& registry.pairs[submission.tid] == submission.worker
                    &&& !registry.assessed.contains(submission.tid)
                    &&& slash.tid == submission.tid
                    &&& slash.worker == submission.worker
                    &&& slash.slash_perc == slash_percent(ticket, submission.result, env.time)
                    &&& response.messages.len() == 1
                },
            Err(_) => true,
        },
{
}

} // verus!
