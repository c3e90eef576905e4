use ticket_auction::auction_manager::contract::{
    checked_address, decide_winning_bet, execute, instantiate, migrate, peer_query, place_bet,
    query, query_bet_avail_tickets, query_curr_active_bets, ticket_exists, winning_bet,
};
use ticket_auction::auction_manager::state::{
    read_bets_ticket, read_config, read_curr_avail_tickets, remove_bets_ticket, save_bets_ticket,
    save_config, BetDetail, Config, Store,
};
use ticket_auction::auction_manager::{
    ExecuteMsg, InstantiateMsg, MigrateMsg, PlaceBetMsg, QueryMsg,
};
use ticket_auction::error::TAError;
use ticket_auction::host::{
    Attribute, Coin, CosmosMsg, Env, ExecutePayload, MessageInfo, QueryAnswer, QueryPayload,
    Response, WasmMsg, WasmQuery,
};
use ticket_auction::ticket_manager::{
    ExecuteMsg as TicketExecuteMsg, QueryMsg as TicketQueryMsg, Ticket, TicketInfoResponse,
    TicketWorkerPair, TicketsResponse,
};

fn info(sender: &str) -> MessageInfo {
    MessageInfo { sender: sender.to_string(), funds: vec![] }
}

fn paying(sender: &str, amount: u128) -> MessageInfo {
    MessageInfo {
        sender: sender.to_string(),
        funds: vec![Coin { denom: "uluna".to_string(), amount }],
    }
}

fn env(time: u64) -> Env {
    Env { time, contract: "auction_manager".to_string() }
}

fn attr(key: &str, value: &str) -> Attribute {
    Attribute { key: key.to_string(), value: value.to_string() }
}

fn fresh() -> Store {
    let msg = InstantiateMsg {
        ticket_manager: "ticket_manager".to_string(),
        user_board: "user_board".to_string(),
    };
    instantiate(env(0), info("admin_board"), msg).unwrap().0
}

fn tickets(ids: &[u64]) -> TicketsResponse {
    TicketsResponse {
        tickets: ids
            .iter()
            .map(|id| Ticket {
                id: *id,
                bet_finish_timestamp: 100,
                close_timestamp: 200,
                result: "X".to_string(),
                collateral: 1000,
            })
            .collect(),
    }
}

fn ticket_info(tid: u64) -> TicketInfoResponse {
    TicketInfoResponse {
        id: tid,
        bet_finish_timestamp: 100,
        close_timestamp: 200,
        result: "X".to_string(),
        collateral: 1000,
    }
}

fn bet(tid: u64, worker: &str, amount: u64) -> PlaceBetMsg {
    PlaceBetMsg { ticket_id: tid, workder: worker.to_string(), bet_amount: amount }
}

fn detail(worker: &str, amount: u64) -> BetDetail {
    BetDetail { worker: worker.to_string(), bet_amt: amount }
}

fn with_bets(bets: &[(&str, u64)]) -> Store {
    let mut store = fresh();
    for (worker, amount) in bets {
        place_bet(&mut store, info("user_board"), bet(1, worker, *amount), &tickets(&[1]), true)
            .unwrap();
    }
    store
}

fn winner(response: &Response) -> TicketWorkerPair {
    assert_eq!(response.messages.len(), 1);
    match &response.messages[0] {
        CosmosMsg::Wasm(WasmMsg::Execute { contract_addr, msg, funds }) => {
            assert_eq!(contract_addr, "ticket_manager");
            assert!(funds.is_empty());
            match msg {
                ExecutePayload::TicketManager(TicketExecuteMsg::SaveTicketWorker(pair)) => {
                    pair.clone()
                }
                other => panic!("unexpected payload {:?}", other),
            }
        }
        other => panic!("unexpected message {:?}", other),
    }
}

#[test]
fn auction_instantiate_sets_sender_as_admin() {
    let msg = InstantiateMsg { ticket_manager: "tm".to_string(), user_board: "ub".to_string() };
    let (store, response) = instantiate(env(0), info("creator"), msg).unwrap();
    assert_eq!(
        read_config(&store),
        Config {
            admin_board: "creator".to_string(),
            ticket_manager: "tm".to_string(),
            user_board: "ub".to_string(),
        }
    );
    assert!(read_curr_avail_tickets(&store).is_empty());
    assert!(response.messages.is_empty());
    assert_eq!(response.attributes, vec![attr("method", "instantiate"), attr("admin", "creator")]);
}

#[test]
fn place_bet_appends_in_order_of_arrival() {
    let store = with_bets(&[("A", 50), ("B", 30), ("C", 30)]);
    assert_eq!(
        read_bets_ticket(&store, 1).unwrap(),
        vec![detail("A", 50), detail("B", 30), detail("C", 30)]
    );
    assert_eq!(read_curr_avail_tickets(&store), vec![1]);
}

#[test]
fn place_bet_reports_its_method() {
    let mut store = fresh();
    let response =
        place_bet(&mut store, info("user_board"), bet(1, "A", 5), &tickets(&[1]), true).unwrap();
    assert!(response.messages.is_empty());
    assert_eq!(response.attributes, vec![attr("method", "place_bet")]);
}

#[test]
fn place_bet_with_funds_is_rejected() {
    let mut store = fresh();
    let result = place_bet(
        &mut store,
        paying("user_board", 1),
        bet(1, "A", 5),
        &tickets(&[1]),
        true,
    );
    assert_eq!(result.unwrap_err(), TAError::UnnecessaryFunds);
    assert!(read_curr_avail_tickets(&store).is_empty());
}

#[test]
fn place_bet_by_other_caller_is_not_authorized() {
    let mut store = fresh();
    let result = place_bet(&mut store, info("A"), bet(1, "A", 5), &tickets(&[1]), true);
    assert_eq!(result.unwrap_err(), TAError::NotAuthorized);
    assert_eq!(read_bets_ticket(&store, 1).unwrap_err(), TAError::NotFound);
}

#[test]
fn place_bet_for_missing_ticket_is_not_found() {
    let mut store = fresh();
    let result = place_bet(&mut store, info("user_board"), bet(2, "A", 5), &tickets(&[1, 3]), true);
    assert_eq!(result.unwrap_err(), TAError::NotFound);
    let result = place_bet(&mut store, info("user_board"), bet(2, "A", 5), &tickets(&[]), true);
    assert_eq!(result.unwrap_err(), TAError::NotFound);
}

#[test]
fn place_bet_with_invalid_bidder_address() {
    let mut store = fresh();
    let result = place_bet(&mut store, info("user_board"), bet(1, "", 5), &tickets(&[1]), false);
    assert_eq!(result.unwrap_err(), TAError::InvalidAddress);
    assert!(read_curr_avail_tickets(&store).is_empty());
}

#[test]
fn place_bet_keeps_tickets_apart() {
    let mut store = fresh();
    let known = tickets(&[1, 2]);
    place_bet(&mut store, info("user_board"), bet(2, "A", 5), &known, true).unwrap();
    place_bet(&mut store, info("user_board"), bet(1, "B", 6), &known, true).unwrap();
    place_bet(&mut store, info("user_board"), bet(2, "C", 7), &known, true).unwrap();
    assert_eq!(read_bets_ticket(&store, 1).unwrap(), vec![detail("B", 6)]);
    assert_eq!(read_bets_ticket(&store, 2).unwrap(), vec![detail("A", 5), detail("C", 7)]);
    assert_eq!(read_curr_avail_tickets(&store), vec![1, 2]);
}

#[test]
fn ticket_exists_looks_at_the_numbers() {
    assert!(ticket_exists(&tickets(&[4, 5]), 5));
    assert!(!ticket_exists(&tickets(&[4, 5]), 6));
    assert!(!ticket_exists(&tickets(&[]), 0));
}

#[test]
fn winning_bet_is_the_first_lowest() {
    let bets = vec![detail("A", 50), detail("B", 30), detail("C", 30)];
    assert_eq!(winning_bet(&bets), Some(1));
}

#[test]
fn winning_bet_of_one_bet() {
    assert_eq!(winning_bet(&vec![detail("A", 50)]), Some(0));
}

#[test]
fn winning_bet_of_no_bet() {
    assert_eq!(winning_bet(&vec![]), None);
}

#[test]
fn winning_bet_of_equal_bets_is_the_oldest() {
    let bets = vec![detail("A", 7), detail("B", 7), detail("C", 7)];
    assert_eq!(winning_bet(&bets), Some(0));
}

#[test]
fn winning_bet_at_the_end() {
    let bets = vec![detail("A", 7), detail("B", 6), detail("C", 5)];
    assert_eq!(winning_bet(&bets), Some(2));
    let bets = vec![detail("A", u64::MAX), detail("B", 0)];
    assert_eq!(winning_bet(&bets), Some(1));
}

#[test]
fn decide_winner_picks_first_minimal_bid() {
    let mut store = with_bets(&[("A", 50), ("B", 30), ("C", 30)]);
    let response =
        decide_winning_bet(&mut store, env(100), info("admin_board"), 1, Some(ticket_info(1)))
            .unwrap();
    assert_eq!(winner(&response), TicketWorkerPair { tid: 1, worker: "B".to_string() });
    assert_eq!(response.attributes, vec![attr("method", "win_bet")]);
}

#[test]
fn decide_winner_clears_the_bets() {
    let mut store = with_bets(&[("A", 50), ("B", 30)]);
    decide_winning_bet(&mut store, env(150), info("admin_board"), 1, Some(ticket_info(1))).unwrap();
    assert_eq!(read_bets_ticket(&store, 1).unwrap_err(), TAError::NotFound);
    assert!(read_curr_avail_tickets(&store).is_empty());
    let again =
        decide_winning_bet(&mut store, env(150), info("admin_board"), 1, Some(ticket_info(1)));
    assert_eq!(again.unwrap_err(), TAError::NotFound);
}

#[test]
fn decide_winner_before_the_deadline_is_too_early() {
    let mut store = with_bets(&[("A", 50)]);
    let result =
        decide_winning_bet(&mut store, env(99), info("admin_board"), 1, Some(ticket_info(1)));
    assert_eq!(result.unwrap_err(), TAError::BetNotFinished);
    assert_eq!(read_bets_ticket(&store, 1).unwrap(), vec![detail("A", 50)]);
}

#[test]
fn decide_winner_at_the_deadline_is_in_time() {
    let mut store = with_bets(&[("A", 50)]);
    let response =
        decide_winning_bet(&mut store, env(100), info("admin_board"), 1, Some(ticket_info(1)))
            .unwrap();
    assert_eq!(winner(&response).worker, "A");
}

#[test]
fn decide_winner_by_other_caller_is_not_authorized() {
    let mut store = with_bets(&[("A", 50)]);
    let result =
        decide_winning_bet(&mut store, env(100), info("user_board"), 1, Some(ticket_info(1)));
    assert_eq!(result.unwrap_err(), TAError::NotAuthorized);
}

#[test]
fn decide_winner_with_funds_is_rejected() {
    let mut store = with_bets(&[("A", 50)]);
    let result =
        decide_winning_bet(&mut store, env(100), paying("admin_board", 1), 1, Some(ticket_info(1)));
    assert_eq!(result.unwrap_err(), TAError::UnnecessaryFunds);
    let result =
        decide_winning_bet(&mut store, env(100), paying("stranger", 1), 1, Some(ticket_info(1)));
    assert_eq!(result.unwrap_err(), TAError::NotAuthorized);
}

#[test]
fn decide_winner_without_ticket_is_not_found() {
    let mut store = with_bets(&[("A", 50)]);
    let result = decide_winning_bet(&mut store, env(100), info("admin_board"), 1, None);
    assert_eq!(result.unwrap_err(), TAError::NotFound);
    assert_eq!(read_bets_ticket(&store, 1).unwrap(), vec![detail("A", 50)]);
}

#[test]
fn decide_winner_without_bets_is_not_found() {
    let mut store = fresh();
    let result =
        decide_winning_bet(&mut store, env(100), info("admin_board"), 1, Some(ticket_info(1)));
    assert_eq!(result.unwrap_err(), TAError::NotFound);
    save_bets_ticket(&mut store, 1, vec![]);
    let result =
        decide_winning_bet(&mut store, env(100), info("admin_board"), 1, Some(ticket_info(1)));
    assert_eq!(result.unwrap_err(), TAError::NotFound);
}

#[test]
fn decide_winner_leaves_other_tickets() {
    let mut store = fresh();
    let known = tickets(&[1, 2]);
    place_bet(&mut store, info("user_board"), bet(1, "A", 5), &known, true).unwrap();
    place_bet(&mut store, info("user_board"), bet(2, "B", 6), &known, true).unwrap();
    decide_winning_bet(&mut store, env(100), info("admin_board"), 1, Some(ticket_info(1))).unwrap();
    assert_eq!(read_curr_avail_tickets(&store), vec![2]);
    assert_eq!(read_bets_ticket(&store, 2).unwrap(), vec![detail("B", 6)]);
}

#[test]
fn auction_peer_query_asks_the_ticket_manager() {
    let store = fresh();
    let msg = ExecuteMsg::PlaceBet(bet(1, "A", 5));
    assert_eq!(
        peer_query(&store, &info("user_board"), &msg).unwrap(),
        Some(WasmQuery {
            contract_addr: "ticket_manager".to_string(),
            msg: QueryPayload::TicketManager(TicketQueryMsg::QueryTickets {}),
        })
    );
    let msg = ExecuteMsg::DecideWinningBet { tid: 4 };
    assert_eq!(
        peer_query(&store, &info("admin_board"), &msg).unwrap(),
        Some(WasmQuery {
            contract_addr: "ticket_manager".to_string(),
            msg: QueryPayload::TicketManager(TicketQueryMsg::QueryTicketInfo { tid: 4 }),
        })
    );
}

#[test]
fn auction_peer_query_checks_before_asking() {
    let store = fresh();
    let msg = ExecuteMsg::PlaceBet(bet(1, "A", 5));
    assert_eq!(peer_query(&store, &info("A"), &msg).unwrap_err(), TAError::NotAuthorized);
    assert_eq!(
        peer_query(&store, &paying("user_board", 1), &msg).unwrap_err(),
        TAError::UnnecessaryFunds
    );
    let msg = ExecuteMsg::DecideWinningBet { tid: 4 };
    assert_eq!(peer_query(&store, &info("A"), &msg).unwrap_err(), TAError::NotAuthorized);
    assert_eq!(
        peer_query(&store, &paying("admin_board", 1), &msg).unwrap_err(),
        TAError::UnnecessaryFunds
    );
}

#[test]
fn auction_execute_runs_each_handler() {
    let mut store = fresh();
    let answer = QueryAnswer::Tickets(tickets(&[1]));
    let msg = ExecuteMsg::PlaceBet(bet(1, "A", 50));
    execute(&mut store, env(10), info("user_board"), msg, true, answer.clone()).unwrap();
    let msg = ExecuteMsg::PlaceBet(bet(1, "B", 30));
    execute(&mut store, env(20), info("user_board"), msg, true, answer).unwrap();
    let answer = QueryAnswer::TicketInfo(ticket_info(1));
    let msg = ExecuteMsg::DecideWinningBet { tid: 1 };
    let response = execute(&mut store, env(100), info("admin_board"), msg, true, answer).unwrap();
    assert_eq!(winner(&response).worker, "B");
}

#[test]
fn auction_execute_without_the_answer_is_not_found() {
    let mut store = with_bets(&[("A", 50)]);
    let msg = ExecuteMsg::PlaceBet(bet(1, "B", 30));
    let result = execute(&mut store, env(10), info("user_board"), msg, true, QueryAnswer::Missing);
    assert_eq!(result.unwrap_err(), TAError::NotFound);
    let msg = ExecuteMsg::DecideWinningBet { tid: 1 };
    let answer = QueryAnswer::Tickets(tickets(&[1]));
    let result = execute(&mut store, env(100), info("admin_board"), msg, true, answer);
    assert_eq!(result.unwrap_err(), TAError::NotFound);
}

#[test]
fn auction_checked_address_is_the_bidder() {
    assert_eq!(checked_address(&ExecuteMsg::PlaceBet(bet(1, "A", 5))), Some("A".to_string()));
    assert_eq!(checked_address(&ExecuteMsg::DecideWinningBet { tid: 1 }), None);
}

#[test]
fn auction_queries() {
    let mut store = with_bets(&[("A", 50), ("B", 30)]);
    save_bets_ticket(&mut store, 0, vec![detail("Z", 1)]);
    assert_eq!(query_bet_avail_tickets(&store), vec![0, 1]);
    assert_eq!(query_curr_active_bets(&store, 1).unwrap(), vec![detail("A", 50), detail("B", 30)]);
    assert_eq!(query_curr_active_bets(&store, 2).unwrap_err(), TAError::NotFound);
    assert_eq!(
        query(&store, QueryMsg::BetAvailableTickets).unwrap(),
        QueryAnswer::TicketIds(vec![0, 1])
    );
    assert_eq!(
        query(&store, QueryMsg::CurrActiveBets { tid: 0 }).unwrap(),
        QueryAnswer::Bets(vec![detail("Z", 1)])
    );
    assert_eq!(query(&store, QueryMsg::CurrActiveBets { tid: 7 }).unwrap_err(), TAError::NotFound);
}

#[test]
fn auction_state_round_trip() {
    let mut store = fresh();
    save_bets_ticket(&mut store, 8, vec![detail("A", 1)]);
    save_bets_ticket(&mut store, 3, vec![detail("B", 2)]);
    save_bets_ticket(&mut store, 8, vec![detail("C", 3)]);
    assert_eq!(read_curr_avail_tickets(&store), vec![3, 8]);
    assert_eq!(read_bets_ticket(&store, 8).unwrap(), vec![detail("C", 3)]);
    remove_bets_ticket(&mut store, 3);
    remove_bets_ticket(&mut store, 4);
    assert_eq!(read_curr_avail_tickets(&store), vec![8]);
    let config = Config {
        admin_board: "a".to_string(),
        ticket_manager: "t".to_string(),
        user_board: "u".to_string(),
    };
    save_config(&mut store, config.clone());
    assert_eq!(read_config(&store), config);
    assert_eq!(read_curr_avail_tickets(&store), vec![8]);
}

#[test]
fn auction_migrate_answers_with_an_empty_response() {
    let response = migrate(MigrateMsg {}).unwrap();
    assert_eq!(response, Response { messages: vec![], attributes: vec![] });
}
