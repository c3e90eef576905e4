use ticket_auction::admin_board::{ExecuteMsg as AdminExecuteMsg, SlashMsg};
use ticket_auction::error::TAError;
use ticket_auction::host::{
    Attribute, Coin, CosmosMsg, Env, ExecutePayload, MessageInfo, QueryAnswer, Response, WasmMsg,
};
use ticket_auction::ticket_manager::contract::{
    add_ticket, assess, assess_submission, checked_address, execute, execute_post_config,
    instantiate, migrate, query, query_ticket, query_ticket_worker, query_ticket_worker_pairs,
    query_tickets, remove_ticket, save_ticket_worker, update_ticket, FULL_SLASH, LATE_SLASH,
    MISMATCH_SLASH,
};
use ticket_auction::ticket_manager::state::{
    is_assessed, read_all_assigned_tickets, read_assessed_tickets, read_config,
    read_ticket_for_id, read_tickets, read_worker_for_ticket, store_assessed_tickets,
    store_config, store_tickets, store_tw_pair, Config, Store,
};
use ticket_auction::ticket_manager::{
    AddTicketMsg, ExecuteMsg, InstantiateMsg, MigrateMsg, PostConfigMsg, QueryMsg, TWPairsReponse,
    Ticket, TicketInfoResponse, TicketResultMsg, TicketWorkerPair, TicketsResponse,
    UpdateTicketMsg,
};

fn info(sender: &str) -> MessageInfo {
    MessageInfo { sender: sender.to_string(), funds: vec![] }
}

fn paying(sender: &str, amount: u128) -> MessageInfo {
    MessageInfo {
        sender: sender.to_string(),
        funds: vec![Coin { denom: "uluna".to_string(), amount }],
    }
}

fn env(time: u64) -> Env {
    Env { time, contract: "ticket_manager".to_string() }
}

fn attr(key: &str, value: &str) -> Attribute {
    Attribute { key: key.to_string(), value: value.to_string() }
}

fn fresh() -> Store {
    let msg = InstantiateMsg {
        auction_manager: Some("auction_manager".to_string()),
        user_board: Some("user_board".to_string()),
    };
    instantiate(env(0), info("admin_board"), msg).unwrap().0
}

fn new_ticket(id: u64) -> AddTicketMsg {
    AddTicketMsg {
        id,
        bet_finish_timestamp: 100,
        close_timestamp: 200,
        result: "X".to_string(),
        collateral: 1000,
    }
}

fn ticket(id: u64) -> Ticket {
    Ticket {
        id,
        bet_finish_timestamp: 100,
        close_timestamp: 200,
        result: "X".to_string(),
        collateral: 1000,
    }
}

fn with_ticket_and_worker() -> Store {
    let mut store = fresh();
    add_ticket(&mut store, info("admin_board"), new_ticket(1)).unwrap();
    let pair = TicketWorkerPair { tid: 1, worker: "W".to_string() };
    save_ticket_worker(&mut store, info("auction_manager"), pair).unwrap();
    store
}

fn submission(result: &str) -> TicketResultMsg {
    TicketResultMsg { tid: 1, worker: "W".to_string(), result: result.to_string() }
}

fn slash_request(response: &Response) -> SlashMsg {
    assert_eq!(response.messages.len(), 1);
    match &response.messages[0] {
        CosmosMsg::Wasm(WasmMsg::Execute { contract_addr, msg, funds }) => {
            assert_eq!(contract_addr, "admin_board");
            assert!(funds.is_empty());
            match msg {
                ExecutePayload::AdminBoard(AdminExecuteMsg::ReleaseStakeWithSlash(slash)) => {
                    slash.clone()
                }
                other => panic!("unexpected payload {:?}", other),
            }
        }
        other => panic!("unexpected message {:?}", other),
    }
}

#[test]
fn ticket_manager_instantiate_sets_sender_as_admin() {
    let msg = InstantiateMsg { auction_manager: None, user_board: Some("ub".to_string()) };
    let (store, response) = instantiate(env(5), info("creator"), msg).unwrap();
    assert_eq!(
        read_config(&store),
        Config {
            admin_board: "creator".to_string(),
            auction_manager: None,
            user_board: Some("ub".to_string()),
        }
    );
    assert!(read_tickets(&store).is_empty());
    assert!(read_all_assigned_tickets(&store).is_empty());
    assert!(response.messages.is_empty());
    assert_eq!(
        response.attributes,
        vec![
            attr("method", "instantiate"),
            attr("contract", "ticket_manager"),
            attr("admin", "creator"),
        ]
    );
}

#[test]
fn ticket_manager_instantiate_rejects_funds() {
    let msg = InstantiateMsg { auction_manager: None, user_board: None };
    let result = instantiate(env(0), paying("creator", 1), msg);
    assert_eq!(result.unwrap_err(), TAError::UnnecessaryFunds);
}

#[test]
fn add_ticket_appends_in_order() {
    let mut store = fresh();
    let response = add_ticket(&mut store, info("admin_board"), new_ticket(7)).unwrap();
    assert!(response.messages.is_empty());
    assert_eq!(
        response.attributes,
        vec![attr("method", "store_ticket"), attr("result", "success")]
    );
    add_ticket(&mut store, info("admin_board"), new_ticket(3)).unwrap();
    assert_eq!(read_tickets(&store), vec![ticket(7), ticket(3)]);
}

#[test]
fn add_ticket_by_stranger_is_not_authorized() {
    let mut store = fresh();
    let result = add_ticket(&mut store, info("stranger"), new_ticket(1));
    assert_eq!(result.unwrap_err(), TAError::NotAuthorized);
    assert!(read_tickets(&store).is_empty());
}

#[test]
fn add_ticket_with_funds_is_rejected() {
    let mut store = fresh();
    let result = add_ticket(&mut store, paying("admin_board", 5), new_ticket(1));
    assert_eq!(result.unwrap_err(), TAError::UnnecessaryFunds);
    assert!(read_tickets(&store).is_empty());
}

#[test]
fn add_ticket_by_stranger_with_funds_is_not_authorized() {
    let mut store = fresh();
    let result = add_ticket(&mut store, paying("stranger", 5), new_ticket(1));
    assert_eq!(result.unwrap_err(), TAError::NotAuthorized);
}

#[test]
fn add_ticket_with_a_listed_number_is_refused() {
    let mut store = fresh();
    add_ticket(&mut store, info("admin_board"), new_ticket(1)).unwrap();
    add_ticket(&mut store, info("admin_board"), new_ticket(2)).unwrap();
    let mut other = new_ticket(1);
    other.collateral = 5;
    let result = add_ticket(&mut store, info("admin_board"), other);
    assert_eq!(result.unwrap_err(), TAError::AlreadyExists);
    assert_eq!(read_tickets(&store), vec![ticket(1), ticket(2)]);
    assert_eq!(read_ticket_for_id(&store, 1).unwrap().collateral, 1000);
}

#[test]
fn add_ticket_after_removal_takes_the_number_again() {
    let mut store = fresh();
    add_ticket(&mut store, info("admin_board"), new_ticket(1)).unwrap();
    remove_ticket(&mut store, info("admin_board"), 1).unwrap();
    let mut other = new_ticket(1);
    other.collateral = 5;
    add_ticket(&mut store, info("admin_board"), other).unwrap();
    assert_eq!(read_tickets(&store).len(), 1);
    assert_eq!(read_ticket_for_id(&store, 1).unwrap().collateral, 5);
}

#[test]
fn add_ticket_with_bet_deadline_after_close_deadline_is_refused() {
    let mut store = fresh();
    let mut late = new_ticket(1);
    late.bet_finish_timestamp = 201;
    let result = add_ticket(&mut store, info("admin_board"), late);
    assert_eq!(result.unwrap_err(), TAError::InvalidDeadline);
    assert!(read_tickets(&store).is_empty());
}

#[test]
fn add_ticket_with_equal_deadlines_is_taken() {
    let mut store = fresh();
    let mut even = new_ticket(1);
    even.bet_finish_timestamp = 200;
    add_ticket(&mut store, info("admin_board"), even).unwrap();
    assert_eq!(read_ticket_for_id(&store, 1).unwrap().bet_finish_timestamp, 200);
}

#[test]
fn add_ticket_names_the_listed_number_before_the_deadlines() {
    let mut store = fresh();
    add_ticket(&mut store, info("admin_board"), new_ticket(1)).unwrap();
    let mut late = new_ticket(1);
    late.bet_finish_timestamp = 500;
    let result = add_ticket(&mut store, info("admin_board"), late);
    assert_eq!(result.unwrap_err(), TAError::AlreadyExists);
}

#[test]
fn update_ticket_that_puts_the_deadlines_out_of_order_is_refused() {
    let mut store = fresh();
    add_ticket(&mut store, info("admin_board"), new_ticket(1)).unwrap();
    let later_bets = UpdateTicketMsg {
        id: 1,
        bet_finish_timestamp: Some(201),
        close_timestamp: None,
        result: None,
        collateral: Some(7),
    };
    let result = update_ticket(&mut store, info("admin_board"), later_bets);
    assert_eq!(result.unwrap_err(), TAError::InvalidDeadline);
    let earlier_close = UpdateTicketMsg {
        id: 1,
        bet_finish_timestamp: None,
        close_timestamp: Some(99),
        result: None,
        collateral: None,
    };
    let result = update_ticket(&mut store, info("admin_board"), earlier_close);
    assert_eq!(result.unwrap_err(), TAError::InvalidDeadline);
    assert_eq!(read_tickets(&store), vec![ticket(1)]);
    let both = UpdateTicketMsg {
        id: 1,
        bet_finish_timestamp: Some(300),
        close_timestamp: Some(300),
        result: None,
        collateral: None,
    };
    update_ticket(&mut store, info("admin_board"), both).unwrap();
    assert_eq!(read_ticket_for_id(&store, 1).unwrap().close_timestamp, 300);
}

#[test]
fn ticket_numbers_stay_distinct() {
    let mut store = fresh();
    let numbers = [3u64, 1, 3, 2, 1, 5, 2];
    for number in numbers {
        let _ = add_ticket(&mut store, info("admin_board"), new_ticket(number));
    }
    let update = UpdateTicketMsg {
        id: 3,
        bet_finish_timestamp: None,
        close_timestamp: Some(400),
        result: None,
        collateral: None,
    };
    update_ticket(&mut store, info("admin_board"), update).unwrap();
    remove_ticket(&mut store, info("admin_board"), 1).unwrap();
    let _ = add_ticket(&mut store, info("admin_board"), new_ticket(5));
    let listed: Vec<u64> = read_tickets(&store).iter().map(|ticket| ticket.id).collect();
    assert_eq!(listed, vec![3, 2, 5]);
}

#[test]
fn update_ticket_changes_only_given_fields() {
    let mut store = fresh();
    add_ticket(&mut store, info("admin_board"), new_ticket(1)).unwrap();
    add_ticket(&mut store, info("admin_board"), new_ticket(2)).unwrap();
    let msg = UpdateTicketMsg {
        id: 1,
        bet_finish_timestamp: None,
        close_timestamp: Some(300),
        result: None,
        collateral: Some(50),
    };
    let response = update_ticket(&mut store, info("admin_board"), msg).unwrap();
    assert_eq!(response.attributes, vec![attr("method", "update_ticket")]);
    let expected = Ticket {
        id: 1,
        bet_finish_timestamp: 100,
        close_timestamp: 300,
        result: "X".to_string(),
        collateral: 50,
    };
    assert_eq!(read_tickets(&store), vec![expected, ticket(2)]);
}

#[test]
fn update_ticket_replaces_every_field() {
    let mut store = fresh();
    add_ticket(&mut store, info("admin_board"), new_ticket(1)).unwrap();
    let msg = UpdateTicketMsg {
        id: 1,
        bet_finish_timestamp: Some(1),
        close_timestamp: Some(2),
        result: Some("Y".to_string()),
        collateral: Some(3),
    };
    update_ticket(&mut store, info("admin_board"), msg).unwrap();
    let expected = Ticket {
        id: 1,
        bet_finish_timestamp: 1,
        close_timestamp: 2,
        result: "Y".to_string(),
        collateral: 3,
    };
    assert_eq!(read_tickets(&store), vec![expected]);
}

#[test]
fn update_ticket_without_fields_changes_nothing() {
    let mut store = fresh();
    add_ticket(&mut store, info("admin_board"), new_ticket(1)).unwrap();
    let msg = UpdateTicketMsg {
        id: 1,
        bet_finish_timestamp: None,
        close_timestamp: None,
        result: None,
        collateral: None,
    };
    update_ticket(&mut store, info("admin_board"), msg).unwrap();
    assert_eq!(read_tickets(&store), vec![ticket(1)]);
}

#[test]
fn update_ticket_missing_is_not_found() {
    let mut store = fresh();
    add_ticket(&mut store, info("admin_board"), new_ticket(1)).unwrap();
    let msg = UpdateTicketMsg {
        id: 9,
        bet_finish_timestamp: Some(1),
        close_timestamp: None,
        result: None,
        collateral: None,
    };
    let result = update_ticket(&mut store, info("admin_board"), msg);
    assert_eq!(result.unwrap_err(), TAError::NotFound);
    assert_eq!(read_tickets(&store), vec![ticket(1)]);
}

#[test]
fn update_ticket_by_stranger_is_not_authorized() {
    let mut store = fresh();
    add_ticket(&mut store, info("admin_board"), new_ticket(1)).unwrap();
    let msg = UpdateTicketMsg {
        id: 1,
        bet_finish_timestamp: Some(1),
        close_timestamp: None,
        result: None,
        collateral: None,
    };
    let result = update_ticket(&mut store, info("user_board"), msg);
    assert_eq!(result.unwrap_err(), TAError::NotAuthorized);
    assert_eq!(read_tickets(&store), vec![ticket(1)]);
}

#[test]
fn remove_ticket_drops_the_ticket_and_keeps_the_rest() {
    let mut store = fresh();
    add_ticket(&mut store, info("admin_board"), new_ticket(1)).unwrap();
    add_ticket(&mut store, info("admin_board"), new_ticket(2)).unwrap();
    add_ticket(&mut store, info("admin_board"), new_ticket(3)).unwrap();
    let response = remove_ticket(&mut store, info("admin_board"), 2).unwrap();
    assert_eq!(response.attributes, vec![attr("method", "remove_ticket")]);
    assert_eq!(read_tickets(&store), vec![ticket(1), ticket(3)]);
}

#[test]
fn remove_ticket_that_is_absent_changes_nothing() {
    let mut store = fresh();
    add_ticket(&mut store, info("admin_board"), new_ticket(1)).unwrap();
    remove_ticket(&mut store, info("admin_board"), 5).unwrap();
    assert_eq!(read_tickets(&store), vec![ticket(1)]);
}

#[test]
fn remove_ticket_keeps_the_assignment() {
    let mut store = with_ticket_and_worker();
    remove_ticket(&mut store, info("admin_board"), 1).unwrap();
    assert!(read_tickets(&store).is_empty());
    assert_eq!(read_worker_for_ticket(&store, 1).unwrap(), "W");
}

#[test]
fn remove_ticket_by_stranger_is_not_authorized() {
    let mut store = fresh();
    add_ticket(&mut store, info("admin_board"), new_ticket(1)).unwrap();
    let result = remove_ticket(&mut store, info("auction_manager"), 1);
    assert_eq!(result.unwrap_err(), TAError::NotAuthorized);
    assert_eq!(read_tickets(&store), vec![ticket(1)]);
}

#[test]
fn save_ticket_worker_records_and_overwrites() {
    let mut store = with_ticket_and_worker();
    assert_eq!(query_ticket_worker(&store, 1).unwrap(), "W");
    let pair = TicketWorkerPair { tid: 1, worker: "V".to_string() };
    let response = save_ticket_worker(&mut store, info("auction_manager"), pair).unwrap();
    assert_eq!(response.attributes, vec![attr("method", "save ticket-worker pair")]);
    assert_eq!(query_ticket_worker(&store, 1).unwrap(), "V");
    assert_eq!(read_all_assigned_tickets(&store), vec![1]);
}

#[test]
fn save_ticket_worker_by_other_caller_is_not_authorized() {
    let mut store = fresh();
    add_ticket(&mut store, info("admin_board"), new_ticket(1)).unwrap();
    let pair = TicketWorkerPair { tid: 1, worker: "W".to_string() };
    let result = save_ticket_worker(&mut store, info("admin_board"), pair);
    assert_eq!(result.unwrap_err(), TAError::NotAuthorized);
    assert_eq!(query_ticket_worker(&store, 1).unwrap_err(), TAError::NotFound);
}

#[test]
fn save_ticket_worker_for_missing_ticket_is_not_found() {
    let mut store = fresh();
    let pair = TicketWorkerPair { tid: 1, worker: "W".to_string() };
    let result = save_ticket_worker(&mut store, info("auction_manager"), pair);
    assert_eq!(result.unwrap_err(), TAError::NotFound);
}

#[test]
fn save_ticket_worker_without_auction_manager_is_not_initialized() {
    let msg = InstantiateMsg { auction_manager: None, user_board: None };
    let mut store = instantiate(env(0), info("admin_board"), msg).unwrap().0;
    add_ticket(&mut store, info("admin_board"), new_ticket(1)).unwrap();
    let pair = TicketWorkerPair { tid: 1, worker: "W".to_string() };
    let result = save_ticket_worker(&mut store, info("auction_manager"), pair);
    assert_eq!(result.unwrap_err(), TAError::NotInitialized);
}

#[test]
fn slash_constants() {
    assert_eq!(MISMATCH_SLASH, 500);
    assert_eq!(LATE_SLASH, 300);
    assert_eq!(FULL_SLASH, 1000);
}

#[test]
fn assess_right_and_on_time_withholds_nothing() {
    assert_eq!(assess(&ticket(1), &"X".to_string(), 150), 0);
    assert_eq!(assess(&ticket(1), &"X".to_string(), 0), 0);
}

#[test]
fn assess_at_the_close_deadline_is_on_time() {
    assert_eq!(assess(&ticket(1), &"X".to_string(), 200), 0);
    assert_eq!(assess(&ticket(1), &"X".to_string(), 201), 300);
}

#[test]
fn assess_wrong_on_time_withholds_half() {
    assert_eq!(assess(&ticket(1), &"Y".to_string(), 150), 500);
    assert_eq!(assess(&ticket(1), &"".to_string(), 200), 500);
    assert_eq!(assess(&ticket(1), &"x".to_string(), 200), 500);
}

#[test]
fn assess_right_but_late_withholds_three_tenths() {
    assert_eq!(assess(&ticket(1), &"X".to_string(), 250), 300);
    assert_eq!(assess(&ticket(1), &"X".to_string(), u64::MAX), 300);
}

#[test]
fn assess_wrong_and_late_withholds_eight_tenths() {
    assert_eq!(assess(&ticket(1), &"Y".to_string(), 250), 800);
}

#[test]
fn assess_never_shrinks_with_lateness_or_mismatch() {
    let times = [0u64, 199, 200, 201, 1000];
    for (i, earlier) in times.iter().enumerate() {
        for later in &times[i..] {
            for result in ["X", "Y"] {
                let result = result.to_string();
                let sooner = assess(&ticket(1), &result, *earlier);
                assert!(sooner <= assess(&ticket(1), &result, *later));
            }
        }
        let right = assess(&ticket(1), &"X".to_string(), *earlier);
        let wrong = assess(&ticket(1), &"Y".to_string(), *earlier);
        assert!(right <= wrong);
        assert!(wrong <= 1000);
    }
}

#[test]
fn assess_submission_asks_admin_board_to_settle() {
    let mut store = with_ticket_and_worker();
    let response =
        assess_submission(&mut store, env(150), info("user_board"), submission("X"), true).unwrap();
    assert_eq!(response.attributes, vec![attr("method", "assess submission")]);
    let slash = slash_request(&response);
    assert_eq!(slash, SlashMsg { tid: 1, worker: "W".to_string(), slash_perc: 0 });
}

#[test]
fn assess_submission_wrong_and_late() {
    let mut store = with_ticket_and_worker();
    let response =
        assess_submission(&mut store, env(250), info("user_board"), submission("Y"), true).unwrap();
    assert_eq!(slash_request(&response).slash_perc, 800);
}

#[test]
fn assess_submission_wrong_on_time() {
    let mut store = with_ticket_and_worker();
    let response =
        assess_submission(&mut store, env(200), info("user_board"), submission("Y"), true).unwrap();
    assert_eq!(slash_request(&response).slash_perc, 500);
}

#[test]
fn assess_submission_right_but_late() {
    let mut store = with_ticket_and_worker();
    let response =
        assess_submission(&mut store, env(201), info("user_board"), submission("X"), true).unwrap();
    assert_eq!(slash_request(&response).slash_perc, 300);
}

#[test]
fn assess_submission_records_the_ticket_as_assessed() {
    let mut store = with_ticket_and_worker();
    assert!(!is_assessed(&store, 1));
    assert!(read_assessed_tickets(&store).is_empty());
    assess_submission(&mut store, env(250), info("user_board"), submission("Y"), true).unwrap();
    assert!(is_assessed(&store, 1));
    assert!(!is_assessed(&store, 2));
    assert_eq!(read_assessed_tickets(&store), vec![1]);
    assert_eq!(read_tickets(&store), vec![ticket(1)]);
    assert_eq!(read_worker_for_ticket(&store, 1).unwrap(), "W");
}

#[test]
fn second_submission_is_refused() {
    let mut store = with_ticket_and_worker();
    assess_submission(&mut store, env(250), info("user_board"), submission("Y"), true).unwrap();
    for result in ["X", "Y"] {
        let again =
            assess_submission(&mut store, env(150), info("user_board"), submission(result), true);
        assert_eq!(again.unwrap_err(), TAError::AlreadyAssessed);
    }
    let again = assess_submission(&mut store, env(150), info("user_board"), submission("X"), false);
    assert_eq!(again.unwrap_err(), TAError::AlreadyAssessed);
    assert_eq!(read_assessed_tickets(&store), vec![1]);
}

#[test]
fn refused_submission_does_not_count_as_assessed() {
    let mut store = with_ticket_and_worker();
    let refused =
        assess_submission(&mut store, env(150), info("user_board"), submission("X"), false);
    assert_eq!(refused.unwrap_err(), TAError::InvalidAddress);
    let other = TicketResultMsg { tid: 1, worker: "V".to_string(), result: "X".to_string() };
    let refused = assess_submission(&mut store, env(150), info("user_board"), other, true);
    assert_eq!(refused.unwrap_err(), TAError::NotAuthorized);
    assert!(!is_assessed(&store, 1));
    let response =
        assess_submission(&mut store, env(150), info("user_board"), submission("X"), true).unwrap();
    assert_eq!(slash_request(&response).slash_perc, 0);
}

#[test]
fn assessment_of_one_ticket_leaves_the_others_open() {
    let mut store = with_ticket_and_worker();
    add_ticket(&mut store, info("admin_board"), new_ticket(2)).unwrap();
    let pair = TicketWorkerPair { tid: 2, worker: "V".to_string() };
    save_ticket_worker(&mut store, info("auction_manager"), pair).unwrap();
    assess_submission(&mut store, env(150), info("user_board"), submission("X"), true).unwrap();
    let other = TicketResultMsg { tid: 2, worker: "V".to_string(), result: "Y".to_string() };
    let response =
        assess_submission(&mut store, env(150), info("user_board"), other, true).unwrap();
    assert_eq!(slash_request(&response).slash_perc, 500);
    assert_eq!(read_assessed_tickets(&store), vec![1, 2]);
}

#[test]
fn assess_submission_with_funds_is_rejected() {
    let mut store = with_ticket_and_worker();
    let result =
        assess_submission(&mut store, env(150), paying("user_board", 1), submission("X"), true);
    assert_eq!(result.unwrap_err(), TAError::UnnecessaryFunds);
}

#[test]
fn assess_submission_for_unassigned_ticket_is_not_found() {
    let mut store = fresh();
    add_ticket(&mut store, info("admin_board"), new_ticket(1)).unwrap();
    let result = assess_submission(&mut store, env(150), info("user_board"), submission("X"), true);
    assert_eq!(result.unwrap_err(), TAError::NotFound);
}

#[test]
fn assess_submission_by_other_worker_is_not_authorized() {
    let mut store = with_ticket_and_worker();
    let msg = TicketResultMsg { tid: 1, worker: "V".to_string(), result: "X".to_string() };
    let result = assess_submission(&mut store, env(150), info("user_board"), msg, true);
    assert_eq!(result.unwrap_err(), TAError::NotAuthorized);
}

#[test]
fn assess_submission_for_removed_ticket_is_not_found() {
    let mut store = with_ticket_and_worker();
    remove_ticket(&mut store, info("admin_board"), 1).unwrap();
    let result = assess_submission(&mut store, env(150), info("user_board"), submission("X"), true);
    assert_eq!(result.unwrap_err(), TAError::NotFound);
}

#[test]
fn assess_submission_with_invalid_worker_address() {
    let mut store = with_ticket_and_worker();
    let result =
        assess_submission(&mut store, env(150), info("user_board"), submission("X"), false);
    assert_eq!(result.unwrap_err(), TAError::InvalidAddress);
}

#[test]
fn ticket_manager_post_config_replaces_both_peers() {
    let mut store = fresh();
    let msg = PostConfigMsg { auction_manager: Some("am2".to_string()), user_board: None };
    let response = execute_post_config(&mut store, info("admin_board"), msg).unwrap();
    assert_eq!(response.attributes, vec![attr("method", "PostConfig")]);
    assert_eq!(
        read_config(&store),
        Config {
            admin_board: "admin_board".to_string(),
            auction_manager: Some("am2".to_string()),
            user_board: None,
        }
    );
}

#[test]
fn ticket_manager_post_config_by_stranger_is_not_authorized() {
    let mut store = fresh();
    let msg = PostConfigMsg { auction_manager: Some("evil".to_string()), user_board: None };
    let result = execute_post_config(&mut store, info("stranger"), msg);
    assert_eq!(result.unwrap_err(), TAError::NotAuthorized);
    assert_eq!(read_config(&store).auction_manager, Some("auction_manager".to_string()));
}

#[test]
fn ticket_manager_post_config_with_funds_is_rejected() {
    let mut store = fresh();
    let msg = PostConfigMsg { auction_manager: None, user_board: None };
    let result = execute_post_config(&mut store, paying("stranger", 3), msg);
    assert_eq!(result.unwrap_err(), TAError::UnnecessaryFunds);
}

#[test]
fn ticket_manager_execute_runs_each_handler() {
    let mut store = fresh();
    execute(&mut store, env(0), info("admin_board"), ExecuteMsg::AddTicket(new_ticket(1)), true)
        .unwrap();
    let update = UpdateTicketMsg {
        id: 1,
        bet_finish_timestamp: None,
        close_timestamp: None,
        result: None,
        collateral: Some(10),
    };
    execute(&mut store, env(0), info("admin_board"), ExecuteMsg::UpdateTicket(update), true)
        .unwrap();
    assert_eq!(read_ticket_for_id(&store, 1).unwrap().collateral, 10);
    let pair = TicketWorkerPair { tid: 1, worker: "W".to_string() };
    execute(&mut store, env(0), info("auction_manager"), ExecuteMsg::SaveTicketWorker(pair), true)
        .unwrap();
    let response = execute(
        &mut store,
        env(500),
        info("user_board"),
        ExecuteMsg::AssessSubmission(submission("X")),
        true,
    )
    .unwrap();
    assert_eq!(slash_request(&response).slash_perc, 300);
    let config = PostConfigMsg { auction_manager: None, user_board: None };
    execute(&mut store, env(0), info("admin_board"), ExecuteMsg::PostConfig(config), true).unwrap();
    assert_eq!(read_config(&store).auction_manager, None);
    execute(&mut store, env(0), info("admin_board"), ExecuteMsg::RemoveTicket { tid: 1 }, true)
        .unwrap();
    assert!(read_tickets(&store).is_empty());
}

#[test]
fn ticket_manager_execute_passes_errors_on() {
    let mut store = fresh();
    let result =
        execute(&mut store, env(0), info("stranger"), ExecuteMsg::RemoveTicket { tid: 1 }, true);
    assert_eq!(result.unwrap_err(), TAError::NotAuthorized);
    let result = execute(
        &mut store,
        env(0),
        info("user_board"),
        ExecuteMsg::AssessSubmission(submission("X")),
        false,
    );
    assert_eq!(result.unwrap_err(), TAError::NotFound);
}

#[test]
fn ticket_manager_checked_address_is_the_submitting_worker() {
    assert_eq!(
        checked_address(&ExecuteMsg::AssessSubmission(submission("X"))),
        Some("W".to_string())
    );
    assert_eq!(checked_address(&ExecuteMsg::RemoveTicket { tid: 1 }), None);
    assert_eq!(checked_address(&ExecuteMsg::AddTicket(new_ticket(1))), None);
}

#[test]
fn query_ticket_gives_the_first_ticket_with_the_number() {
    let mut store = fresh();
    add_ticket(&mut store, info("admin_board"), new_ticket(1)).unwrap();
    let found = query_ticket(&store, 1).unwrap();
    assert_eq!(
        found,
        TicketInfoResponse {
            id: 1,
            bet_finish_timestamp: 100,
            close_timestamp: 200,
            result: "X".to_string(),
            collateral: 1000,
        }
    );
    assert_eq!(query_ticket(&store, 2).unwrap_err(), TAError::NotFound);
}

#[test]
fn query_tickets_lists_all() {
    let mut store = fresh();
    assert!(query_tickets(&store).is_empty());
    add_ticket(&mut store, info("admin_board"), new_ticket(2)).unwrap();
    add_ticket(&mut store, info("admin_board"), new_ticket(1)).unwrap();
    assert_eq!(query_tickets(&store), vec![ticket(2), ticket(1)]);
}

#[test]
fn query_pairs_lists_by_ascending_ticket() {
    let mut store = fresh();
    for id in [5u64, 1, 3] {
        add_ticket(&mut store, info("admin_board"), new_ticket(id)).unwrap();
    }
    for (tid, worker) in [(5u64, "e"), (1, "a"), (3, "c")] {
        let pair = TicketWorkerPair { tid, worker: worker.to_string() };
        save_ticket_worker(&mut store, info("auction_manager"), pair).unwrap();
    }
    let pairs = query_ticket_worker_pairs(&store);
    assert_eq!(
        pairs,
        TWPairsReponse {
            pairs: vec![
                TicketWorkerPair { tid: 1, worker: "a".to_string() },
                TicketWorkerPair { tid: 3, worker: "c".to_string() },
                TicketWorkerPair { tid: 5, worker: "e".to_string() },
            ],
        }
    );
}

#[test]
fn query_pairs_of_fresh_manager_is_empty() {
    let store = fresh();
    assert!(query_ticket_worker_pairs(&store).pairs.is_empty());
}

#[test]
fn ticket_manager_query_answers_each_question() {
    let store = with_ticket_and_worker();
    assert_eq!(
        query(&store, QueryMsg::QueryTickets {}).unwrap(),
        QueryAnswer::Tickets(TicketsResponse { tickets: vec![ticket(1)] })
    );
    match query(&store, QueryMsg::QueryTicketInfo { tid: 1 }).unwrap() {
        QueryAnswer::TicketInfo(found) => assert_eq!(found.collateral, 1000),
        other => panic!("unexpected answer {:?}", other),
    }
    assert_eq!(
        query(&store, QueryMsg::QueryTicketWorker { tid: 1 }).unwrap(),
        QueryAnswer::Worker("W".to_string())
    );
    assert_eq!(
        query(&store, QueryMsg::QueryTicketWorkerPairs {}).unwrap(),
        QueryAnswer::Pairs(TWPairsReponse {
            pairs: vec![TicketWorkerPair { tid: 1, worker: "W".to_string() }],
        })
    );
}

#[test]
fn ticket_manager_query_without_answer_is_not_found() {
    let store = fresh();
    assert_eq!(query(&store, QueryMsg::QueryTicketInfo { tid: 1 }).unwrap_err(), TAError::NotFound);
    assert_eq!(
        query(&store, QueryMsg::QueryTicketWorker { tid: 1 }).unwrap_err(),
        TAError::NotFound
    );
}

#[test]
fn ticket_manager_migrate_answers_with_an_empty_response() {
    let response = migrate(MigrateMsg {}).unwrap();
    assert_eq!(response, Response { messages: vec![], attributes: vec![] });
}

#[test]
fn ticket_manager_state_round_trip() {
    let mut store = fresh();
    store_tickets(&mut store, vec![ticket(4), ticket(2)]);
    assert_eq!(read_tickets(&store), vec![ticket(4), ticket(2)]);
    assert_eq!(read_ticket_for_id(&store, 2).unwrap(), ticket(2));
    assert_eq!(read_ticket_for_id(&store, 3).unwrap_err(), TAError::NotFound);
    store_tw_pair(&mut store, TicketWorkerPair { tid: 9, worker: "n".to_string() });
    store_tw_pair(&mut store, TicketWorkerPair { tid: 2, worker: "b".to_string() });
    store_tw_pair(&mut store, TicketWorkerPair { tid: 9, worker: "m".to_string() });
    assert_eq!(read_all_assigned_tickets(&store), vec![2, 9]);
    assert_eq!(read_worker_for_ticket(&store, 9).unwrap(), "m");
    assert_eq!(read_worker_for_ticket(&store, 2).unwrap(), "b");
    assert_eq!(read_worker_for_ticket(&store, 1).unwrap_err(), TAError::NotFound);
    let config = Config { admin_board: "a".to_string(), auction_manager: None, user_board: None };
    store_config(&mut store, config.clone());
    assert_eq!(read_config(&store), config);
    assert_eq!(read_tickets(&store).len(), 2);
    store_assessed_tickets(&mut store, vec![4, 2]);
    assert_eq!(read_assessed_tickets(&store), vec![4, 2]);
    assert!(is_assessed(&store, 2));
    assert!(!is_assessed(&store, 9));
}
