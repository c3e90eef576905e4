use ticket_auction::admin_board::contract as admin_board;
use ticket_auction::admin_board::state::Store as AdminBoard;
use ticket_auction::admin_board::{
    ExecuteMsg as AdminExecuteMsg, InstantiateMsg as AdminInstantiateMsg,
    PostConfigMsg as AdminPostConfigMsg,
};
use ticket_auction::auction_manager::contract as auction_manager;
use ticket_auction::auction_manager::state::{BetDetail, Store as AuctionManager};
use ticket_auction::auction_manager::InstantiateMsg as AuctionInstantiateMsg;
use ticket_auction::collateral_manager::contract as collateral_manager;
use ticket_auction::collateral_manager::state::Store as CollateralManager;
use ticket_auction::collateral_manager::{
    InstantiateMsg as CollateralInstantiateMsg, QueryStakeStatusMsg,
};
use ticket_auction::error::TAError;
use ticket_auction::host::{
    BankMsg, Coin, CosmosMsg, Env, ExecutePayload, MessageInfo, QueryAnswer, QueryPayload,
    QueryStep, Response, WasmMsg, WasmQuery,
};
use ticket_auction::ticket_manager::contract as ticket_manager;
use ticket_auction::ticket_manager::state::Store as TicketManager;
use ticket_auction::ticket_manager::{
    AddTicketMsg, InstantiateMsg as TicketInstantiateMsg, TicketResultMsg,
};
use ticket_auction::user_board::contract as user_board;
use ticket_auction::user_board::state::Store as UserBoard;
use ticket_auction::user_board::{
    ExecuteMsg as UserExecuteMsg, InstantiateMsg as UserBoardInstantiateMsg, PlaceBetMsg,
};

const ADMIN_BOARD: &str = "admin_board";
const TICKET_MANAGER: &str = "ticket_manager";
const AUCTION_MANAGER: &str = "auction_manager";
const COLLATERAL_MANAGER: &str = "collateral_manager";
const USER_BOARD: &str = "user_board";

struct World {
    time: u64,
    admin_board: AdminBoard,
    ticket_manager: TicketManager,
    auction_manager: AuctionManager,
    collateral_manager: CollateralManager,
    user_board: UserBoard,
    transfers: Vec<(String, Vec<Coin>)>,
}

fn info(sender: &str, funds: Vec<Coin>) -> MessageInfo {
    MessageInfo { sender: sender.to_string(), funds }
}

fn uluna(amount: u128) -> Vec<Coin> {
    vec![Coin { denom: "uluna".to_string(), amount }]
}

impl World {
    fn new() -> World {
        let some = |name: &str| Some(name.to_string());
        let env = |name: &str| Env { time: 0, contract: name.to_string() };
        let (mut admin, _) =
            admin_board::instantiate(
                env(ADMIN_BOARD),
                info("admin", vec![]),
                AdminInstantiateMsg {},
            )
                .unwrap();
        let peers = AdminPostConfigMsg {
            ticket_manager: some(TICKET_MANAGER),
            collateral_manager: some(COLLATERAL_MANAGER),
            auction_manager: some(AUCTION_MANAGER),
            user_board: some(USER_BOARD),
        };
        admin_board::execute_post_config(&mut admin, info("admin", vec![]), peers).unwrap();
        let (tickets, _) = ticket_manager::instantiate(
            env(TICKET_MANAGER),
            info(ADMIN_BOARD, vec![]),
            TicketInstantiateMsg {
                auction_manager: some(AUCTION_MANAGER),
                user_board: some(USER_BOARD),
            },
        )
        .unwrap();
        let (auction, _) = auction_manager::instantiate(
            env(AUCTION_MANAGER),
            info(ADMIN_BOARD, vec![]),
            AuctionInstantiateMsg {
                ticket_manager: TICKET_MANAGER.to_string(),
                user_board: USER_BOARD.to_string(),
            },
        )
        .unwrap();
        let (collateral, _) = collateral_manager::instantiate(
            env(COLLATERAL_MANAGER),
            info(ADMIN_BOARD, vec![]),
            CollateralInstantiateMsg {
                user_board: USER_BOARD.to_string(),
                ticket_manager: TICKET_MANAGER.to_string(),
            },
        )
        .unwrap();
        let (users, _) = user_board::instantiate(
            env(USER_BOARD),
            info(ADMIN_BOARD, vec![]),
            UserBoardInstantiateMsg {
                ticket_manager: some(TICKET_MANAGER),
                collateral_manater: some(COLLATERAL_MANAGER),
                auction_manager: some(AUCTION_MANAGER),
            },
        )
        .unwrap();
        World {
            time: 0,
            admin_board: admin,
            ticket_manager: tickets,
            auction_manager: auction,
            collateral_manager: collateral,
            user_board: users,
            transfers: vec![],
        }
    }

    fn env(&self, contract: &str) -> Env {
        Env { time: self.time, contract: contract.to_string() }
    }

    fn ask(&self, query: Option<WasmQuery>) -> QueryAnswer {
        let query = match query {
            Some(query) => query,
            None => return QueryAnswer::Missing,
        };
        match query.msg {
            QueryPayload::TicketManager(msg) => {
                assert_eq!(query.contract_addr, TICKET_MANAGER);
                ticket_manager::query(&self.ticket_manager, msg).unwrap_or(QueryAnswer::Missing)
            }
            QueryPayload::AuctionManager(msg) => {
                assert_eq!(query.contract_addr, AUCTION_MANAGER);
                auction_manager::query(&self.auction_manager, msg).unwrap_or(QueryAnswer::Missing)
            }
            QueryPayload::CollateralManager(msg) => {
                assert_eq!(query.contract_addr, COLLATERAL_MANAGER);
                match collateral_manager::query(&self.collateral_manager, msg).unwrap() {
                    QueryStep::Answer(answer) => answer,
                    QueryStep::Ask(next) => self.ask(Some(next)),
                }
            }
        }
    }

    fn call(
        &mut self,
        target: &str,
        info: MessageInfo,
        msg: ExecutePayload,
    ) -> Result<(), TAError> {
        let response = match msg {
            ExecutePayload::AdminBoard(msg) => {
                assert_eq!(target, ADMIN_BOARD);
                let answer = self.ask(admin_board::peer_query(&self.admin_board, &info, &msg)?);
                let env = self.env(ADMIN_BOARD);
                admin_board::execute(&mut self.admin_board, env, info, msg, answer)?
            }
            ExecutePayload::TicketManager(msg) => {
                assert_eq!(target, TICKET_MANAGER);
                let env = self.env(TICKET_MANAGER);
                ticket_manager::execute(&mut self.ticket_manager, env, info, msg, true)?
            }
            ExecutePayload::AuctionManager(msg) => {
                assert_eq!(target, AUCTION_MANAGER);
                let query = auction_manager::peer_query(&self.auction_manager, &info, &msg)?;
                let answer = self.ask(query);
                let env = self.env(AUCTION_MANAGER);
                auction_manager::execute(&mut self.auction_manager, env, info, msg, true, answer)?
            }
            ExecutePayload::CollateralManager(msg) => {
                assert_eq!(target, COLLATERAL_MANAGER);
                let query = collateral_manager::peer_query(&self.collateral_manager, &info, &msg)?;
                let answer = self.ask(query);
                let env = self.env(COLLATERAL_MANAGER);
                collateral_manager::execute(&mut self.collateral_manager, env, info, msg, answer)?
            }
        };
        self.deliver(target, response)
    }

    fn deliver(&mut self, sender: &str, response: Response) -> Result<(), TAError> {
        for message in response.messages {
            match message {
                CosmosMsg::Wasm(WasmMsg::Execute { contract_addr, msg, funds }) => {
                    self.call(&contract_addr, info(sender, funds), msg)?;
                }
                CosmosMsg::Wasm(WasmMsg::Instantiate { .. }) => {
                    panic!("no service is created here")
                }
                CosmosMsg::Bank(BankMsg::Send { to_address, amount }) => {
                    self.transfers.push((to_address, amount));
                }
            }
        }
        Ok(())
    }

    fn admin(&mut self, msg: AdminExecuteMsg) -> Result<(), TAError> {
        self.call(ADMIN_BOARD, info("admin", vec![]), ExecutePayload::AdminBoard(msg))
    }

    fn user(&mut self, worker: &str, funds: Vec<Coin>, msg: UserExecuteMsg) -> Result<(), TAError> {
        let info = info(worker, funds);
        let answer = self.ask(user_board::peer_query(&self.user_board, &info, &msg)?);
        let env = self.env(USER_BOARD);
        let response = user_board::execute(&mut self.user_board, env, info, msg, true, answer)?;
        self.deliver(USER_BOARD, response)
    }

    fn staked(&self, tid: u64, worker: &str) -> bool {
        let msg = QueryStakeStatusMsg { tid, worker: worker.to_string() };
        collateral_manager::query_stake_status(&self.collateral_manager, &msg)
    }
}

fn the_ticket() -> AddTicketMsg {
    AddTicketMsg {
        id: 1,
        bet_finish_timestamp: 100,
        close_timestamp: 200,
        result: "X".to_string(),
        collateral: 1000,
    }
}

fn submit(worker: &str, result: &str) -> UserExecuteMsg {
    UserExecuteMsg::SubmitResult(TicketResultMsg {
        tid: 1,
        worker: worker.to_string(),
        result: result.to_string(),
    })
}

fn assigned_world() -> World {
    let mut world = World::new();
    world.admin(AdminExecuteMsg::AddTicket(the_ticket())).unwrap();
    world.user("W", uluna(1000), UserExecuteMsg::LockStake { tid: 1 }).unwrap();
    world.time = 50;
    let bet = UserExecuteMsg::PlaceBet(PlaceBetMsg { ticket_id: 1, bet_amount: 400 });
    world.user("W", vec![], bet).unwrap();
    world.time = 100;
    world.admin(AdminExecuteMsg::DecideWinningBet { tid: 1 }).unwrap();
    world
}

#[test]
fn scenario_correct_result_on_time_releases_all() {
    let mut world = World::new();
    world.admin(AdminExecuteMsg::AddTicket(the_ticket())).unwrap();
    assert_eq!(ticket_manager::query_ticket(&world.ticket_manager, 1).unwrap().collateral, 1000);

    world.user("W", uluna(1000), UserExecuteMsg::LockStake { tid: 1 }).unwrap();
    assert!(world.staked(1, "W"));

    world.time = 50;
    let bet = UserExecuteMsg::PlaceBet(PlaceBetMsg { ticket_id: 1, bet_amount: 400 });
    world.user("W", vec![], bet).unwrap();
    assert_eq!(
        auction_manager::query_curr_active_bets(&world.auction_manager, 1).unwrap(),
        vec![BetDetail { worker: "W".to_string(), bet_amt: 400 }]
    );

    world.time = 100;
    world.admin(AdminExecuteMsg::DecideWinningBet { tid: 1 }).unwrap();
    assert_eq!(ticket_manager::query_ticket_worker(&world.ticket_manager, 1).unwrap(), "W");
    assert!(auction_manager::query_bet_avail_tickets(&world.auction_manager).is_empty());

    world.time = 150;
    world.user("W", vec![], submit("W", "X")).unwrap();
    assert_eq!(world.transfers, vec![("W".to_string(), uluna(1000))]);
    assert!(!world.staked(1, "W"));
}

#[test]
fn scenario_wrong_result_late_releases_a_fifth() {
    let mut world = assigned_world();
    world.time = 250;
    world.user("W", vec![], submit("W", "Y")).unwrap();
    assert_eq!(world.transfers, vec![("W".to_string(), uluna(200))]);
    assert!(!world.staked(1, "W"));
}

#[test]
fn scenario_wrong_result_on_time_releases_half() {
    let mut world = assigned_world();
    world.time = 200;
    world.user("W", vec![], submit("W", "Y")).unwrap();
    assert_eq!(world.transfers, vec![("W".to_string(), uluna(500))]);
}

#[test]
fn scenario_right_result_late_releases_seven_tenths() {
    let mut world = assigned_world();
    world.time = 201;
    world.user("W", vec![], submit("W", "X")).unwrap();
    assert_eq!(world.transfers, vec![("W".to_string(), uluna(700))]);
}

#[test]
fn scenario_bet_without_stake_is_refused() {
    let mut world = World::new();
    world.admin(AdminExecuteMsg::AddTicket(the_ticket())).unwrap();
    let bet = UserExecuteMsg::PlaceBet(PlaceBetMsg { ticket_id: 1, bet_amount: 400 });
    assert_eq!(world.user("W", vec![], bet.clone()).unwrap_err(), TAError::NotStaked);
    world.user("V", uluna(1000), UserExecuteMsg::LockStake { tid: 1 }).unwrap();
    assert_eq!(world.user("W", vec![], bet.clone()).unwrap_err(), TAError::NotStaked);
    world.user("V", vec![], bet).unwrap();
}

#[test]
fn scenario_stake_of_wrong_amount_is_refused() {
    let mut world = World::new();
    world.admin(AdminExecuteMsg::AddTicket(the_ticket())).unwrap();
    let lock = UserExecuteMsg::LockStake { tid: 1 };
    assert_eq!(world.user("W", uluna(999), lock.clone()).unwrap_err(), TAError::UnnecessaryFunds);
    assert_eq!(world.user("W", uluna(1001), lock.clone()).unwrap_err(), TAError::UnnecessaryFunds);
    assert_eq!(world.user("W", vec![], lock.clone()).unwrap_err(), TAError::InsufficientFunds);
    assert!(!world.staked(1, "W"));
    world.user("W", uluna(1000), lock).unwrap();
    assert!(world.staked(1, "W"));
}

#[test]
fn scenario_stake_for_unknown_ticket_is_refused() {
    let mut world = World::new();
    let lock = UserExecuteMsg::LockStake { tid: 1 };
    assert_eq!(world.user("W", uluna(1000), lock).unwrap_err(), TAError::NotFound);
}

#[test]
fn scenario_winner_is_not_decided_before_the_deadline() {
    let mut world = World::new();
    world.admin(AdminExecuteMsg::AddTicket(the_ticket())).unwrap();
    world.user("W", uluna(1000), UserExecuteMsg::LockStake { tid: 1 }).unwrap();
    let bet = UserExecuteMsg::PlaceBet(PlaceBetMsg { ticket_id: 1, bet_amount: 400 });
    world.user("W", vec![], bet).unwrap();
    world.time = 99;
    assert_eq!(
        world.admin(AdminExecuteMsg::DecideWinningBet { tid: 1 }).unwrap_err(),
        TAError::BetNotFinished
    );
    assert_eq!(
        ticket_manager::query_ticket_worker(&world.ticket_manager, 1).unwrap_err(),
        TAError::NotFound
    );
}

#[test]
fn scenario_lowest_bidder_is_assigned() {
    let mut world = World::new();
    world.admin(AdminExecuteMsg::AddTicket(the_ticket())).unwrap();
    for (worker, amount) in [("A", 50u64), ("B", 30), ("C", 30)] {
        world.user(worker, uluna(1000), UserExecuteMsg::LockStake { tid: 1 }).unwrap();
        let bet = UserExecuteMsg::PlaceBet(PlaceBetMsg { ticket_id: 1, bet_amount: amount });
        world.user(worker, vec![], bet).unwrap();
    }
    world.time = 100;
    world.admin(AdminExecuteMsg::DecideWinningBet { tid: 1 }).unwrap();
    assert_eq!(ticket_manager::query_ticket_worker(&world.ticket_manager, 1).unwrap(), "B");
    world.time = 150;
    assert_eq!(world.user("A", vec![], submit("A", "X")).unwrap_err(), TAError::NotAuthorized);
    assert_eq!(world.user("A", vec![], submit("B", "X")).unwrap_err(), TAError::NotAuthorized);
    assert!(world.transfers.is_empty());
    world.user("B", vec![], submit("C", "X")).unwrap();
    assert_eq!(world.transfers, vec![("B".to_string(), uluna(1000))]);
    assert!(world.staked(1, "A"));
    assert!(!world.staked(1, "B"));
}

#[test]
fn scenario_second_submission_is_refused_and_pays_nothing() {
    let mut world = assigned_world();
    world.time = 250;
    world.user("W", vec![], submit("W", "Y")).unwrap();
    assert_eq!(world.transfers, vec![("W".to_string(), uluna(200))]);
    world.time = 260;
    assert_eq!(world.user("W", vec![], submit("W", "X")).unwrap_err(), TAError::AlreadyAssessed);
    assert_eq!(world.user("W", vec![], submit("W", "Y")).unwrap_err(), TAError::AlreadyAssessed);
    assert_eq!(world.transfers, vec![("W".to_string(), uluna(200))]);
}

#[test]
fn scenario_ticket_with_a_listed_number_is_refused() {
    let mut world = World::new();
    world.admin(AdminExecuteMsg::AddTicket(the_ticket())).unwrap();
    let mut other = the_ticket();
    other.collateral = 1;
    assert_eq!(
        world.admin(AdminExecuteMsg::AddTicket(other)).unwrap_err(),
        TAError::AlreadyExists
    );
    assert_eq!(ticket_manager::query_tickets(&world.ticket_manager).len(), 1);
    assert_eq!(ticket_manager::query_ticket(&world.ticket_manager, 1).unwrap().collateral, 1000);
}

#[test]
fn scenario_submission_before_assignment_is_refused() {
    let mut world = World::new();
    world.admin(AdminExecuteMsg::AddTicket(the_ticket())).unwrap();
    assert_eq!(world.user("W", vec![], submit("W", "X")).unwrap_err(), TAError::NotFound);
}

#[test]
fn scenario_stranger_cannot_act_as_admin_or_settle() {
    let mut world = assigned_world();
    let add = ExecutePayload::AdminBoard(AdminExecuteMsg::AddTicket(the_ticket()));
    assert_eq!(
        world.call(ADMIN_BOARD, info("W", vec![]), add).unwrap_err(),
        TAError::NotAuthorized
    );
    let slash = ticket_auction::admin_board::SlashMsg {
        tid: 1,
        worker: "W".to_string(),
        slash_perc: 0,
    };
    let relay = ExecutePayload::AdminBoard(AdminExecuteMsg::ReleaseStakeWithSlash(slash));
    assert_eq!(
        world.call(ADMIN_BOARD, info("W", vec![]), relay).unwrap_err(),
        TAError::NotAuthorized
    );
    assert!(world.transfers.is_empty());
    assert!(world.staked(1, "W"));
}

#[test]
fn scenario_collateral_is_the_current_one() {
    let mut world = assigned_world();
    let update = ticket_auction::ticket_manager::UpdateTicketMsg {
        id: 1,
        bet_finish_timestamp: None,
        close_timestamp: None,
        result: None,
        collateral: Some(600),
    };
    world.admin(AdminExecuteMsg::UpdateTicket(update)).unwrap();
    world.time = 250;
    world.user("W", vec![], submit("W", "Y")).unwrap();
    assert_eq!(world.transfers, vec![("W".to_string(), uluna(120))]);
}
