//! What surrounds a call: the caller and the attached funds, the time, the
//! messages a handler hands back for delivery, and the answers of peers.

use vstd::prelude::*;
use crate::admin_board::{ExecuteMsg as AdminExecuteMsg, ExecuteMsgView as AdminExecuteMsgView};
use crate::auction_manager::state::{BetDetail, BetDetailView};
use crate::auction_manager::{
    ExecuteMsg as AuctionExecuteMsg, ExecuteMsgView as AuctionExecuteMsgView,
    InstantiateMsg as AuctionInstantiateMsg, InstantiateMsgView as AuctionInstantiateMsgView,
    QueryMsg as AuctionQueryMsg,
};
use crate::collateral_manager::{
    ExecuteMsg as CollateralExecuteMsg, ExecuteMsgView as CollateralExecuteMsgView,
    InstantiateMsg as CollateralInstantiateMsg, InstantiateMsgView as CollateralInstantiateMsgView,
    QueryMsg as CollateralQueryMsg, QueryMsgView as CollateralQueryMsgView,
};
use crate::error::TAError;
use crate::ticket_manager::{
    ExecuteMsg as TicketExecuteMsg, ExecuteMsgView as TicketExecuteMsgView,
    InstantiateMsg as TicketInstantiateMsg, InstantiateMsgView as TicketInstantiateMsgView,
    QueryMsg as TicketQueryMsg, TWPairsReponse, TWPairsReponseView, TicketInfoResponse, TicketView,
    TicketsResponse, TicketsResponseView,
};
use crate::user_board::{
    InstantiateMsg as UserBoardInstantiateMsg, InstantiateMsgView as UserBoardInstantiateMsgView,
};

verus! {

/// An amount of one denomination.
#[derive(Debug, PartialEq, Eq)]
pub struct Coin {
    /// The denomination.
    pub denom: String,
    /// How much of it.
    pub amount: u128,
}

/// The content of [`Coin`] as mathematical values.
pub struct CoinView {
    pub denom: Seq<char>,
    pub amount: u128,
}

impl DeepView for Coin {
    type V = CoinView;

    open spec fn deep_view(&self) -> CoinView {
        CoinView {
            denom: self.denom.deep_view(),
            amount: self.amount.deep_view(),
        }
    }
}

impl Clone for Coin {
    fn clone(&self) -> (copy: Self)
        ensures
            copy == *self,
    {
        Coin {
            denom: self.denom.clone(),
            amount: self.amount,
        }
    }
}

/// Who makes a call and what they attach to it. The host has established the sender.
#[derive(Debug, PartialEq, Eq)]
pub struct MessageInfo {
    /// The account that makes the call.
    pub sender: String,
    /// The funds attached to the call.
    pub funds: Vec<Coin>,
}

/// The content of [`MessageInfo`] as mathematical values.
pub struct MessageInfoView {
    pub sender: Seq<char>,
    pub funds: Seq<CoinView>,
}

impl DeepView for MessageInfo {
    type V = MessageInfoView;

    open spec fn deep_view(&self) -> MessageInfoView {
        MessageInfoView {
            sender: self.sender.deep_view(),
            funds: self.funds.deep_view(),
        }
    }
}

impl Clone for MessageInfo {
    fn clone(&self) -> (copy: Self)
        ensures
            copy.deep_view() == self.deep_view(),
    {
        let copy = MessageInfo { sender: self.sender.clone(), funds: self.funds.clone() };
        assert(copy.funds@ =~= self.funds@);
        copy
    }
}

/// When and where a call runs.
#[derive(Debug, PartialEq, Eq)]
pub struct Env {
    /// The time of the call, in seconds.
    pub time: u64,
    /// The address of the service that runs the call.
    pub contract: String,
}

/// The content of [`Env`] as mathematical values.
pub struct EnvView {
    pub time: u64,
    pub contract: Seq<char>,
}

impl DeepView for Env {
    type V = EnvView;

    open spec fn deep_view(&self) -> EnvView {
        EnvView {
            time: self.time.deep_view(),
            contract: self.contract.deep_view(),
        }
    }
}

impl Clone for Env {
    fn clone(&self) -> (copy: Self)
        ensures
            copy == *self,
    {
        Env {
            time: self.time,
            contract: self.contract.clone(),
        }
    }
}

/// A key and a value that a handler reports with its answer.
#[derive(Debug, PartialEq, Eq)]
pub struct Attribute {
    /// The key.
    pub key: String,
    /// The value.
    pub value: String,
}

/// The content of [`Attribute`] as mathematical values.
pub struct AttributeView {
    pub key: Seq<char>,
    pub value: Seq<char>,
}

impl DeepView for Attribute {
    type V = AttributeView;

    open spec fn deep_view(&self) -> AttributeView {
        AttributeView {
            key: self.key.deep_view(),
            value: self.value.deep_view(),
        }
    }
}

impl Clone for Attribute {
    fn clone(&self) -> (copy: Self)
        ensures
            copy == *self,
    {
        Attribute {
            key: self.key.clone(),
            value: self.value.clone(),
        }
    }
}

/// A call for one of the services, by the service it is meant for.
#[derive(Debug, PartialEq, Eq)]
pub enum ExecutePayload {
    /// A call for the ticket manager.
    TicketManager(TicketExecuteMsg),
    /// A call for the auction manager.
    AuctionManager(AuctionExecuteMsg),
    /// A call for the collateral manager.
    CollateralManager(CollateralExecuteMsg),
    /// A call for the admin board.
    AdminBoard(AdminExecuteMsg),
}

/// The content of [`ExecutePayload`] as mathematical values.
pub enum ExecutePayloadView {
    TicketManager(TicketExecuteMsgView),
    AuctionManager(AuctionExecuteMsgView),
    CollateralManager(CollateralExecuteMsgView),
    AdminBoard(AdminExecuteMsgView),
}

impl DeepView for ExecutePayload {
    type V = ExecutePayloadView;

    open spec fn deep_view(&self) -> ExecutePayloadView {
        match self {
            ExecutePayload::TicketManager(m) => ExecutePayloadView::TicketManager(m.deep_view()),
            ExecutePayload::AuctionManager(m) => ExecutePayloadView::AuctionManager(m.deep_view()),
            ExecutePayload::CollateralManager(m) => {
                ExecutePayloadView::CollateralManager(m.deep_view())
            },
            ExecutePayload::AdminBoard(m) => ExecutePayloadView::AdminBoard(m.deep_view()),
        }
    }
}

impl Clone for ExecutePayload {
    fn clone(&self) -> (copy: Self)
        ensures
            copy == *self,
    {
        match self {
            ExecutePayload::TicketManager(m) => ExecutePayload::TicketManager(m.clone()),
            ExecutePayload::AuctionManager(m) => ExecutePayload::AuctionManager(m.clone()),
            ExecutePayload::CollateralManager(m) => ExecutePayload::CollateralManager(m.clone()),
            ExecutePayload::AdminBoard(m) => ExecutePayload::AdminBoard(m.clone()),
        }
    }
}

/// The message that creates one of the services.
#[derive(Debug, PartialEq, Eq)]
pub enum InstantiatePayload {
    /// Creates a ticket manager.
    TicketManager(TicketInstantiateMsg),
    /// Creates a user board.
    UserBoard(UserBoardInstantiateMsg),
    /// Creates an auction manager.
    AuctionManager(AuctionInstantiateMsg),
    /// Creates a collateral manager.
    CollateralManager(CollateralInstantiateMsg),
}

/// The content of [`InstantiatePayload`] as mathematical values.
pub enum InstantiatePayloadView {
    TicketManager(TicketInstantiateMsgView),
    UserBoard(UserBoardInstantiateMsgView),
    AuctionManager(AuctionInstantiateMsgView),
    CollateralManager(CollateralInstantiateMsgView),
}

impl DeepView for InstantiatePayload {
    type V = InstantiatePayloadView;

    open spec fn deep_view(&self) -> InstantiatePayloadView {
        match self {
            InstantiatePayload::TicketManager(m) => {
                InstantiatePayloadView::TicketManager(m.deep_view())
            },
            InstantiatePayload::UserBoard(m) => InstantiatePayloadView::UserBoard(m.deep_view()),
            InstantiatePayload::AuctionManager(m) => {
                InstantiatePayloadView::AuctionManager(m.deep_view())
            },
            InstantiatePayload::CollateralManager(m) => {
                InstantiatePayloadView::CollateralManager(m.deep_view())
            },
        }
    }
}

impl Clone for InstantiatePayload {
    fn clone(&self) -> (copy: Self)
        ensures
            copy == *self,
    {
        match self {
            InstantiatePayload::TicketManager(m) => InstantiatePayload::TicketManager(m.clone()),
            InstantiatePayload::UserBoard(m) => InstantiatePayload::UserBoard(m.clone()),
            InstantiatePayload::AuctionManager(m) => InstantiatePayload::AuctionManager(m.clone()),
            InstantiatePayload::CollateralManager(m) => {
                InstantiatePayload::CollateralManager(m.clone())
            },
        }
    }
}

/// A question for one of the services, by the service it is meant for.
#[derive(Debug, PartialEq, Eq)]
pub enum QueryPayload {
    /// A question for the ticket manager.
    TicketManager(TicketQueryMsg),
    /// A question for the auction manager.
    AuctionManager(AuctionQueryMsg),
    /// A question for the collateral manager.
    CollateralManager(CollateralQueryMsg),
}

/// The content of [`QueryPayload`] as mathematical values.
pub enum QueryPayloadView {
    TicketManager(TicketQueryMsg),
    AuctionManager(AuctionQueryMsg),
    CollateralManager(CollateralQueryMsgView),
}

impl DeepView for QueryPayload {
    type V = QueryPayloadView;

    open spec fn deep_view(&self) -> QueryPayloadView {
        match self {
            QueryPayload::TicketManager(m) => QueryPayloadView::TicketManager(m.deep_view()),
            QueryPayload::AuctionManager(m) => QueryPayloadView::AuctionManager(m.deep_view()),
            QueryPayload::CollateralManager(m) => {
                QueryPayloadView::CollateralManager(m.deep_view())
            },
        }
    }
}

impl Clone for QueryPayload {
    fn clone(&self) -> (copy: Self)
        ensures
            copy == *self,
    {
        match self {
            QueryPayload::TicketManager(m) => QueryPayload::TicketManager(m.clone()),
            QueryPayload::AuctionManager(m) => QueryPayload::AuctionManager(m.clone()),
            QueryPayload::CollateralManager(m) => QueryPayload::CollateralManager(m.clone()),
        }
    }
}

/// A message to a service.
#[derive(Debug, PartialEq, Eq)]
#[allow(inconsistent_fields)]
pub enum WasmMsg {
    /// Calls the service at `contract_addr` with `msg` and attaches `funds`.
    Execute { contract_addr: String, msg: ExecutePayload, funds: Vec<Coin> },
    /// Creates a service from the stored code `code_id`.
    Instantiate {
        admin: Option<String>,
        code_id: u64,
        msg: InstantiatePayload,
        funds: Vec<Coin>,
        label: String,
    },
}

/// The content of [`WasmMsg`] as mathematical values.
#[allow(inconsistent_fields)]
pub enum WasmMsgView {
    Execute { contract_addr: Seq<char>, msg: ExecutePayloadView, funds: Seq<CoinView> },
    Instantiate {
        admin: Option<Seq<char>>,
        code_id: u64,
        msg: InstantiatePayloadView,
        funds: Seq<CoinView>,
        label: Seq<char>,
    },
}

impl DeepView for WasmMsg {
    type V = WasmMsgView;

    open spec fn deep_view(&self) -> WasmMsgView {
        match self {
            WasmMsg::Execute { contract_addr, msg, funds } => WasmMsgView::Execute {
                contract_addr: contract_addr.deep_view(),
                msg: msg.deep_view(),
                funds: funds.deep_view(),
            },
            WasmMsg::Instantiate { admin, code_id, msg, funds, label } => WasmMsgView::Instantiate {
                admin: admin.deep_view(),
                code_id: code_id.deep_view(),
                msg: msg.deep_view(),
                funds: funds.deep_view(),
                label: label.deep_view(),
            },
        }
    }
}

impl Clone for WasmMsg {
    fn clone(&self) -> (copy: Self)
        ensures
            copy.deep_view() == self.deep_view(),
    {
        match self {
            WasmMsg::Execute { contract_addr, msg, funds } => {
                let copy = funds.clone();
                assert(copy@ =~= funds@);
                WasmMsg::Execute {
                    contract_addr: contract_addr.clone(),
                    msg: msg.clone(),
                    funds: copy,
                }
            },
            WasmMsg::Instantiate { admin, code_id, msg, funds, label } => {
                let copy = funds.clone();
                assert(copy@ =~= funds@);
                WasmMsg::Instantiate {
                    admin: admin.clone(),
                    code_id: *code_id,
                    msg: msg.clone(),
                    funds: copy,
                    label: label.clone(),
                }
            },
        }
    }
}

/// A message to the ledger.
#[derive(Debug, PartialEq, Eq)]
pub enum BankMsg {
    /// Transfers `amount` from the sending service to `to_address`.
    Send { to_address: String, amount: Vec<Coin> },
}

/// The content of [`BankMsg`] as mathematical values.
pub enum BankMsgView {
    Send { to_address: Seq<char>, amount: Seq<CoinView> },
}

impl DeepView for BankMsg {
    type V = BankMsgView;

    open spec fn deep_view(&self) -> BankMsgView {
        match self {
            BankMsg::Send { to_address, amount } => BankMsgView::Send {
                to_address: to_address.deep_view(),
                amount: amount.deep_view(),
            },
        }
    }
}

impl Clone for BankMsg {
    fn clone(&self) -> (copy: Self)
        ensures
            copy.deep_view() == self.deep_view(),
    {
        match self {
            BankMsg::Send { to_address, amount } => {
                let copy = amount.clone();
                assert(copy@ =~= amount@);
                BankMsg::Send { to_address: to_address.clone(), amount: copy }
            },
        }
    }
}

/// A message that a handler asks the host to deliver.
#[derive(Debug, PartialEq, Eq)]
pub enum CosmosMsg {
    /// A message to a service.
    Wasm(WasmMsg),
    /// A message to the ledger.
    Bank(BankMsg),
}

/// The content of [`CosmosMsg`] as mathematical values.
pub enum CosmosMsgView {
    Wasm(WasmMsgView),
    Bank(BankMsgView),
}

impl DeepView for CosmosMsg {
    type V = CosmosMsgView;

    open spec fn deep_view(&self) -> CosmosMsgView {
        match self {
            CosmosMsg::Wasm(m) => CosmosMsgView::Wasm(m.deep_view()),
            CosmosMsg::Bank(m) => CosmosMsgView::Bank(m.deep_view()),
        }
    }
}

impl Clone for CosmosMsg {
    fn clone(&self) -> (copy: Self)
        ensures
            copy.deep_view() == self.deep_view(),
    {
        match self {
            CosmosMsg::Wasm(msg) => CosmosMsg::Wasm(msg.clone()),
            CosmosMsg::Bank(msg) => CosmosMsg::Bank(msg.clone()),
        }
    }
}

/// What a handler answers: the messages to deliver next, in order, and what it reports.
#[derive(Debug, PartialEq, Eq)]
pub struct Response {
    /// The messages to deliver, in order.
    pub messages: Vec<CosmosMsg>,
    /// What the handler reports of the call.
    pub attributes: Vec<Attribute>,
}

/// The content of [`Response`] as mathematical values.
pub struct ResponseView {
    pub messages: Seq<CosmosMsgView>,
    pub attributes: Seq<AttributeView>,
}

impl DeepView for Response {
    type V = ResponseView;

    open spec fn deep_view(&self) -> ResponseView {
        ResponseView {
            messages: self.messages.deep_view(),
            attributes: self.attributes.deep_view(),
        }
    }
}

impl Clone for Response {
    fn clone(&self) -> (copy: Self)
        ensures
            copy.deep_view() == self.deep_view(),
    {
        let copy = Response {
            messages: self.messages.clone(),
            attributes: self.attributes.clone(),
        };
        assert(copy.attributes@ =~= self.attributes@);
        assert(copy.messages.deep_view() =~= self.messages.deep_view());
        copy
    }
}

/// A question to put to a service.
#[derive(Debug, PartialEq, Eq)]
pub struct WasmQuery {
    /// The service to ask.
    pub contract_addr: String,
    /// The question.
    pub msg: QueryPayload,
}

/// The content of [`WasmQuery`] as mathematical values.
pub struct WasmQueryView {
    pub contract_addr: Seq<char>,
    pub msg: QueryPayloadView,
}

impl DeepView for WasmQuery {
    type V = WasmQueryView;

    open spec fn deep_view(&self) -> WasmQueryView {
        WasmQueryView {
            contract_addr: self.contract_addr.deep_view(),
            msg: self.msg.deep_view(),
        }
    }
}

impl Clone for WasmQuery {
    fn clone(&self) -> (copy: Self)
        ensures
            copy == *self,
    {
        WasmQuery {
            contract_addr: self.contract_addr.clone(),
            msg: self.msg.clone(),
        }
    }
}

/// What a service answered to the question that a handler depends on.
#[derive(Debug, PartialEq, Eq)]
pub enum QueryAnswer {
    /// No question was put, or the service gave no answer.
    Missing,
    /// All tickets of the ticket manager.
    Tickets(TicketsResponse),
    /// One ticket of the ticket manager.
    TicketInfo(TicketInfoResponse),
    /// Whether the worker has a stake locked.
    StakeStatus(bool),
    /// The worker that the ticket is assigned to.
    Worker(String),
    /// All assignments of the ticket manager.
    Pairs(TWPairsReponse),
    /// The tickets that have open bets.
    TicketIds(Vec<u64>),
    /// The open bets of a ticket.
    Bets(Vec<BetDetail>),
}

/// The content of [`QueryAnswer`] as mathematical values.
pub enum QueryAnswerView {
    Missing,
    Tickets(TicketsResponseView),
    TicketInfo(TicketView),
    StakeStatus(bool),
    Worker(Seq<char>),
    Pairs(TWPairsReponseView),
    TicketIds(Seq<u64>),
    Bets(Seq<BetDetailView>),
}

impl DeepView for QueryAnswer {
    type V = QueryAnswerView;

    open spec fn deep_view(&self) -> QueryAnswerView {
        match self {
            QueryAnswer::Missing => QueryAnswerView::Missing,
            QueryAnswer::Tickets(m) => QueryAnswerView::Tickets(m.deep_view()),
            QueryAnswer::TicketInfo(m) => QueryAnswerView::TicketInfo(m.deep_view()),
            QueryAnswer::StakeStatus(m) => QueryAnswerView::StakeStatus(m.deep_view()),
            QueryAnswer::Worker(m) => QueryAnswerView::Worker(m.deep_view()),
            QueryAnswer::Pairs(m) => QueryAnswerView::Pairs(m.deep_view()),
            QueryAnswer::TicketIds(m) => QueryAnswerView::TicketIds(m.deep_view()),
            QueryAnswer::Bets(m) => QueryAnswerView::Bets(m.deep_view()),
        }
    }
}

impl Clone for QueryAnswer {
    fn clone(&self) -> (copy: Self)
        ensures
            copy.deep_view() == self.deep_view(),
    {
        match self {
            QueryAnswer::Missing => QueryAnswer::Missing,
            QueryAnswer::Tickets(answer) => QueryAnswer::Tickets(answer.clone()),
            QueryAnswer::TicketInfo(answer) => QueryAnswer::TicketInfo(answer.clone()),
            QueryAnswer::StakeStatus(answer) => QueryAnswer::StakeStatus(*answer),
            QueryAnswer::Worker(answer) => QueryAnswer::Worker(answer.clone()),
            QueryAnswer::Pairs(answer) => QueryAnswer::Pairs(answer.clone()),
            QueryAnswer::TicketIds(answer) => {
                let copy = answer.clone();
                assert(copy@ =~= answer@);
                QueryAnswer::TicketIds(copy)
            },
            QueryAnswer::Bets(answer) => {
                let copy = answer.clone();
                assert(copy@ =~= answer@);
                QueryAnswer::Bets(copy)
            },
        }
    }
}

/// What a service does with a question: it answers, or it names the service
/// that has to be asked in its place.
#[derive(Debug, PartialEq, Eq)]
pub enum QueryStep {
    /// The answer.
    Answer(QueryAnswer),
    /// The question to put to a peer, whose answer is the answer.
    Ask(WasmQuery),
}

/// The content of [`QueryStep`] as mathematical values.
pub enum QueryStepView {
    Answer(QueryAnswerView),
    Ask(WasmQueryView),
}

impl DeepView for QueryStep {
    type V = QueryStepView;

    open spec fn deep_view(&self) -> QueryStepView {
        match self {
            QueryStep::Answer(m) => QueryStepView::Answer(m.deep_view()),
            QueryStep::Ask(m) => QueryStepView::Ask(m.deep_view()),
        }
    }
}

/// The denomination in which collateral is locked and paid out.
pub const BASE_DENOM: &'static str = "uluna";

/// The characters of [`BASE_DENOM`].
pub open spec fn base_denom() -> Seq<char> {
    BASE_DENOM@
}

/// The coins of `funds` that are of the base denomination, in their order.
pub open spec fn base_coins(funds: Seq<CoinView>) -> Seq<CoinView> {
    funds.filter(|coin: CoinView| coin.denom == base_denom())
}

/// The funds hold exactly one coin of the base denomination, and its amount
/// is `amount`. Coins of other denominations are not looked at.
pub open spec fn pays_exactly(funds: Seq<CoinView>, amount: u128) -> bool {
    base_coins(funds).len() == 1 && base_coins(funds)[0].amount == amount
}

/// Whether `funds` hold exactly one coin of the base denomination, with the
/// amount `amount`.
pub fn funds_pay_exactly(funds: &Vec<Coin>, amount: u128) -> (exact: bool)
    ensures
        exact == pays_exactly(funds.deep_view(), amount),
{
    let base = BASE_DENOM.to_string();
    let ghost is_base = |coin: CoinView| coin.denom == base_denom();
    let mut count: usize = 0;
    let mut paid: u128 = 0;
    let mut at: usize = 0;
    while at < funds.len()
        invariant
            at <= funds@.len(),
            base@ == base_denom(),
            is_base == (|coin: CoinView| coin.denom == base_denom()),
            count == funds.deep_view().take(at as int).filter(is_base).len(),
            count <= at,
            count >= 1 ==> paid == funds.deep_view().take(at as int).filter(is_base)[0].amount,
        decreases funds@.len() - at,
    {
        let ghost seen = funds.deep_view().take(at as int);
        proof {
            assert(funds.deep_view().take(at + 1) =~= seen.push(funds@[at as int].deep_view()));
            seen.lemma_filter_push(funds@[at as int].deep_view(), is_base);
        }
        if funds[at].denom == base {
            if count == 0 {
                paid = funds[at].amount;
            }
            count = count + 1;
        }
        at = at + 1;
    }
    proof {
        assert(funds.deep_view().take(at as int) =~= funds.deep_view());
    }
    count == 1 && paid == amount
}

impl Attribute {
    /// The attribute with the key `key` and the value `value`.
    pub fn new(key: &str, value: &str) -> (attribute: Attribute)
        ensures
            attribute.deep_view() == (AttributeView { key: key@, value: value@ }),
    {
        Attribute { key: key.to_string(), value: value.to_string() }
    }
}

impl Response {
    /// The answer without messages and without attributes.
    pub fn new() -> (response: Response)
        ensures
            response.deep_view() == (ResponseView {
                messages: Seq::empty(),
                attributes: Seq::empty(),
            }),
    {
        let response = Response { messages: Vec::new(), attributes: Vec::new() };
        assert(response.deep_view().messages =~= Seq::empty());
        assert(response.deep_view().attributes =~= Seq::empty());
        response
    }

    /// This answer with `message` added behind its messages.
    pub fn add_message(self, message: CosmosMsg) -> (response: Response)
        ensures
            response.deep_view() == (ResponseView {
                messages: self.deep_view().messages.push(message.deep_view()),
                attributes: self.deep_view().attributes,
            }),
    {
        let mut response = self;
        response.messages.push(message);
        assert(response.deep_view().messages =~= self.deep_view().messages.push(
            message.deep_view(),
        ));
        assert(response.deep_view().attributes =~= self.deep_view().attributes);
        response
    }

    /// This answer with the attribute `key`, `value` added behind its attributes.
    pub fn add_attribute(self, key: &str, value: &str) -> (response: Response)
        ensures
            response.deep_view() == (ResponseView {
                messages: self.deep_view().messages,
                attributes: self.deep_view().attributes.push(
                    AttributeView { key: key@, value: value@ },
                ),
            }),
    {
        let mut response = self;
        response.attributes.push(Attribute::new(key, value));
        assert(response.deep_view().attributes =~= self.deep_view().attributes.push(
            AttributeView { key: key@, value: value@ },
        ));
        assert(response.deep_view().messages =~= self.deep_view().messages);
        response
    }
}

/// The answer that holds the single message `message` and reports `method`.
pub open spec fn reply_with(message: CosmosMsgView, method: Seq<char>) -> ResponseView {
    ResponseView {
        messages: seq![message],
        attributes: seq![AttributeView { key: "method"@, value: method }],
    }
}

/// The answer that holds no message and reports `method`.
pub open spec fn reply(method: Seq<char>) -> ResponseView {
    ResponseView {
        messages: Seq::empty(),
        attributes: seq![AttributeView { key: "method"@, value: method }],
    }
}

/// The message that calls the service at `contract_addr` with `msg` and
/// attaches nothing.
pub open spec fn call(contract_addr: Seq<char>, msg: ExecutePayloadView) -> CosmosMsgView {
    CosmosMsgView::Wasm(WasmMsgView::Execute { contract_addr, msg, funds: Seq::empty() })
}

impl Response {
    /// The answer that holds no message and reports `method`.
    pub fn reporting(method: &str) -> (response: Response)
        ensures
            response.deep_view() == reply(method@),
    {
        let response = Response::new().add_attribute("method", method);
        assert(response.deep_view().attributes =~= reply(method@).attributes);
        response
    }

    /// The answer that holds the single message `message` and reports `method`.
    pub fn sending(message: CosmosMsg, method: &str) -> (response: Response)
        ensures
            response.deep_view() == reply_with(message.deep_view(), method@),
    {
        let response = Response::new().add_message(message).add_attribute("method", method);
        let ghost model = reply_with(message.deep_view(), method@);
        assert(response.deep_view().messages =~= model.messages);
        assert(response.deep_view().attributes =~= model.attributes);
        response
    }
}

impl CosmosMsg {
    /// The message that calls the service at `contract_addr` with `msg` and
    /// attaches nothing.
    pub fn call(contract_addr: String, msg: ExecutePayload) -> (message: CosmosMsg)
        ensures
            message.deep_view() == call(contract_addr@, msg.deep_view()),
    {
        let message = CosmosMsg::Wasm(
            WasmMsg::Execute { contract_addr, msg, funds: Vec::new() },
        );
        assert(message.deep_view()->Wasm_0->Execute_funds =~= Seq::empty());
        message
    }
}

/// A handler met its model: where the model succeeds, so did the handler,
/// with the model's answer and records; where the model fails, the handler
/// failed with the same error and left the records as they were.
pub open spec fn settles<S>(
    before: S,
    after: S,
    result: Result<Response, TAError>,
    model: Result<(S, ResponseView), TAError>,
) -> bool {
    match model {
        Ok((records, response)) => {
            &&& result is Ok
            &&& result->Ok_0.deep_view() == response
            &&& after == records
        },
        Err(error) => result == Err::<Response, TAError>(error) && after == before,
    }
}

impl QueryAnswerView {
    /// The tickets that the answer holds; none if it holds something else.
    pub open spec fn tickets(self) -> TicketsResponseView {
        match self {
            QueryAnswerView::Tickets(tickets) => tickets,
            _ => TicketsResponseView { tickets: Seq::empty() },
        }
    }

    /// The ticket that the answer holds, if it holds one.
    pub open spec fn ticket_info(self) -> Option<TicketView> {
        match self {
            QueryAnswerView::TicketInfo(ticket) => Some(ticket),
            _ => None,
        }
    }

    /// Whether the answer says that the worker has a stake locked.
    pub open spec fn stake_status(self) -> bool {
        self == QueryAnswerView::StakeStatus(true)
    }

    /// The worker that the answer holds, if it holds one.
    pub open spec fn worker(self) -> Option<Seq<char>> {
        match self {
            QueryAnswerView::Worker(worker) => Some(worker),
            _ => None,
        }
    }
}

impl QueryAnswer {
    /// The tickets that the answer holds; none if it holds something else.
    pub fn into_tickets(self) -> (tickets: TicketsResponse)
        ensures
            tickets.deep_view() == self.deep_view().tickets(),
    {
        match self {
            QueryAnswer::Tickets(tickets) => tickets,
            _ => {
                let tickets = TicketsResponse { tickets: Vec::new() };
                assert(tickets.deep_view().tickets =~= Seq::empty());
                tickets
            },
        }
    }

    /// The ticket that the answer holds, if it holds one.
    pub fn into_ticket_info(self) -> (ticket: Option<TicketInfoResponse>)
        ensures
            ticket.deep_view() == self.deep_view().ticket_info(),
    {
        match self {
            QueryAnswer::TicketInfo(ticket) => Some(ticket),
            _ => None,
        }
    }

    /// Whether the answer says that the worker has a stake locked.
    pub fn stake_status(&self) -> (staked: bool)
        ensures
            staked == self.deep_view().stake_status(),
    {
        match self {
            QueryAnswer::StakeStatus(staked) => *staked,
            _ => false,
        }
    }

    /// The worker that the answer holds, if it holds one.
    pub fn into_worker(self) -> (worker: Option<String>)
        ensures
            worker.deep_view() == self.deep_view().worker(),
    {
        match self {
            QueryAnswer::Worker(worker) => Some(worker),
            _ => None,
        }
    }
}

} // verus!
