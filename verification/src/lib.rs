//! A ticket marketplace run by five cooperating services.
//!
//! Tickets are posted with a bet deadline, a close deadline, a required
//! collateral and an expected result. Workers lock collateral and bid for a
//! ticket; the lowest bidder is assigned, submits a result, and is paid out
//! or slashed according to whether the result is right and on time.
//!
//! Each service is a state machine over its own records. A handler takes the
//! records, the caller with the attached funds, the time and the message. It
//! answers with the messages that the host is to deliver next, or with an
//! error, and then it has left the records as they were. Where a handler
//! depends on what a peer knows, the answer of the peer is handed to it; the
//! function `peer_query` of the service names the question to ask. The host
//! runs a call and the calls that follow from it as one: if one fails, none
//! of them has happened.
//!
//! - [`admin_board`], [`ticket_manager`], [`auction_manager`],
//!   [`collateral_manager`] and [`user_board`] hold the messages of one
//!   service each, with its records in `state` and its handlers in
//!   `contract`. Every handler is proved to do what its model says, a
//!   function of the same name that ends in `_model`.
//! - [`protocol`] proves what the services do together.
//! - [`host`] holds what surrounds a call, [`table`] the map that the records
//!   are kept in, [`decimal`] the arithmetic of a settlement, and [`error`]
//!   the failures.

pub mod admin_board;
pub mod auction_manager;
pub mod collateral_manager;
pub mod decimal;
pub mod error;
pub mod host;
pub mod protocol;
pub mod table;
pub mod ticket_manager;
pub mod user_board;
