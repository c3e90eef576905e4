//! The failures that a handler reports to its caller.

use vstd::prelude::*;
use vstd::std_specs::convert::FromSpecImpl;
use cosmwasm_std::StdError;

verus! {

/// The error type of the host's contract interface. Nothing inside a value
/// of it is visible to the proofs.
#[verifier::external_type_specification]
#[verifier::external_body]
pub struct ExStdError(StdError);

/// Why a handler refused a call. Every failure ends the call; the records of
/// the service stay as they were.
#[derive(Debug, Clone, Copy, PartialEq, Eq, Structural)]
pub enum TAError {
    /// Funds were attached that the call does not take, or not the amount it asks for.
    UnnecessaryFunds,
    /// The caller is not the administrator or peer that this call is reserved for.
    NotAuthorized,
    /// The ticket, bid set or assignment that the call names does not exist.
    NotFound,
    /// An account identifier did not pass the host's validation.
    InvalidAddress,
    /// The bet deadline of the ticket has not been reached.
    BetNotFinished,
    /// The address of a peer that the call needs has not been configured.
    NotInitialized,
    /// The call needs funds and none were attached.
    InsufficientFunds,
    /// The worker has no collateral locked for the ticket.
    NotStaked,
    /// A ticket with the number is listed already.
    AlreadyExists,
    /// The bet deadline of the ticket would lie after its close deadline.
    InvalidDeadline,
    /// A result has been assessed for the ticket already.
    AlreadyAssessed,
}

impl TAError {
    /// The text that the caller is shown for this failure.
    pub open spec fn text(self) -> Seq<char> {
        match self {
            TAError::UnnecessaryFunds => {
                "Ticket Auction Error: Please do not send any unnecessary funds for this transaction"@
            },
            TAError::NotAuthorized => "Not authorized"@,
            TAError::NotFound => "Not found"@,
            TAError::InvalidAddress => "Invalid address"@,
            TAError::BetNotFinished => "Bet not finished yet"@,
            TAError::NotInitialized => "Config not initialized"@,
            TAError::InsufficientFunds => "Insufficient funds"@,
            TAError::NotStaked => "Not staked yet"@,
            TAError::AlreadyExists => "Already exists"@,
            TAError::InvalidDeadline => "Bet deadline after close deadline"@,
            TAError::AlreadyAssessed => "Already assessed"@,
        }
    }

    /// The text of this failure as an owned string.
    pub fn message(&self) -> (text: String)
        ensures
            text@ == self.text(),
    {
        match self {
            TAError::UnnecessaryFunds => String::from_str(
                "Ticket Auction Error: Please do not send any unnecessary funds for this transaction",
            ),
            TAError::NotAuthorized => String::from_str("Not authorized"),
            TAError::NotFound => String::from_str("Not found"),
            TAError::InvalidAddress => String::from_str("Invalid address"),
            TAError::BetNotFinished => String::from_str("Bet not finished yet"),
            TAError::NotInitialized => String::from_str("Config not initialized"),
            TAError::InsufficientFunds => String::from_str("Insufficient funds"),
            TAError::NotStaked => String::from_str("Not staked yet"),
            TAError::AlreadyExists => String::from_str("Already exists"),
            TAError::InvalidDeadline => String::from_str("Bet deadline after close deadline"),
            TAError::AlreadyAssessed => String::from_str("Already assessed"),
        }
    }
}

/// Calls `cosmwasm_std::StdError::generic_err`, which builds the host's
/// generic error around the given text. Nothing is claimed of the value that
/// comes back.
#[verifier::external_body]
fn generic_err(msg: String) -> StdError {
    StdError::generic_err(msg)
}

impl From<TAError> for StdError {
    /// The host's generic error that carries the text of `error`.
    fn from(error: TAError) -> (err: StdError) {
        generic_err(error.message())
    }
}

/// Nothing inside the host's error is visible to the proofs, so nothing is
/// said of what the conversion gives.
impl FromSpecImpl<TAError> for StdError {
    open spec fn obeys_from_spec() -> bool {
        false
    }

    open spec fn from_spec(error: TAError) -> StdError {
        arbitrary()
    }
}

} // verus!
