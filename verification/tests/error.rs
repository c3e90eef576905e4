use cosmwasm_std::StdError;
use ticket_auction::error::TAError;

#[test]
fn message_of_each_error() {
    assert_eq!(
        TAError::UnnecessaryFunds.message(),
        "Ticket Auction Error: Please do not send any unnecessary funds for this transaction"
    );
    assert_eq!(TAError::NotAuthorized.message(), "Not authorized");
    assert_eq!(TAError::NotFound.message(), "Not found");
    assert_eq!(TAError::InvalidAddress.message(), "Invalid address");
    assert_eq!(TAError::BetNotFinished.message(), "Bet not finished yet");
    assert_eq!(TAError::NotInitialized.message(), "Config not initialized");
    assert_eq!(TAError::InsufficientFunds.message(), "Insufficient funds");
    assert_eq!(TAError::NotStaked.message(), "Not staked yet");
    assert_eq!(TAError::AlreadyExists.message(), "Already exists");
    assert_eq!(TAError::InvalidDeadline.message(), "Bet deadline after close deadline");
    assert_eq!(TAError::AlreadyAssessed.message(), "Already assessed");
}

#[test]
fn std_error_carries_the_message() {
    let error: StdError = TAError::NotFound.into();
    assert_eq!(error, StdError::generic_err("Not found"));
    let error = StdError::from(TAError::BetNotFinished);
    assert_eq!(error, StdError::generic_err("Bet not finished yet"));
    assert_ne!(error, StdError::generic_err("Not found"));
}

#[test]
fn std_error_is_shown_as_generic_error() {
    let error = StdError::from(TAError::NotStaked);
    assert_eq!(format!("{}", error), "Generic error: Not staked yet");
}

#[test]
fn errors_compare_by_variant() {
    assert_eq!(TAError::NotFound, TAError::NotFound);
    assert_ne!(TAError::NotFound, TAError::NotAuthorized);
    let copy = TAError::NotStaked;
    assert_eq!(copy.clone(), TAError::NotStaked);
}
