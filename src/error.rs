use cosmwasm_std::StdError;
use vstd::prelude::*;

verus! {

/// Why an operation on the escrow was refused.
#[derive(Debug)]
pub enum ContractError {
    /// A query to the ledger failed; passed on as it came.
    Std(StdError),
    /// The caller does not hold the role the operation asks for.
    Unauthorized {},
    NoFundsSent {},
    MultipleCoinsSent {},
    WrongDenomSent {},
    /// The deal is settled and nothing but queries may run on it.
    AlreadyDelivered {},
    /// The payment was already taken; it is taken once.
    AlreadyDeposited {},
    /// Delivery was confirmed before any payment was taken.
    NothingDeposited {},
    /// The escrow does not hold exactly the principal yet: the redemption has not settled.
    FundsNotReceivedFromAnchor {},
}

} // verus!
