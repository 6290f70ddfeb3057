use crate::state::{Coin, State};
use cosmwasm_bignumber::Uint256;
use vstd::prelude::*;

verus! {

/// What the escrow is set up with; whoever sets it up becomes the arbiter.
#[derive(Debug, PartialEq, Eq)]
pub struct InstantiateMsg {
    pub buyer: String,
    pub seller: String,
    pub anchor_market_contract: String,
    pub anchor_aust_contract: String,
}

/// The operations that change the escrow.
#[derive(Debug, Clone, Copy, PartialEq, Eq, Structural)]
pub enum ExecuteMsg {
    /// The buyer pays in.
    Deposit {},
    /// The arbiter pulls the funds back out of the money market.
    ClaimDeposits {},
    /// The buyer confirms delivery; the seller is paid and the yield goes back to the buyer.
    ConfirmDelivery {},
}

/// The read-only operations.
#[derive(Debug, Clone, Copy, PartialEq, Eq, Structural)]
pub enum QueryMsg {
    GetState {},
    GetPaymentValue {},
}

/// The escrow's position in the money market.
#[derive(Debug)]
pub struct PaymentValueQueryResponse {
    /// Shares the escrow holds.
    pub aust_amount: u128,
    /// What they are worth in the payment currency at the market's exchange rate.
    pub ust_amount: Uint256,
}

#[derive(Debug)]
pub struct StateResponse {
    pub state: State,
}

/// `None` while nothing has been deposited.
#[derive(Debug)]
pub struct PaymentValueResponse {
    pub payment_value_res: Option<PaymentValueQueryResponse>,
}

/// A follow-up instruction for another service, dispatched after the operation returns.
#[derive(Debug, PartialEq, Eq)]
pub enum Instruction {
    /// Deposit `coin` into the money market `market`.
    DepositStable { market: String, coin: Coin },
    /// Send `amount` shares of the token `token` to `market`, to be redeemed for currency.
    RedeemStable { token: String, market: String, amount: u128 },
    /// Pay `coin` out to `to`.
    Send { to: String, coin: Coin },
}

} // verus!
