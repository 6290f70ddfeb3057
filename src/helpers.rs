use crate::state::Coin;
use cosmwasm_bignumber::{Decimal256, Uint256};
use cosmwasm_std::{Deps, StdError};
use vstd::prelude::*;

verus! {

// The ledger handle, its query error and its fixed-point numbers are carried through
// unopened.
#[verifier::external_type_specification]
#[verifier::external_body]
pub struct ExDeps<'a>(Deps<'a>);

#[verifier::external_type_specification]
#[verifier::external_body]
pub struct ExStdError(StdError);

#[verifier::external_type_specification]
#[verifier::external_body]
pub struct ExDecimal256(Decimal256);

#[verifier::external_type_specification]
#[verifier::external_body]
pub struct ExUint256(Uint256);

/// Relies on moneymarket::querier::compute_tax: the withholding the ledger takes from a
/// transfer of `amount` in `denom`. The rate and the cap are queried from the ledger, and
/// the query may fail; the tax is the smaller of the cap and `amount - amount / (1 + rate)`,
/// so never more than `amount`.
#[verifier::external_body]
pub(crate) fn withholding_tax(deps: Deps, denom: &String, amount: u128) -> (r: Result<u128, StdError>)
    ensures
        r matches Ok(t) ==> t <= amount,
{
    let coin = cosmwasm_std::Coin::new(amount, denom.clone());
    moneymarket::querier::compute_tax(deps, &coin).map(|t| u128::from(t))
}

/// `coin` less a withholding of `tax`, in `denom`.
pub fn net_of_tax(coin: &Coin, denom: String, tax: u128) -> (r: Coin)
    requires
        tax <= coin.amount,
    ensures
        r.amount == coin.amount - tax,
        r.denom == denom,
{
    Coin::new(coin.amount - tax, denom)
}

/// `coin` less what the ledger withholds from a transfer of it, in `denom`.
pub fn get_taxed_coin(deps: Deps, denom: String, coin: &Coin) -> (r: Result<Coin, StdError>)
    ensures
        r matches Ok(c) ==> c.denom == denom && c.amount <= coin.amount,
{
    match withholding_tax(deps, &coin.denom, coin.amount) {
        Ok(tax) => Ok(net_of_tax(coin, denom, tax)),
        Err(e) => Err(e),
    }
}

/// The scale of an exchange rate: `r` units stand for the rate `r / RATE_SCALE`.
pub const RATE_SCALE: u128 = 1_000_000_000_000_000_000;

/// The `Uint256` that holds `n`.
pub uninterp spec fn uint256_of(n: nat) -> Uint256;

/// Relies on cosmwasm_bignumber's `Uint256 * Decimal256`, which is `multiply_ratio` by the
/// rate's units over 10^18: `aust_balance` shares valued at a rate of `exchange_rate` units,
/// rounded down. Both factors are below 2^128, so the 256-bit product cannot overflow.
#[verifier::external_body]
pub fn get_ust_deposited(aust_balance: u128, exchange_rate: u128) -> (r: Uint256)
    ensures
        r == uint256_of((aust_balance * exchange_rate / (RATE_SCALE as int)) as nat),
{
    Uint256::from(aust_balance) * Decimal256(Uint256::from(exchange_rate).0)
}

} // verus!
