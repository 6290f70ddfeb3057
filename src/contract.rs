use crate::error::ContractError;
use crate::helpers::{get_ust_deposited, uint256_of, withholding_tax, RATE_SCALE};
use crate::msg::{
    InstantiateMsg, Instruction, PaymentValueQueryResponse, PaymentValueResponse, StateResponse,
};
use crate::state::{Coin, EscrowStatus, State, PAYMENT_DENOM};
use cosmwasm_std::Deps;
use vstd::prelude::*;

verus! {

/// `s` is the record a fresh escrow starts from: nothing paid yet, in the one payment currency.
pub open spec fn is_initial(s: State, arbiter: String, msg: InstantiateMsg) -> bool {
    &&& s.seller == msg.seller
    &&& s.buyer == msg.buyer
    &&& s.arbiter == arbiter
    &&& s.escrow_status == EscrowStatus::AwaitingPayment
    &&& s.payment_denom@ == PAYMENT_DENOM@
    &&& s.buyer_payment.denom@ == PAYMENT_DENOM@
    &&& s.buyer_payment.amount == 0
    &&& s.anchor_market_contract == msg.anchor_market_contract
    &&& s.anchor_aust_contract == msg.anchor_aust_contract
}

/// Why a deposit by `sender` with `funds` attached is refused, if it is.
pub open spec fn deposit_error(s: State, sender: Seq<char>, funds: Seq<Coin>) -> Option<
    ContractError,
> {
    if sender != s.buyer@ {
        Some(ContractError::Unauthorized {  })
    } else if s.escrow_status == EscrowStatus::Delivered {
        Some(ContractError::AlreadyDelivered {  })
    } else if s.escrow_status == EscrowStatus::AwaitingDelivery {
        Some(ContractError::AlreadyDeposited {  })
    } else if funds.len() == 0 {
        Some(ContractError::NoFundsSent {  })
    } else if funds.len() > 1 {
        Some(ContractError::MultipleCoinsSent {  })
    } else if funds[0].denom@ != s.payment_denom@ {
        Some(ContractError::WrongDenomSent {  })
    } else {
        None
    }
}

/// The record after a deposit that credited `net` to the escrow.
pub open spec fn deposited(s: State, net: u128) -> State {
    State {
        escrow_status: EscrowStatus::AwaitingDelivery,
        buyer_payment: Coin { denom: s.payment_denom, amount: net },
        ..s
    }
}

/// A deposit of `net` hands the money market exactly that.
pub open spec fn deposit_instructions(s: State, net: u128) -> Seq<Instruction> {
    seq![
        Instruction::DepositStable {
            market: s.anchor_market_contract,
            coin: Coin { denom: s.payment_denom, amount: net },
        },
    ]
}

/// Why a claim by `sender` is refused, if it is.
pub open spec fn claim_error(s: State, sender: Seq<char>) -> Option<ContractError> {
    if sender != s.arbiter@ {
        Some(ContractError::Unauthorized {  })
    } else if s.escrow_status == EscrowStatus::Delivered {
        Some(ContractError::AlreadyDelivered {  })
    } else {
        None
    }
}

/// A claim sends the whole share balance back to the market for redemption.
pub open spec fn claim_instructions(s: State, shares: u128) -> Seq<Instruction> {
    seq![
        Instruction::RedeemStable {
            token: s.anchor_aust_contract,
            market: s.anchor_market_contract,
            amount: shares,
        },
    ]
}

/// Why a confirmation by `sender` is refused while the escrow holds `balance`, if it is.
/// The status is looked at before the balance, so that an escrow that never took a payment
/// (principal zero, balance zero) cannot be settled.
pub open spec fn confirm_error(s: State, sender: Seq<char>, balance: u128) -> Option<
    ContractError,
> {
    if sender != s.buyer@ {
        Some(ContractError::Unauthorized {  })
    } else if s.escrow_status == EscrowStatus::Delivered {
        Some(ContractError::AlreadyDelivered {  })
    } else if s.escrow_status == EscrowStatus::AwaitingPayment {
        Some(ContractError::NothingDeposited {  })
    } else if balance != s.buyer_payment.amount {
        Some(ContractError::FundsNotReceivedFromAnchor {  })
    } else {
        None
    }
}

/// The yield: what the escrow holds beyond the principal, and zero if it holds less.
pub open spec fn interest_of(s: State, balance: u128) -> u128 {
    if balance >= s.buyer_payment.amount {
        (balance - s.buyer_payment.amount) as u128
    } else {
        0
    }
}

/// The record once delivery is confirmed.
pub open spec fn delivered(s: State) -> State {
    State { escrow_status: EscrowStatus::Delivered, ..s }
}

/// Settlement pays `to_seller` to the seller and `to_buyer` to the buyer, in that order.
pub open spec fn settlement_instructions(s: State, to_seller: u128, to_buyer: u128) -> Seq<
    Instruction,
> {
    seq![
        Instruction::Send { to: s.seller, coin: Coin { denom: s.payment_denom, amount: to_seller } },
        Instruction::Send { to: s.buyer, coin: Coin { denom: s.payment_denom, amount: to_buyer } },
    ]
}

/// `i` pays `to` at most `limit` in the payment currency of `s`.
pub open spec fn pays_at_most(s: State, i: Instruction, to: String, limit: u128) -> bool {
    match i {
        Instruction::Send { to: t, coin } => t == to && coin.denom == s.payment_denom
            && coin.amount <= limit,
        _ => false,
    }
}

/// `v` settles `s` at `balance`: the principal goes to the seller and the yield to the buyer,
/// each less a withholding of its own that is no more than the amount itself.
pub open spec fn settles(s: State, balance: u128, v: Seq<Instruction>) -> bool {
    &&& v.len() == 2
    &&& pays_at_most(s, v[0], s.seller, s.buyer_payment.amount)
    &&& pays_at_most(s, v[1], s.buyer, interest_of(s, balance))
}

/// `t` is `s` after one operation: unchanged, a deposit taken, or delivery confirmed.
pub open spec fn is_step(s: State, t: State) -> bool {
    ||| t == s
    ||| s.escrow_status == EscrowStatus::AwaitingPayment && t == deposited(
        s,
        t.buyer_payment.amount,
    )
    ||| s.escrow_status == EscrowStatus::AwaitingDelivery && t == delivered(s)
}

/// The step from `s` to `t` takes the payment.
pub open spec fn takes_payment(s: State, t: State) -> bool {
    s.escrow_status == EscrowStatus::AwaitingPayment && t.escrow_status
        == EscrowStatus::AwaitingDelivery
}

/// Sets up the escrow for the parties and services in `msg`, with `arbiter` as arbiter.
pub fn instantiate(arbiter: String, msg: InstantiateMsg) -> (r: State)
    ensures
        is_initial(r, arbiter, msg),
        r.wf(),
{
    State {
        seller: msg.seller,
        buyer: msg.buyer,
        arbiter,
        escrow_status: EscrowStatus::AwaitingPayment,
        payment_denom: PAYMENT_DENOM.to_owned(),
        buyer_payment: Coin::new(0, PAYMENT_DENOM.to_owned()),
        anchor_market_contract: msg.anchor_market_contract,
        anchor_aust_contract: msg.anchor_aust_contract,
    }
}

/// Checks a deposit by `sender` with `funds` attached, and gives the amount paid in.
pub fn check_deposit(state: &State, sender: &String, funds: &Vec<Coin>) -> (r: Result<
    u128,
    ContractError,
>)
    ensures
        match deposit_error(*state, sender@, funds@) {
            Some(e) => r == Err::<u128, ContractError>(e),
            None => r == Ok::<u128, ContractError>(funds@[0].amount),
        },
{
    if *sender != state.buyer {
        return Err(ContractError::Unauthorized {  });
    }
    if state.escrow_status == EscrowStatus::Delivered {
        return Err(ContractError::AlreadyDelivered {  });
    }
    if state.escrow_status == EscrowStatus::AwaitingDelivery {
        return Err(ContractError::AlreadyDeposited {  });
    }
    if funds.len() == 0 {
        return Err(ContractError::NoFundsSent {  });
    }
    if funds.len() > 1 {
        return Err(ContractError::MultipleCoinsSent {  });
    }
    if funds[0].denom != state.payment_denom {
        return Err(ContractError::WrongDenomSent {  });
    }
    Ok(funds[0].amount)
}

/// Records a payment of `amount` from which the ledger withheld `tax`: the principal is what
/// is left, and it is what goes into the money market.
pub fn record_deposit(state: &mut State, amount: u128, tax: u128) -> (r: Vec<Instruction>)
    requires
        tax <= amount,
    ensures
        *final(state) == deposited(*old(state), (amount - tax) as u128),
        final(state).buyer_payment.amount == amount - tax,
        r@ == deposit_instructions(*old(state), (amount - tax) as u128),
        old(state).wf() && old(state).escrow_status == EscrowStatus::AwaitingPayment ==> final(state).wf() && old(state).may_become(*final(state)),
{
    let net = amount - tax;
    state.escrow_status = EscrowStatus::AwaitingDelivery;
    state.buyer_payment = Coin::new(net, state.payment_denom.clone());
    let coin = Coin::new(net, state.payment_denom.clone());
    vec![Instruction::DepositStable { market: state.anchor_market_contract.clone(), coin }]
}

/// The buyer pays in. The payment, net of the ledger's withholding, becomes the principal
/// and is deposited into the money market. A failed ledger query leaves the record as it was.
pub fn deposit(deps: Deps, state: &mut State, sender: &String, funds: &Vec<Coin>) -> (r: Result<
    Vec<Instruction>,
    ContractError,
>)
    ensures
        deposit_error(*old(state), sender@, funds@) matches Some(e) ==> r == Err::<
            Vec<Instruction>,
            ContractError,
        >(e) && *final(state) == *old(state),
        deposit_error(*old(state), sender@, funds@) is None ==> match r {
            Ok(v) => {
                &&& final(state).buyer_payment.amount <= funds@[0].amount
                &&& *final(state) == deposited(*old(state), final(state).buyer_payment.amount)
                &&& v@ == deposit_instructions(*old(state), final(state).buyer_payment.amount)
            },
            Err(e) => e is Std && *final(state) == *old(state),
        },
        old(state).wf() ==> final(state).wf() && old(state).may_become(*final(state)),
        is_step(*old(state), *final(state)),
{
    let amount = match check_deposit(state, sender, funds) {
        Ok(a) => a,
        Err(e) => return Err(e),
    };
    let tax = match withholding_tax(deps, &state.payment_denom, amount) {
        Ok(t) => t,
        Err(e) => return Err(ContractError::Std(e)),
    };
    Ok(record_deposit(state, amount, tax))
}

/// The arbiter sends the escrow's whole share balance, `shares`, back to the market to be
/// redeemed. The record does not change.
pub fn claim_deposits(state: &State, sender: &String, shares: u128) -> (r: Result<
    Vec<Instruction>,
    ContractError,
>)
    ensures
        match claim_error(*state, sender@) {
            Some(e) => r == Err::<Vec<Instruction>, ContractError>(e),
            None => r matches Ok(v) && v@ == claim_instructions(*state, shares),
        },
{
    if *sender != state.arbiter {
        return Err(ContractError::Unauthorized {  });
    }
    if state.escrow_status == EscrowStatus::Delivered {
        return Err(ContractError::AlreadyDelivered {  });
    }
    Ok(
        vec![
            Instruction::RedeemStable {
                token: state.anchor_aust_contract.clone(),
                market: state.anchor_market_contract.clone(),
                amount: shares,
            },
        ],
    )
}

/// Checks a confirmation by `sender` while the escrow holds `balance`, and gives the yield.
pub fn check_confirm(state: &State, sender: &String, balance: u128) -> (r: Result<
    u128,
    ContractError,
>)
    ensures
        match confirm_error(*state, sender@, balance) {
            Some(e) => r == Err::<u128, ContractError>(e),
            None => r == Ok::<u128, ContractError>(interest_of(*state, balance)),
        },
{
    if *sender != state.buyer {
        return Err(ContractError::Unauthorized {  });
    }
    if state.escrow_status == EscrowStatus::Delivered {
        return Err(ContractError::AlreadyDelivered {  });
    }
    if state.escrow_status == EscrowStatus::AwaitingPayment {
        return Err(ContractError::NothingDeposited {  });
    }
    if balance != state.buyer_payment.amount {
        return Err(ContractError::FundsNotReceivedFromAnchor {  });
    }
    if balance >= state.buyer_payment.amount {
        Ok(balance - state.buyer_payment.amount)
    } else {
        Ok(0)
    }
}

/// Settles the deal while the escrow holds `balance`: the principal less `seller_tax` goes to
/// the seller, the yield less `buyer_tax` to the buyer, and the record becomes final.
pub fn settle(state: &mut State, balance: u128, seller_tax: u128, buyer_tax: u128) -> (r: Vec<
    Instruction,
>)
    requires
        seller_tax <= old(state).buyer_payment.amount,
        buyer_tax <= interest_of(*old(state), balance),
    ensures
        *final(state) == delivered(*old(state)),
        r@ == settlement_instructions(
            *old(state),
            (old(state).buyer_payment.amount - seller_tax) as u128,
            (interest_of(*old(state), balance) - buyer_tax) as u128,
        ),
        old(state).wf() && old(state).escrow_status == EscrowStatus::AwaitingDelivery ==> final(state).wf() && old(state).may_become(*final(state)),
{
    let interest = if balance >= state.buyer_payment.amount {
        balance - state.buyer_payment.amount
    } else {
        0
    };
    let to_seller = Coin::new(state.buyer_payment.amount - seller_tax, state.payment_denom.clone());
    let to_buyer = Coin::new(interest - buyer_tax, state.payment_denom.clone());
    let r = vec![
        Instruction::Send { to: state.seller.clone(), coin: to_seller },
        Instruction::Send { to: state.buyer.clone(), coin: to_buyer },
    ];
    state.escrow_status = EscrowStatus::Delivered;
    r
}

/// The buyer confirms delivery while the escrow holds `balance` of the payment currency. Each
/// of the two payments is taxed on its own. A failed ledger query leaves the record as it was.
pub fn confirm_delivery(deps: Deps, state: &mut State, sender: &String, balance: u128) -> (r:
    Result<Vec<Instruction>, ContractError>)
    ensures
        confirm_error(*old(state), sender@, balance) matches Some(e) ==> r == Err::<
            Vec<Instruction>,
            ContractError,
        >(e) && *final(state) == *old(state),
        confirm_error(*old(state), sender@, balance) is None ==> match r {
            Ok(v) => *final(state) == delivered(*old(state)) && settles(*old(state), balance, v@),
            Err(e) => e is Std && *final(state) == *old(state),
        },
        old(state).wf() ==> final(state).wf() && old(state).may_become(*final(state)),
        is_step(*old(state), *final(state)),
{
    let interest = match check_confirm(state, sender, balance) {
        Ok(i) => i,
        Err(e) => return Err(e),
    };
    let seller_tax = match withholding_tax(deps, &state.payment_denom, state.buyer_payment.amount) {
        Ok(t) => t,
        Err(e) => return Err(ContractError::Std(e)),
    };
    let buyer_tax = match withholding_tax(deps, &state.payment_denom, interest) {
        Ok(t) => t,
        Err(e) => return Err(ContractError::Std(e)),
    };
    Ok(settle(state, balance, seller_tax, buyer_tax))
}

/// The whole record, read only.
pub fn query_state(state: &State) -> (r: StateResponse)
    ensures
        r.state == *state,
{
    StateResponse { state: state.snapshot() }
}

/// The escrow's `aust_amount` shares and their worth at a rate of `exchange_rate` units (see
/// `RATE_SCALE`), read only; `None` while nothing has been deposited, so that "never paid" is
/// not mistaken for a zero balance.
pub fn query_payment_value(state: &State, aust_amount: u128, exchange_rate: u128) -> (r:
    PaymentValueResponse)
    ensures
        state.escrow_status == EscrowStatus::AwaitingPayment <==> r.payment_value_res is None,
        r.payment_value_res matches Some(p) ==> p.aust_amount == aust_amount && p.ust_amount
            == uint256_of((aust_amount * exchange_rate / (RATE_SCALE as int)) as nat),
{
    if state.escrow_status == EscrowStatus::AwaitingPayment {
        return PaymentValueResponse { payment_value_res: None };
    }
    let ust_amount = get_ust_deposited(aust_amount, exchange_rate);
    PaymentValueResponse {
        payment_value_res: Some(PaymentValueQueryResponse { aust_amount, ust_amount }),
    }
}

} // verus!
