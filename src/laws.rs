use crate::contract::{
    claim_error, confirm_error, deposit_error, deposited, interest_of, is_step,
    settlement_instructions, takes_payment,
};
use crate::error::ContractError;
use crate::msg::Instruction;
use crate::state::{status_rank, Coin, EscrowStatus, State};
use vstd::prelude::*;

verus! {

/// A deposit is taken only while payment is awaited and moves the escrow to awaiting
/// delivery; from then on every further deposit is refused, whoever sends it with whatever
/// funds.
pub proof fn lemma_deposit_taken_once(
    s: State,
    sender: Seq<char>,
    funds: Seq<Coin>,
    net: u128,
    again_sender: Seq<char>,
    again_funds: Seq<Coin>,
)
    requires
        deposit_error(s, sender, funds) is None,
    ensures
        s.escrow_status == EscrowStatus::AwaitingPayment,
        deposited(s, net).escrow_status == EscrowStatus::AwaitingDelivery,
        deposit_error(deposited(s, net), again_sender, again_funds) is Some,
{
}

/// Once delivered, a deposit always fails; the buyer is told `AlreadyDelivered`.
pub proof fn lemma_no_deposit_after_delivery(s: State, sender: Seq<char>, funds: Seq<Coin>)
    requires
        s.escrow_status == EscrowStatus::Delivered,
    ensures
        deposit_error(s, sender, funds) is Some,
        sender == s.buyer@ ==> deposit_error(s, sender, funds) == Some(
            ContractError::AlreadyDelivered {  },
        ),
{
}

/// Delivery cannot be confirmed before a deposit, whatever the balance, even when the
/// balance and the principal are both zero: the status is checked on its own.
pub proof fn lemma_confirm_needs_deposit(s: State, sender: Seq<char>, balance: u128)
    requires
        s.escrow_status == EscrowStatus::AwaitingPayment,
    ensures
        confirm_error(s, sender, balance) is Some,
        sender == s.buyer@ ==> confirm_error(s, sender, balance) == Some(
            ContractError::NothingDeposited {  },
        ),
{
}

/// A confirmation that is accepted pays out exactly two amounts, to the seller and to the
/// buyer, whose sum before withholding is the balance; each is taxed on its own.
pub proof fn lemma_settlement_splits_balance(
    s: State,
    sender: Seq<char>,
    balance: u128,
    seller_tax: u128,
    buyer_tax: u128,
)
    requires
        confirm_error(s, sender, balance) is None,
        seller_tax <= s.buyer_payment.amount,
        buyer_tax <= interest_of(s, balance),
    ensures
        s.buyer_payment.amount + interest_of(s, balance) == balance,
        ({
            let v = settlement_instructions(
                s,
                (s.buyer_payment.amount - seller_tax) as u128,
                (interest_of(s, balance) - buyer_tax) as u128,
            );
            &&& v.len() == 2
            &&& v[0] == Instruction::Send {
                to: s.seller,
                coin: Coin {
                    denom: s.payment_denom,
                    amount: (s.buyer_payment.amount - seller_tax) as u128,
                },
            }
            &&& v[1] == Instruction::Send {
                to: s.buyer,
                coin: Coin {
                    denom: s.payment_denom,
                    amount: (interest_of(s, balance) - buyer_tax) as u128,
                },
            }
        }),
{
}

/// Only the buyer may deposit or confirm delivery, and only the arbiter may claim the
/// deposits: anyone else is refused as unauthorized, whatever state the escrow is in.
pub proof fn lemma_roles(
    s: State,
    sender: Seq<char>,
    funds: Seq<Coin>,
    balance: u128,
)
    ensures
        sender != s.buyer@ ==> deposit_error(s, sender, funds) == Some(
            ContractError::Unauthorized {  },
        ),
        sender != s.buyer@ ==> confirm_error(s, sender, balance) == Some(
            ContractError::Unauthorized {  },
        ),
        sender != s.arbiter@ ==> claim_error(s, sender) == Some(ContractError::Unauthorized {  }),
{
}

/// Every consecutive pair of records in `trace` is one operation apart.
pub open spec fn is_run(trace: Seq<State>) -> bool {
    forall|k: int| 0 <= k < trace.len() - 1 ==> #[trigger] is_step(trace[k], trace[k + 1])
}

/// Along a run the status never moves back.
pub proof fn lemma_status_never_moves_back(trace: Seq<State>, a: int, b: int)
    requires
        is_run(trace),
        0 <= a <= b < trace.len(),
    ensures
        status_rank(trace[a].escrow_status) <= status_rank(trace[b].escrow_status),
    decreases b - a,
{
    if a < b {
        lemma_status_never_moves_back(trace, a, b - 1);
        let m = b - 1;
        assert(is_step(trace[m], trace[m + 1]));
    }
}

/// Over any run of operations the payment is taken at most once.
pub proof fn lemma_payment_taken_once(trace: Seq<State>, i: int, j: int)
    requires
        is_run(trace),
        0 <= i < trace.len() - 1,
        0 <= j < trace.len() - 1,
        takes_payment(trace[i], trace[i + 1]),
        takes_payment(trace[j], trace[j + 1]),
    ensures
        i == j,
{
    if i < j {
        lemma_status_never_moves_back(trace, i + 1, j);
    } else if j < i {
        lemma_status_never_moves_back(trace, j + 1, i);
    }
}

/// Once the payment is taken, the principal it recorded stays as it is for the rest of the
/// run.
pub proof fn lemma_principal_fixed(trace: Seq<State>, i: int, k: int)
    requires
        is_run(trace),
        0 <= i < trace.len() - 1,
        takes_payment(trace[i], trace[i + 1]),
        i + 1 <= k < trace.len(),
    ensures
        trace[k].buyer_payment == trace[i + 1].buyer_payment,
    decreases k - i,
{
    if k > i + 1 {
        lemma_principal_fixed(trace, i, k - 1);
        lemma_status_never_moves_back(trace, i + 1, k - 1);
        let m = k - 1;
        assert(is_step(trace[m], trace[m + 1]));
    }
}

} // verus!
