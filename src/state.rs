use vstd::prelude::*;

verus! {

/// The one currency the escrow accepts.
pub const PAYMENT_DENOM: &'static str = "uusd";

/// An amount of one currency.
#[derive(Debug, PartialEq, Eq)]
pub struct Coin {
    pub denom: String,
    pub amount: u128,
}

impl Coin {
    pub fn new(amount: u128, denom: String) -> (r: Coin)
        ensures
            r.amount == amount,
            r.denom == denom,
    {
        Coin { denom, amount }
    }
}

/// Where the deal stands. It only ever moves forward, one step at a time.
#[derive(Debug, Clone, Copy, PartialEq, Eq, Structural)]
pub enum EscrowStatus {
    AwaitingPayment,
    AwaitingDelivery,
    Delivered,
}

/// The escrow record: the parties, the status, the currency and the principal.
#[derive(Debug, PartialEq, Eq)]
pub struct State {
    pub seller: String,
    pub buyer: String,
    pub arbiter: String,
    pub escrow_status: EscrowStatus,
    pub payment_denom: String,
    /// What the escrow was credited with at deposit time, net of withholding. It keeps
    /// the buyer's payment apart from the yield earned on it.
    pub buyer_payment: Coin,
    pub anchor_market_contract: String,
    pub anchor_aust_contract: String,
}

/// The position of a status along `AwaitingPayment -> AwaitingDelivery -> Delivered`.
pub open spec fn status_rank(s: EscrowStatus) -> nat {
    match s {
        EscrowStatus::AwaitingPayment => 0,
        EscrowStatus::AwaitingDelivery => 1,
        EscrowStatus::Delivered => 2,
    }
}

impl State {
    /// The principal is held in the payment currency, and is zero until a deposit is taken.
    pub open spec fn wf(self) -> bool {
        &&& self.buyer_payment.denom@ == self.payment_denom@
        &&& self.escrow_status == EscrowStatus::AwaitingPayment ==> self.buyer_payment.amount == 0
    }

    /// `next` is `self` or one step further, with the same parties, currency and services.
    pub open spec fn may_become(self, next: State) -> bool {
        &&& next.seller == self.seller
        &&& next.buyer == self.buyer
        &&& next.arbiter == self.arbiter
        &&& next.payment_denom == self.payment_denom
        &&& next.anchor_market_contract == self.anchor_market_contract
        &&& next.anchor_aust_contract == self.anchor_aust_contract
        &&& (status_rank(next.escrow_status) == status_rank(self.escrow_status) || status_rank(
            next.escrow_status,
        ) == status_rank(self.escrow_status) + 1)
        &&& self.escrow_status != EscrowStatus::AwaitingPayment ==> next.buyer_payment
            == self.buyer_payment
    }

    /// A copy of the record, field for field.
    pub fn snapshot(&self) -> (r: State)
        ensures
            r == *self,
    {
        State {
            seller: self.seller.clone(),
            buyer: self.buyer.clone(),
            arbiter: self.arbiter.clone(),
            escrow_status: self.escrow_status,
            payment_denom: self.payment_denom.clone(),
            buyer_payment: Coin::new(self.buyer_payment.amount, self.buyer_payment.denom.clone()),
            anchor_market_contract: self.anchor_market_contract.clone(),
            anchor_aust_contract: self.anchor_aust_contract.clone(),
        }
    }
}

} // verus!
