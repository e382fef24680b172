//! Values that the pricing operations hand back.

use vstd::prelude::*;
use crate::pricing::amount::{Amount, Dec};

verus! {

/// An amount of money in one currency, as a number and a sequence of characters.
pub struct Money {
    pub amount: Dec,
    pub currency: Seq<char>,
}

/// An amount of money in one currency. The currency code is carried as given.
#[derive(Clone, Debug)]
pub struct MoneyResponse {
    pub amount: Amount,
    pub currency: String,
}

impl View for MoneyResponse {
    type V = Money;

    open spec fn view(&self) -> Money {
        Money { amount: self.amount@, currency: self.currency@ }
    }
}

impl MoneyResponse {
    /// The amount `amount` in the currency `currency`.
    pub fn new(amount: Amount, currency: &str) -> (r: MoneyResponse)
        ensures
            r@ == (Money { amount: amount@, currency: currency@ }),
    {
        MoneyResponse { amount, currency: currency.to_owned() }
    }
}

} // verus!
