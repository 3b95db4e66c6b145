//! Incomes: what a business earns when it approves an order.

use crate::models::ad::Ad;
use crate::models::user::User;
use crate::models::Keyed;
use vstd::prelude::*;

verus! {

#[derive(Debug, Clone, Copy, PartialEq, Eq, Structural)]
pub struct Income {
    pub income_id: u128,
    /// The amount earned: the price of the order.
    pub income: u64,
    pub business_id: u128,
    pub ad_order_id: u128,
}

impl Keyed for Income {
    open spec fn key(&self) -> u128 {
        self.income_id
    }

    fn id(&self) -> u128 {
        self.income_id
    }
}

/// An income as a business sees it: the amount, who paid, and for which ad.
#[derive(Debug)]
pub struct IncomeAllData {
    pub price: u64,
    pub client: User,
    pub ad: Ad,
}

impl IncomeAllData {
    /// The income `income` with the user and the ad that it leads to.
    pub open spec fn joined(income: Income, client: User, ad: Ad) -> IncomeAllData {
        IncomeAllData { price: income.income, client, ad }
    }

    /// Puts an income, the user who paid and the ad into one value.
    pub fn of(income: Income, client: User, ad: Ad) -> (data: Self)
        ensures
            data == Self::joined(income, client, ad),
    {
        IncomeAllData { price: income.income, client, ad }
    }
}

} // verus!
