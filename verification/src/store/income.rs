//! Incomes: what a business has earned, and from whom.

use crate::models::income::{Income, IncomeAllData};
use crate::store::{Store, StoreView};
use crate::table::row;
use vstd::prelude::*;

verus! {

/// Asks for the incomes of a business.
#[derive(Debug, Clone, Copy, PartialEq, Eq, Structural)]
pub struct GetAllIncomes {
    pub business_id: u128,
}

impl StoreView {
    /// What the business `business_id` sees of `income`: the amount with the
    /// ad of the order that was approved and the user who owns the ad, where
    /// the income is the business's and order, ad and user are there; nothing
    /// else.
    pub open spec fn income_details(self, business_id: u128, income: Income) -> Option<
        IncomeAllData,
    > {
        match row(self.ad_orders, income.ad_order_id) {
            Some(order) => match row(self.ads, order.ad_id) {
                Some(ad) => match row(self.users, ad.user_id) {
                    Some(client) => if income.business_id == business_id {
                        Some(IncomeAllData::joined(income, client, ad))
                    } else {
                        None
                    },
                    None => None,
                },
                None => None,
            },
            None => None,
        }
    }

    /// What the business `business_id` sees of `incomes`, in their order.
    pub open spec fn incomes_of(self, business_id: u128, incomes: Seq<Income>) -> Seq<
        IncomeAllData,
    > {
        incomes.filter_map(|income: Income| self.income_details(business_id, income))
    }

    /// The incomes of the business that `msg` names. An income whose order,
    /// ad or user is not there is left out.
    pub open spec fn get_all_incomes(self, msg: GetAllIncomes) -> Seq<IncomeAllData> {
        self.incomes_of(msg.business_id, self.incomes)
    }
}

impl Store {
    /// What the business `business_id` sees of `income`.
    pub fn income_details(&self, business_id: u128, income: &Income) -> (details: Option<
        IncomeAllData,
    >)
        ensures
            details == self@.income_details(business_id, *income),
    {
        let order = match self.ad_orders.get(income.ad_order_id) {
            Some(order) => order,
            None => { return None; },
        };
        let ad = match self.ads.get(order.ad_id) {
            Some(ad) => ad,
            None => { return None; },
        };
        let client = match self.users.get(ad.user_id) {
            Some(client) => client,
            None => { return None; },
        };
        if income.business_id == business_id {
            Some(IncomeAllData::of(*income, client.clone(), ad.clone()))
        } else {
            None
        }
    }

    /// The incomes of the business that `msg` names, each with the user who
    /// paid and the ad that was shown, in the order in which they were
    /// booked. An income whose order, ad or user is not there is left out.
    pub fn get_all_incomes(&self, msg: GetAllIncomes) -> (found: Vec<IncomeAllData>)
        ensures
            found@ == self@.get_all_incomes(msg),
    {
        let incomes = self.incomes.rows();
        let mut found: Vec<IncomeAllData> = Vec::new();
        let mut i: usize = 0;
        while i < incomes.len()
            invariant
                i <= incomes.len(),
                incomes@ == self@.incomes,
                found@ == self@.incomes_of(msg.business_id, incomes@.take(i as int)),
            decreases incomes.len() - i,
        {
            assert(incomes@.take(i + 1).drop_last() =~= incomes@.take(i as int));
            match self.income_details(msg.business_id, &incomes[i]) {
                Some(details) => {
                    found.push(details);
                },
                None => {},
            }
            assert(found@ =~= self@.incomes_of(msg.business_id, incomes@.take(i + 1)));
            i += 1;
        }
        assert(incomes@.take(i as int) =~= incomes@);
        found
    }
}

} // verus!
