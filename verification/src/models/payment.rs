//! Payments: what a user has paid for an order.

use crate::models::Keyed;
use vstd::prelude::*;

verus! {

#[derive(Debug, Clone, Copy, PartialEq, Eq, Structural)]
pub struct Payment {
    pub payment_id: u128,
    pub price: u64,
    pub user_id: u128,
    pub order_id: u128,
}

impl Keyed for Payment {
    open spec fn key(&self) -> u128 {
        self.payment_id
    }

    fn id(&self) -> u128 {
        self.payment_id
    }
}

/// What a payment is made from.
#[derive(Debug, Clone, Copy, PartialEq, Eq, Structural)]
pub struct PaymentData {
    pub price: u64,
    pub user_id: u128,
    pub order_id: u128,
}

impl PaymentData {
    /// The payment asked for, under the identifier `id`.
    pub fn to_payment(&self, id: u128) -> (payment: Payment)
        ensures
            payment == (Payment {
                payment_id: id,
                price: self.price,
                user_id: self.user_id,
                order_id: self.order_id,
            }),
    {
        Payment {
            payment_id: id,
            price: self.price,
            user_id: self.user_id,
            order_id: self.order_id,
        }
    }
}

} // verus!
