//! Orders: bookings of a screen for an ad, for a span of time, at a price.

use crate::models::ad::Ad;
use crate::models::address::Address;
use crate::models::screen::Screen;
use crate::models::user::User;
use crate::models::Keyed;
use vstd::prelude::*;

verus! {

#[derive(Debug, Clone, Copy, PartialEq, Eq, Structural)]
pub struct AdOrder {
    pub ad_order_id: u128,
    pub start_time: i64,
    pub end_time: i64,
    pub price: u64,
    /// Set when the business turns the order down, cleared when it approves
    /// it. An order is made with the flag cleared.
    pub is_rejected: bool,
    pub ad_id: u128,
    pub screen_id: u128,
}

impl Keyed for AdOrder {
    open spec fn key(&self) -> u128 {
        self.ad_order_id
    }

    fn id(&self) -> u128 {
        self.ad_order_id
    }
}

impl AdOrder {
    /// Whether the order is for a span of time that ends after it starts,
    /// at a positive price.
    pub open spec fn well_formed(self) -> bool {
        self.start_time < self.end_time && self.price > 0
    }

    /// Decides `well_formed`.
    pub fn is_well_formed(&self) -> (yes: bool)
        ensures
            yes == self.well_formed(),
    {
        self.start_time < self.end_time && self.price > 0
    }

    /// The same order with its flag set to `is_rejected`.
    pub open spec fn flagged(self, is_rejected: bool) -> AdOrder {
        AdOrder { is_rejected, ..self }
    }

    /// The same order with its flag set to `is_rejected`.
    pub fn with_flag(&self, is_rejected: bool) -> (order: AdOrder)
        ensures
            order == self.flagged(is_rejected),
    {
        AdOrder {
            ad_order_id: self.ad_order_id,
            start_time: self.start_time,
            end_time: self.end_time,
            price: self.price,
            is_rejected,
            ad_id: self.ad_id,
            screen_id: self.screen_id,
        }
    }
}

/// What an order is made from.
#[derive(Debug, Clone, Copy, PartialEq, Eq, Structural)]
pub struct AdOrderData {
    pub start_time: i64,
    pub end_time: i64,
    pub price: u64,
    pub ad_id: u128,
    pub screen_id: u128,
}

/// Names an order.
#[derive(Debug, Clone, Copy, PartialEq, Eq, Structural)]
pub struct AdOrderId {
    pub order_id: u128,
}

/// An order as a business sees it: with the ad, the user who booked, the
/// screen, and the name of the screen's address.
#[derive(Debug)]
pub struct AdOrderAllData {
    pub order_id: u128,
    pub start_time: i64,
    pub end_time: i64,
    pub price: u64,
    pub is_rejected: bool,
    pub address_name: String,
    pub ad: Ad,
    pub client: User,
    pub screen: Screen,
}

impl AdOrderAllData {
    /// The order `ad_order` with the rows that it leads to.
    pub open spec fn joined(
        ad: Ad,
        client: User,
        screen: Screen,
        address: Address,
        ad_order: AdOrder,
    ) -> AdOrderAllData {
        AdOrderAllData {
            order_id: ad_order.ad_order_id,
            start_time: ad_order.start_time,
            end_time: ad_order.end_time,
            price: ad_order.price,
            is_rejected: ad_order.is_rejected,
            address_name: address.address_name,
            ad,
            client,
            screen,
        }
    }

    /// Puts the rows that an order leads to into one value.
    pub fn of(ad: Ad, client: User, screen: Screen, address: Address, ad_order: AdOrder) -> (data:
        Self)
        ensures
            data == Self::joined(ad, client, screen, address, ad_order),
    {
        AdOrderAllData {
            order_id: ad_order.ad_order_id,
            start_time: ad_order.start_time,
            end_time: ad_order.end_time,
            price: ad_order.price,
            is_rejected: ad_order.is_rejected,
            address_name: address.address_name,
            ad,
            client,
            screen,
        }
    }
}

} // verus!
