//! Screens: the displays that businesses rent out.
//!
//! Prices are whole numbers of the smallest unit of the currency.

use crate::models::Keyed;
use vstd::prelude::*;

verus! {

/// A display that a business rents out.
#[derive(Debug)]
pub struct Screen {
    pub screen_id: u128,
    pub screen_name: String,
    /// Price of one unit of time, in the smallest unit of the currency.
    pub price_per_time: u64,
    pub characteristics: String,
    /// How many people pass the screen in a day.
    pub traffic: i32,
    pub business_id: u128,
    pub address_id: u128,
}

impl Clone for Screen {
    fn clone(&self) -> (copy: Self)
        ensures
            copy == *self,
    {
        Screen {
            screen_id: self.screen_id,
            screen_name: self.screen_name.clone(),
            price_per_time: self.price_per_time,
            characteristics: self.characteristics.clone(),
            traffic: self.traffic,
            business_id: self.business_id,
            address_id: self.address_id,
        }
    }
}

impl Screen {
    /// Whether the screen has a price that a density can be taken of.
    pub open spec fn priced(self) -> bool {
        self.price_per_time > 0
    }

    /// Whether a unit of price buys more traffic on this screen than on
    /// `other`: `traffic / price > other.traffic / other.price`, with both
    /// sides multiplied by both prices.
    pub open spec fn denser_than(self, other: Screen) -> bool {
        self.traffic as int * other.price_per_time as int > other.traffic as int
            * self.price_per_time as int
    }

    /// Decides `denser_than` with 128-bit products, which cannot overflow.
    pub fn is_denser_than(&self, other: &Screen) -> (denser: bool)
        ensures
            denser == self.denser_than(*other),
    {
        let mine: i128 = self.traffic as i128;
        let theirs: i128 = other.traffic as i128;
        let my_price: i128 = self.price_per_time as i128;
        let their_price: i128 = other.price_per_time as i128;
        assert(-0x8000_0000_0000_0000_0000_0000 <= mine * their_price
            <= 0x8000_0000_0000_0000_0000_0000) by (nonlinear_arith)
            requires
                -0x8000_0000 <= mine <= 0x8000_0000,
                0 <= their_price <= 0x1_0000_0000_0000_0000,
        ;
        assert(-0x8000_0000_0000_0000_0000_0000 <= theirs * my_price
            <= 0x8000_0000_0000_0000_0000_0000) by (nonlinear_arith)
            requires
                -0x8000_0000 <= theirs <= 0x8000_0000,
                0 <= my_price <= 0x1_0000_0000_0000_0000,
        ;
        mine * their_price > theirs * my_price
    }
}

impl Keyed for Screen {
    open spec fn key(&self) -> u128 {
        self.screen_id
    }

    fn id(&self) -> u128 {
        self.screen_id
    }
}

/// What a screen is made from: all of a screen but its identifier.
#[derive(Debug)]
pub struct ScreenData {
    pub screen_name: String,
    pub price_per_time: u64,
    pub characteristics: String,
    pub traffic: i32,
    pub business_id: u128,
    pub address_id: u128,
}

/// A screen with the name of its address in place of the address's
/// identifier.
#[derive(Debug)]
pub struct ScreenDataWithAddress {
    pub screen_id: u128,
    pub screen_name: String,
    pub price_per_time: u64,
    pub characteristics: String,
    pub traffic: i32,
    pub address_name: String,
    pub business_id: u128,
}

impl ScreenDataWithAddress {
    /// `screen` with `address_name` for its address.
    pub fn of(screen: &Screen, address_name: String) -> (data: Self)
        ensures
            data == (ScreenDataWithAddress {
                screen_id: screen.screen_id,
                screen_name: screen.screen_name,
                price_per_time: screen.price_per_time,
                characteristics: screen.characteristics,
                traffic: screen.traffic,
                address_name,
                business_id: screen.business_id,
            }),
    {
        ScreenDataWithAddress {
            screen_id: screen.screen_id,
            screen_name: screen.screen_name.clone(),
            price_per_time: screen.price_per_time,
            characteristics: screen.characteristics.clone(),
            traffic: screen.traffic,
            address_name,
            business_id: screen.business_id,
        }
    }
}

} // verus!
