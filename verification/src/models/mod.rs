//! The rows of the marketplace's tables, and the values built from them.
//!
//! Identifiers are 128-bit numbers; prices and incomes are whole numbers of
//! the smallest unit of the currency; points in time are counted in
//! microseconds.

use vstd::prelude::*;

pub mod ad;
pub mod ad_order;
pub mod address;
pub mod admin;
pub mod business;
pub mod category;
pub mod income;
pub mod payment;
pub mod screen;
pub mod user;

verus! {

/// A row that is found by its identifier.
pub trait Keyed {
    /// The identifier of the row.
    spec fn key(&self) -> u128;

    fn id(&self) -> (id: u128)
        ensures
            id == self.key(),
    ;
}

/// A row that has a name to log in with.
pub trait Named {
    /// The name of the row.
    spec fn name(&self) -> Seq<char>;

    fn is_named(&self, name: &String) -> (yes: bool)
        ensures
            yes == (self.name() == name@),
    ;
}

} // verus!
