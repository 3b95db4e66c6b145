//! Addresses: where screens stand.

use crate::models::Keyed;
use vstd::prelude::*;

verus! {

#[derive(Debug)]
pub struct Address {
    pub address_id: u128,
    pub address_name: String,
    pub business_id: u128,
}

impl Clone for Address {
    fn clone(&self) -> (copy: Self)
        ensures
            copy == *self,
    {
        Address {
            address_id: self.address_id,
            address_name: self.address_name.clone(),
            business_id: self.business_id,
        }
    }
}

impl Keyed for Address {
    open spec fn key(&self) -> u128 {
        self.address_id
    }

    fn id(&self) -> u128 {
        self.address_id
    }
}

/// What an address is made from.
#[derive(Debug)]
pub struct AddressData {
    pub address_name: String,
    pub business_id: u128,
}

} // verus!
