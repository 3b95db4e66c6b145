//! Addresses: how they are put in, renamed and listed.

use crate::errors::{seen, AppError, AppErrorType, AppErrorView};
use crate::ids::{fresh_id, is_random_id};
use crate::models::address::Address;
use crate::store::{duplicate, duplicate_key, not_found, record_not_found, Store, StoreView};
use crate::table::{find, holds, lemma_find};
use vstd::prelude::*;

verus! {

/// Asks for an address to be put in.
#[derive(Debug)]
pub struct CreateAddress {
    pub name: String,
    pub business_id: u128,
}

/// Asks for an address to be renamed.
#[derive(Debug)]
pub struct UpdateAddress {
    pub id: u128,
    pub name: String,
}

/// Asks for all addresses.
#[derive(Debug, Clone, Copy, PartialEq, Eq, Structural)]
pub struct GetAllAddresses {}

impl CreateAddress {
    /// The address asked for, under the identifier `id`.
    pub open spec fn address(self, id: u128) -> Address {
        Address { address_id: id, address_name: self.name, business_id: self.business_id }
    }

    /// Makes the address asked for, under the identifier `id`.
    pub fn into_address(self, id: u128) -> (address: Address)
        ensures
            address == self.address(id),
    {
        Address { address_id: id, address_name: self.name, business_id: self.business_id }
    }
}

impl UpdateAddress {
    /// `address` under its new name.
    pub open spec fn changed(self, address: Address) -> Address {
        Address { address_name: self.name, ..address }
    }

    /// Renames `address` as asked.
    pub fn apply(self, address: &Address) -> (changed: Address)
        ensures
            changed == self.changed(*address),
    {
        Address {
            address_id: address.address_id,
            address_name: self.name,
            business_id: address.business_id,
        }
    }
}

impl StoreView {
    /// What putting in the address that `msg` asks for, under the identifier
    /// `id`, leaves in the tables and gives back.
    pub open spec fn create_address(self, msg: CreateAddress, id: u128) -> (StoreView, Result<
        Address,
        AppErrorView,
    >) {
        if holds(self.addresses, id) {
            (self, Err(AppErrorView::caused(AppErrorType::DbError, duplicate_key())))
        } else {
            (
                StoreView { addresses: self.addresses.push(msg.address(id)), ..self },
                Ok(msg.address(id)),
            )
        }
    }

    /// What renaming an address as `msg` asks leaves in the tables and gives
    /// back: the renamed address in the place of the old one, or a failure
    /// where the address is not there.
    pub open spec fn update_address(self, msg: UpdateAddress) -> (StoreView, Result<
        Address,
        AppErrorView,
    >) {
        match find(self.addresses, msg.id) {
            Some(at) => (
                StoreView {
                    addresses: self.addresses.update(at, msg.changed(self.addresses[at])),
                    ..self
                },
                Ok(msg.changed(self.addresses[at])),
            ),
            None => (self, Err(AppErrorView::caused(AppErrorType::DbError, record_not_found()))),
        }
    }
}

impl Store {
    /// Puts in the address that `msg` asks for, under the identifier `id`.
    /// Fails, and changes nothing, if the identifier is taken.
    pub fn create_address_as(&mut self, msg: CreateAddress, id: u128) -> (made: Result<
        Address,
        AppError,
    >)
        ensures
            (final(self)@, seen(made)) == old(self)@.create_address(msg, id),
    {
        let address = msg.into_address(id);
        let copy = address.clone();
        if self.addresses.insert(address) {
            Ok(copy)
        } else {
            Err(duplicate())
        }
    }

    /// Puts in the address that `msg` asks for, under an identifier drawn at
    /// random. Fails, and changes nothing, if that identifier is taken.
    pub fn create_address(&mut self, msg: CreateAddress) -> (made: Result<Address, AppError>)
        ensures
            exists|id: u128|
                is_random_id(id) && #[trigger] old(self)@.create_address(msg, id) == (
                    final(self)@,
                    seen(made),
                ),
            match made {
                Ok(address) => is_random_id(address.address_id) && old(self)@.create_address(
                    msg,
                    address.address_id,
                ) == (final(self)@, Ok::<Address, AppErrorView>(address)),
                Err(error) => final(self)@ == old(self)@ && error@ == AppErrorView::caused(
                    AppErrorType::DbError,
                    duplicate_key(),
                ),
            },
    {
        let id = fresh_id();
        self.create_address_as(msg, id)
    }

    /// Renames an address as `msg` asks, and gives the address as it then
    /// is. Fails, and changes nothing, if the address is not there.
    pub fn update_address(&mut self, msg: UpdateAddress) -> (changed: Result<Address, AppError>)
        ensures
            (final(self)@, seen(changed)) == old(self)@.update_address(msg),
    {
        proof {
            lemma_find(self.addresses@, msg.id);
        }
        let changed = match self.addresses.get(msg.id) {
            Some(address) => msg.apply(address),
            None => {
                return Err(not_found());
            },
        };
        let copy = changed.clone();
        self.addresses.replace(changed);
        Ok(copy)
    }

    /// All addresses, in the order in which they were put in.
    pub fn get_all_addresses(&self, msg: GetAllAddresses) -> (found: Vec<Address>)
        ensures
            found@ == self@.addresses,
    {
        let addresses = self.addresses.rows();
        let mut found: Vec<Address> = Vec::new();
        let mut i: usize = 0;
        while i < addresses.len()
            invariant
                i <= addresses.len(),
                found@ == addresses@.take(i as int),
            decreases addresses.len() - i,
        {
            found.push(addresses[i].clone());
            assert(found@ =~= addresses@.take(i + 1));
            i += 1;
        }
        assert(addresses@.take(i as int) =~= addresses@);
        found
    }
}

} // verus!
