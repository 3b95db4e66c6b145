//! Businesses: the owners of screens.

use crate::models::category::Category;
use crate::models::screen::Screen;
use crate::models::{Keyed, Named};
use vstd::prelude::*;

verus! {

#[derive(Debug)]
pub struct Business {
    pub business_id: u128,
    pub business_name: String,
    pub email: String,
    /// The hash of the password, never the password.
    pub password: String,
    pub phone_number: String,
    pub img_url: String,
}

impl Clone for Business {
    fn clone(&self) -> (copy: Self)
        ensures
            copy == *self,
    {
        Business {
            business_id: self.business_id,
            business_name: self.business_name.clone(),
            email: self.email.clone(),
            password: self.password.clone(),
            phone_number: self.phone_number.clone(),
            img_url: self.img_url.clone(),
        }
    }
}

impl Keyed for Business {
    open spec fn key(&self) -> u128 {
        self.business_id
    }

    fn id(&self) -> u128 {
        self.business_id
    }
}

impl Named for Business {
    open spec fn name(&self) -> Seq<char> {
        self.business_name@
    }

    fn is_named(&self, name: &String) -> bool {
        self.business_name == *name
    }
}

/// What a business registers with.
#[derive(Debug)]
pub struct BusinessData {
    pub business_name: String,
    pub phone_number: String,
    pub email: String,
    pub password: String,
}

/// A business as it is shown: what it is called, how to reach it, the
/// categories it belongs to and the screens it owns.
#[derive(Debug)]
pub struct BusinessInfo {
    pub business_id: u128,
    pub business_name: String,
    pub phone_number: String,
    pub email: String,
    pub categories: Vec<Category>,
    pub screens: Vec<Screen>,
}

} // verus!
