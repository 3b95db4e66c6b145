//! Users: those who own ads and book screens for them.

use crate::models::{Keyed, Named};
use vstd::prelude::*;

verus! {

#[derive(Debug)]
pub struct User {
    pub user_id: u128,
    pub user_name: String,
    pub img_url: String,
    pub email: String,
    /// The hash of the password, never the password.
    pub password: String,
    pub phone_number: String,
}

impl Clone for User {
    fn clone(&self) -> (copy: Self)
        ensures
            copy == *self,
    {
        User {
            user_id: self.user_id,
            user_name: self.user_name.clone(),
            img_url: self.img_url.clone(),
            email: self.email.clone(),
            password: self.password.clone(),
            phone_number: self.phone_number.clone(),
        }
    }
}

impl Keyed for User {
    open spec fn key(&self) -> u128 {
        self.user_id
    }

    fn id(&self) -> u128 {
        self.user_id
    }
}

impl Named for User {
    open spec fn name(&self) -> Seq<char> {
        self.user_name@
    }

    fn is_named(&self, name: &String) -> bool {
        self.user_name == *name
    }
}

/// What a user registers with.
#[derive(Debug)]
pub struct UserData {
    pub user_name: String,
    pub email: String,
    pub password: String,
    pub phone_number: String,
}

} // verus!
