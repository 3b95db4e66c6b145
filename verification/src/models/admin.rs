//! Administrators: those who verify ads and set up screens.

use crate::models::{Keyed, Named};
use vstd::prelude::*;

verus! {

#[derive(Debug)]
pub struct Admin {
    pub admin_id: u128,
    pub admin_name: String,
    /// The hash of the password, never the password.
    pub password: String,
}

impl Clone for Admin {
    fn clone(&self) -> (copy: Self)
        ensures
            copy == *self,
    {
        Admin {
            admin_id: self.admin_id,
            admin_name: self.admin_name.clone(),
            password: self.password.clone(),
        }
    }
}

impl Keyed for Admin {
    open spec fn key(&self) -> u128 {
        self.admin_id
    }

    fn id(&self) -> u128 {
        self.admin_id
    }
}

impl Named for Admin {
    open spec fn name(&self) -> Seq<char> {
        self.admin_name@
    }

    fn is_named(&self, name: &String) -> bool {
        self.admin_name == *name
    }
}

/// What an administrator registers with.
#[derive(Debug)]
pub struct AdminData {
    pub admin_name: String,
    pub password: String,
}

} // verus!
