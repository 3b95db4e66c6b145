//! Categories, and what ties businesses and ads to them.

use crate::models::Keyed;
use vstd::prelude::*;

verus! {

#[derive(Debug)]
pub struct Category {
    pub category_id: u128,
    pub category_name: String,
}

impl Clone for Category {
    fn clone(&self) -> (copy: Self)
        ensures
            copy == *self,
    {
        Category { category_id: self.category_id, category_name: self.category_name.clone() }
    }
}

impl Keyed for Category {
    open spec fn key(&self) -> u128 {
        self.category_id
    }

    fn id(&self) -> u128 {
        self.category_id
    }
}

/// What a category is made from.
#[derive(Debug)]
pub struct CategoryData {
    pub category_name: String,
}

/// A business belongs to a category.
#[derive(Debug, Clone, Copy, PartialEq, Eq, Structural)]
pub struct BusinessCategory {
    pub category_id: u128,
    pub business_id: u128,
}

/// An ad belongs to a category.
#[derive(Debug, Clone, Copy, PartialEq, Eq, Structural)]
pub struct AdCategory {
    pub category_id: u128,
    pub ad_id: u128,
}

} // verus!
