//! The marketplace's tables, held in memory, and the operations on them.
//!
//! A table refuses a second row under an identifier that it already holds,
//! and checks nothing else. The operations of the store refuse, beyond that,
//! an order that is not well formed and a second income for one order.
//! References from one table to another are not checked when a row is put
//! in: an order may name a screen that is not there, and the operations say
//! what they do then.

use crate::errors::{AppError, AppErrorType, AppErrorView};
use crate::models::ad::Ad;
use crate::models::ad_order::AdOrder;
use crate::models::address::Address;
use crate::models::admin::Admin;
use crate::models::business::Business;
use crate::models::category::{AdCategory, BusinessCategory, Category};
use crate::models::income::Income;
use crate::models::screen::Screen;
use crate::models::user::User;
use crate::table::Table;
use vstd::prelude::*;

pub mod ad;
pub mod ad_order;
pub mod address;
pub mod admin;
pub mod business;
pub mod category;
pub mod income;
pub mod screens;
pub mod user;

verus! {

/// The tables of the marketplace.
pub struct Store {
    pub users: Table<User>,
    pub admins: Table<Admin>,
    pub businesses: Table<Business>,
    pub categories: Table<Category>,
    pub business_categories: Vec<BusinessCategory>,
    pub addresses: Table<Address>,
    pub screens: Table<Screen>,
    pub ads: Table<Ad>,
    pub ad_categories: Vec<AdCategory>,
    pub ad_orders: Table<AdOrder>,
    pub incomes: Table<Income>,
}

/// What the tables hold: the rows of each, in the order in which they came.
pub struct StoreView {
    pub users: Seq<User>,
    pub admins: Seq<Admin>,
    pub businesses: Seq<Business>,
    pub categories: Seq<Category>,
    pub business_categories: Seq<BusinessCategory>,
    pub addresses: Seq<Address>,
    pub screens: Seq<Screen>,
    pub ads: Seq<Ad>,
    pub ad_categories: Seq<AdCategory>,
    pub ad_orders: Seq<AdOrder>,
    pub incomes: Seq<Income>,
}

impl View for Store {
    type V = StoreView;

    open spec fn view(&self) -> StoreView {
        StoreView {
            users: self.users@,
            admins: self.admins@,
            businesses: self.businesses@,
            categories: self.categories@,
            business_categories: self.business_categories@,
            addresses: self.addresses@,
            screens: self.screens@,
            ads: self.ads@,
            ad_categories: self.ad_categories@,
            ad_orders: self.ad_orders@,
            incomes: self.incomes@,
        }
    }
}

impl StoreView {
    /// Tables without rows.
    pub open spec fn empty() -> StoreView {
        StoreView {
            users: Seq::empty(),
            admins: Seq::empty(),
            businesses: Seq::empty(),
            categories: Seq::empty(),
            business_categories: Seq::empty(),
            addresses: Seq::empty(),
            screens: Seq::empty(),
            ads: Seq::empty(),
            ad_categories: Seq::empty(),
            ad_orders: Seq::empty(),
            incomes: Seq::empty(),
        }
    }
}

/// What the failure of a lookup that had to find a row gives as its cause.
pub open spec fn record_not_found() -> Seq<char> {
    "Record not found"@
}

/// What a table gives as the cause when it refuses a row whose identifier it
/// already holds.
pub open spec fn duplicate_key() -> Seq<char> {
    "duplicate key value violates unique constraint"@
}

/// The failure of a lookup that had to find a row.
pub fn not_found() -> (failure: AppError)
    ensures
        failure@ == AppErrorView::caused(AppErrorType::DbError, record_not_found()),
{
    AppError::with_cause("Record not found".to_string(), AppErrorType::DbError)
}

/// The failure of a table to take a row whose identifier it already holds.
pub fn duplicate() -> (failure: AppError)
    ensures
        failure@ == AppErrorView::caused(AppErrorType::DbError, duplicate_key()),
{
    AppError::with_cause(
        "duplicate key value violates unique constraint".to_string(),
        AppErrorType::DbError,
    )
}

/// What the store gives as the cause when it refuses a row that does not
/// keep to what is required of its values.
pub open spec fn check_violation() -> Seq<char> {
    "new row violates check constraint"@
}

/// The failure of the store to take a row that does not keep to what is
/// required of its values.
pub fn violation() -> (failure: AppError)
    ensures
        failure@ == AppErrorView::caused(AppErrorType::DbError, check_violation()),
{
    AppError::with_cause("new row violates check constraint".to_string(), AppErrorType::DbError)
}

impl Store {
    /// A store with empty tables.
    pub fn new() -> (store: Self)
        ensures
            store@ == StoreView::empty(),
    {
        Store {
            users: Table::new(),
            admins: Table::new(),
            businesses: Table::new(),
            categories: Table::new(),
            business_categories: Vec::new(),
            addresses: Table::new(),
            screens: Table::new(),
            ads: Table::new(),
            ad_categories: Vec::new(),
            ad_orders: Table::new(),
            incomes: Table::new(),
        }
    }
}

} // verus!
