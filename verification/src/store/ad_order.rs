//! Orders: how they are made, turned down and approved.
//!
//! An order is made only for an approved ad, for a span of time that ends
//! after it starts, at a positive price, and with its flag cleared. The
//! business that owns the screen may turn it down, which sets the flag, and
//! may approve an order that it has turned down, which clears the flag and
//! books the order's price as the business's income. The income and the
//! cleared flag come together or not at all, and an order is booked once:
//! an order that has an income is not approved again.

use crate::errors::{seen, AppError, AppErrorType, AppErrorView};
use crate::ids::{fresh_id, is_random_id};
use crate::models::ad::{Ad, AdStatus};
use crate::models::ad_order::{AdOrder, AdOrderAllData};
use crate::models::income::Income;
use crate::store::{
    check_violation, duplicate, duplicate_key, not_found, record_not_found, violation, Store,
    StoreView,
};
use crate::table::{
    find, holds, lemma_find, lemma_find_after_push, lemma_find_after_update, lemma_found, row,
};
use vstd::prelude::*;

verus! {

/// Asks for an order to be made.
#[derive(Debug, Clone, Copy, PartialEq, Eq, Structural)]
pub struct CreateAdOrder {
    pub start_time: i64,
    pub end_time: i64,
    pub price: u64,
    pub ad_id: u128,
    pub screen_id: u128,
}

/// Asks for the orders on the screens of a business.
#[derive(Debug, Clone, Copy, PartialEq, Eq, Structural)]
pub struct GetBusinessAdOrders {
    pub business_id: u128,
}

/// Asks for an order to be turned down.
#[derive(Debug, Clone, Copy, PartialEq, Eq, Structural)]
pub struct RejectAdOrder {
    pub ad_order_id: u128,
}

/// Asks for an order to be approved.
#[derive(Debug, Clone, Copy, PartialEq, Eq, Structural)]
pub struct ApproveAdOrder {
    pub ad_order_id: u128,
}

impl CreateAdOrder {
    /// Whether the order asked for would be well formed: for a span of time
    /// that ends after it starts, at a positive price.
    pub open spec fn well_formed(self) -> bool {
        self.start_time < self.end_time && self.price > 0
    }

    /// Decides `well_formed`.
    pub fn is_well_formed(&self) -> (yes: bool)
        ensures
            yes == self.well_formed(),
    {
        self.start_time < self.end_time && self.price > 0
    }

    /// The order asked for, under the identifier `id`: not rejected.
    pub open spec fn order(self, id: u128) -> AdOrder {
        AdOrder {
            ad_order_id: id,
            start_time: self.start_time,
            end_time: self.end_time,
            price: self.price,
            is_rejected: false,
            ad_id: self.ad_id,
            screen_id: self.screen_id,
        }
    }

    /// Makes the order asked for, under the identifier `id`.
    pub fn to_order(&self, id: u128) -> (order: AdOrder)
        ensures
            order == self.order(id),
            order.well_formed() == self.well_formed(),
    {
        AdOrder {
            ad_order_id: id,
            start_time: self.start_time,
            end_time: self.end_time,
            price: self.price,
            is_rejected: false,
            ad_id: self.ad_id,
            screen_id: self.screen_id,
        }
    }
}

/// Why no order can be made for `ad`, if none can: the ad is rejected, or it
/// is not approved. An ad whose state is none of the three counts as
/// unverified, as does an ad that no administrator has looked at yet.
pub open spec fn booking_refusal(ad: Ad) -> Option<AppErrorView> {
    if ad.has_status(AdStatus::Approved) {
        None
    } else if ad.has_status(AdStatus::Rejected) {
        Some(AppErrorView::told(AppErrorType::RejectedAdError, "Ad is rejected"@))
    } else {
        Some(AppErrorView::told(AppErrorType::UnverifiedAdError, "Ad is unverified"@))
    }
}

/// Why no order can be made as `msg` asks, whatever the ad, if none can: the
/// span of time does not end after it starts, or the price is not positive.
pub open spec fn window_refusal(msg: CreateAdOrder) -> Option<AppErrorView> {
    if msg.well_formed() {
        None
    } else {
        Some(AppErrorView::caused(AppErrorType::DbError, check_violation()))
    }
}

/// Whether `incomes` holds an income for the order `order_id`.
pub open spec fn booked(incomes: Seq<Income>, order_id: u128) -> bool {
    exists|k: int| 0 <= k < incomes.len() && (#[trigger] incomes[k]).ad_order_id == order_id
}

/// Why no income can be booked for an order, if none can: the order has one.
pub open spec fn second_income_refusal(has_income: bool) -> Option<AppErrorView> {
    if has_income {
        Some(AppErrorView::caused(AppErrorType::DbError, duplicate_key()))
    } else {
        None
    }
}

/// Why the order cannot be turned down, if it cannot: there is none, or it
/// is turned down already.
pub open spec fn rejection_refusal(order: Option<AdOrder>) -> Option<AppErrorView> {
    match order {
        None => Some(AppErrorView::told(AppErrorType::NotFoundError, "Add order not found"@)),
        Some(order) => if order.is_rejected {
            Some(AppErrorView::told(AppErrorType::RejectedAdError, "Add order already rejected"@))
        } else {
            None
        },
    }
}

/// Why the order cannot be approved, if it cannot: there is none, or it is
/// not turned down.
pub open spec fn approval_refusal(order: Option<AdOrder>) -> Option<AppErrorView> {
    match order {
        None => Some(AppErrorView::told(AppErrorType::NotFoundError, "Add order not found"@)),
        Some(order) => if !order.is_rejected {
            Some(AppErrorView::told(AppErrorType::RejectedAdError, "Add order already approved"@))
        } else {
            None
        },
    }
}

/// The income that approving `order` books for the business `business_id`,
/// under the identifier `income_id`: the order's price.
pub open spec fn income_of(order: AdOrder, business_id: u128, income_id: u128) -> Income {
    Income { income_id, income: order.price, business_id, ad_order_id: order.ad_order_id }
}

/// Decides whether an order can be made for `ad`: only if it is approved.
pub fn check_bookable(ad: &Ad) -> (checked: Result<(), AppError>)
    ensures
        match booking_refusal(*ad) {
            Some(refusal) => checked matches Err(error) && error@ == refusal,
            None => checked is Ok,
        },
{
    if ad.is(AdStatus::Approved) {
        Ok(())
    } else if ad.is(AdStatus::Rejected) {
        Err(AppError::with_message("Ad is rejected", AppErrorType::RejectedAdError))
    } else {
        Err(AppError::with_message("Ad is unverified", AppErrorType::UnverifiedAdError))
    }
}

/// Decides whether the order that `msg` asks for is well formed; the store
/// takes no other.
pub fn check_well_formed(msg: &CreateAdOrder) -> (checked: Result<(), AppError>)
    ensures
        match window_refusal(*msg) {
            Some(refusal) => checked matches Err(error) && error@ == refusal,
            None => checked is Ok,
        },
{
    if msg.is_well_formed() {
        Ok(())
    } else {
        Err(violation())
    }
}

/// Decides whether an income can be booked for an order, where the lookup
/// of an income for that order said `has_income`: an order is booked once.
pub fn check_unbooked(has_income: bool) -> (checked: Result<(), AppError>)
    ensures
        match second_income_refusal(has_income) {
            Some(refusal) => checked matches Err(error) && error@ == refusal,
            None => checked is Ok,
        },
{
    if has_income {
        Err(duplicate())
    } else {
        Ok(())
    }
}

/// Decides whether the order that a lookup gave can be turned down, and
/// gives the order as it is to stand then: with its flag set.
pub fn check_rejectable(order: Option<AdOrder>) -> (checked: Result<AdOrder, AppError>)
    ensures
        match rejection_refusal(order) {
            Some(refusal) => checked matches Err(error) && error@ == refusal,
            None => checked == Ok::<AdOrder, AppError>(order->0.flagged(true)),
        },
{
    match order {
        Some(order) => {
            if order.is_rejected {
                Err(
                    AppError::with_message(
                        "Add order already rejected",
                        AppErrorType::RejectedAdError,
                    ),
                )
            } else {
                Ok(order.with_flag(true))
            }
        },
        None => Err(AppError::with_message("Add order not found", AppErrorType::NotFoundError)),
    }
}

/// Decides whether the order that a lookup gave can be approved, and gives
/// the order as it is to stand then: with its flag cleared.
pub fn check_approvable(order: Option<AdOrder>) -> (checked: Result<AdOrder, AppError>)
    ensures
        match approval_refusal(order) {
            Some(refusal) => checked matches Err(error) && error@ == refusal,
            None => checked == Ok::<AdOrder, AppError>(order->0.flagged(false)),
        },
{
    match order {
        Some(order) => {
            if !order.is_rejected {
                Err(
                    AppError::with_message(
                        "Add order already approved",
                        AppErrorType::RejectedAdError,
                    ),
                )
            } else {
                Ok(order.with_flag(false))
            }
        },
        None => Err(AppError::with_message("Add order not found", AppErrorType::NotFoundError)),
    }
}

/// The income that approving `order` books, where the lookup of the
/// business that owns the order's screen gave `business_id`; a failure where
/// it gave none.
pub fn income_for(order: &AdOrder, business_id: Option<u128>, income_id: u128) -> (booked: Result<
    Income,
    AppError,
>)
    ensures
        match business_id {
            Some(business_id) => booked == Ok::<Income, AppError>(
                income_of(*order, business_id, income_id),
            ),
            None => booked matches Err(error) && error@ == AppErrorView::told(
                AppErrorType::NotFoundError,
                "Business id not found"@,
            ),
        },
{
    match business_id {
        Some(business_id) => Ok(
            Income {
                income_id,
                income: order.price,
                business_id,
                ad_order_id: order.ad_order_id,
            },
        ),
        None => Err(AppError::with_message("Business id not found", AppErrorType::NotFoundError)),
    }
}

impl StoreView {
    /// The business that owns the screen `screen_id`: the screen's business,
    /// where the screen and the business are both there.
    pub open spec fn get_business_id_for_screen(self, screen_id: u128) -> Option<u128> {
        match row(self.screens, screen_id) {
            Some(screen) => if holds(self.businesses, screen.business_id) {
                Some(screen.business_id)
            } else {
                None
            },
            None => None,
        }
    }

    /// Why no order can be made as `msg` asks, whatever its identifier: the
    /// ad is not there, or it is not approved, or the order would not be well
    /// formed.
    pub open spec fn create_ad_order_refusal(self, msg: CreateAdOrder) -> Option<AppErrorView> {
        match row(self.ads, msg.ad_id) {
            None => Some(AppErrorView::caused(AppErrorType::DbError, record_not_found())),
            Some(ad) => match booking_refusal(ad) {
                Some(refusal) => Some(refusal),
                None => window_refusal(msg),
            },
        }
    }

    /// What making an order as `msg` asks, under the identifier `id`, leaves
    /// in the tables and gives back. The order is put in if nothing refuses
    /// it and the identifier is free; else nothing changes.
    pub open spec fn create_ad_order(self, msg: CreateAdOrder, id: u128) -> (StoreView, Result<
        AdOrder,
        AppErrorView,
    >) {
        match self.create_ad_order_refusal(msg) {
            Some(refusal) => (self, Err(refusal)),
            None => if holds(self.ad_orders, id) {
                (self, Err(AppErrorView::caused(AppErrorType::DbError, duplicate_key())))
            } else {
                (
                    StoreView { ad_orders: self.ad_orders.push(msg.order(id)), ..self },
                    Ok(msg.order(id)),
                )
            },
        }
    }

    /// The tables with the flag of the order `id` set to `is_rejected`.
    pub open spec fn with_flag(self, id: u128, is_rejected: bool) -> StoreView {
        match find(self.ad_orders, id) {
            Some(at) => StoreView {
                ad_orders: self.ad_orders.update(at, self.ad_orders[at].flagged(is_rejected)),
                ..self
            },
            None => self,
        }
    }

    /// What turning down the order that `msg` names leaves in the tables and
    /// gives back. The flag is set if nothing refuses it; else nothing
    /// changes.
    pub open spec fn reject_ad_order(self, msg: RejectAdOrder) -> (StoreView, Result<
        (),
        AppErrorView,
    >) {
        match rejection_refusal(row(self.ad_orders, msg.ad_order_id)) {
            Some(refusal) => (self, Err(refusal)),
            None => (self.with_flag(msg.ad_order_id, true), Ok(())),
        }
    }

    /// Why the order that `msg` names cannot be approved, whatever the
    /// identifier of the income: the order is not there or not turned down,
    /// or no business is found to own its screen, or the order has an income
    /// already.
    pub open spec fn approve_ad_order_refusal(self, msg: ApproveAdOrder) -> Option<AppErrorView> {
        let order = row(self.ad_orders, msg.ad_order_id);
        match approval_refusal(order) {
            Some(refusal) => Some(refusal),
            None => match self.get_business_id_for_screen(order->0.screen_id) {
                Some(_) => second_income_refusal(booked(self.incomes, msg.ad_order_id)),
                None => Some(
                    AppErrorView::told(AppErrorType::NotFoundError, "Business id not found"@),
                ),
            },
        }
    }

    /// What approving the order that `msg` names, with `income_id` for the
    /// income, leaves in the tables and gives back. If nothing refuses it and
    /// the identifier is free, the income is put in and the flag is cleared;
    /// else nothing changes.
    pub open spec fn approve_ad_order(self, msg: ApproveAdOrder, income_id: u128) -> (
        StoreView,
        Result<(), AppErrorView>,
    ) {
        match self.approve_ad_order_refusal(msg) {
            Some(refusal) => (self, Err(refusal)),
            None => if holds(self.incomes, income_id) {
                (self, Err(AppErrorView::caused(AppErrorType::DbError, duplicate_key())))
            } else {
                let order = row(self.ad_orders, msg.ad_order_id)->0;
                let owner = self.get_business_id_for_screen(order.screen_id)->0;
                (
                    StoreView {
                        incomes: self.incomes.push(income_of(order, owner, income_id)),
                        ..self.with_flag(msg.ad_order_id, false)
                    },
                    Ok(()),
                )
            },
        }
    }
}

impl Store {
    /// The ad `ad_id`, if it is there.
    pub fn get_ad(&self, ad_id: u128) -> (found: Option<&Ad>)
        ensures
            match found {
                Some(ad) => row(self@.ads, ad_id) == Some(*ad),
                None => row(self@.ads, ad_id) is None,
            },
    {
        self.ads.get(ad_id)
    }

    /// The order `order_id`, if it is there.
    pub fn get_ad_order(&self, order_id: u128) -> (found: Option<AdOrder>)
        ensures
            found == row(self@.ad_orders, order_id),
    {
        match self.ad_orders.get(order_id) {
            Some(order) => Some(*order),
            None => None,
        }
    }

    /// Puts `order` behind the other orders. Fails, and changes nothing, if
    /// the order is not well formed or its identifier is taken.
    pub fn insert_ad_order(&mut self, order: AdOrder) -> (put: Result<AdOrder, AppError>)
        ensures
            if !order.well_formed() {
                put matches Err(error) && error@ == AppErrorView::caused(
                    AppErrorType::DbError,
                    check_violation(),
                ) && final(self)@ == old(self)@
            } else if holds(old(self)@.ad_orders, order.ad_order_id) {
                put matches Err(error) && error@ == AppErrorView::caused(
                    AppErrorType::DbError,
                    duplicate_key(),
                ) && final(self)@ == old(self)@
            } else {
                put == Ok::<AdOrder, AppError>(order) && final(self)@ == (StoreView {
                    ad_orders: old(self)@.ad_orders.push(order),
                    ..old(self)@
                })
            },
    {
        if !order.is_well_formed() {
            Err(violation())
        } else if self.ad_orders.insert(order) {
            Ok(order)
        } else {
            Err(duplicate())
        }
    }

    /// Whether the order `order_id` has an income.
    pub fn is_booked(&self, order_id: u128) -> (yes: bool)
        ensures
            yes == booked(self@.incomes, order_id),
    {
        let incomes = self.incomes.rows();
        let mut k: usize = 0;
        while k < incomes.len()
            invariant
                k <= incomes.len(),
                incomes@ == self@.incomes,
                forall|j: int| 0 <= j < k ==> (#[trigger] incomes@[j]).ad_order_id != order_id,
            decreases incomes.len() - k,
        {
            if incomes[k].ad_order_id == order_id {
                assert(incomes@[k as int].ad_order_id == order_id);
                return true;
            }
            k += 1;
        }
        false
    }

    /// Sets the flag of the order `order_id` to `new_value`. Where the order
    /// is not there nothing changes.
    pub fn update_ad_order_rejected_flag(&mut self, order_id: u128, new_value: bool)
        ensures
            final(self)@ == old(self)@.with_flag(order_id, new_value),
    {
        proof {
            lemma_find(self.ad_orders@, order_id);
        }
        match self.get_ad_order(order_id) {
            Some(order) => {
                self.ad_orders.replace(order.with_flag(new_value));
            },
            None => {},
        }
    }

    /// The business that owns the screen `screen_id`: the screen's business,
    /// where the screen and the business are both there.
    pub fn get_business_id_for_screen(&self, screen_id: u128) -> (owner: Option<u128>)
        ensures
            owner == self@.get_business_id_for_screen(screen_id),
    {
        match self.screens.get(screen_id) {
            Some(screen) => {
                if self.businesses.contains(screen.business_id) {
                    Some(screen.business_id)
                } else {
                    None
                }
            },
            None => None,
        }
    }

    /// Puts `income` behind the other incomes. Fails, and changes nothing,
    /// if its order has an income already or its identifier is taken.
    pub fn insert_income(&mut self, income: Income) -> (put: Result<Income, AppError>)
        ensures
            if booked(old(self)@.incomes, income.ad_order_id) || holds(
                old(self)@.incomes,
                income.income_id,
            ) {
                put matches Err(error) && error@ == AppErrorView::caused(
                    AppErrorType::DbError,
                    duplicate_key(),
                ) && final(self)@ == old(self)@
            } else {
                put == Ok::<Income, AppError>(income) && final(self)@ == (StoreView {
                    incomes: old(self)@.incomes.push(income),
                    ..old(self)@
                })
            },
    {
        if self.is_booked(income.ad_order_id) {
            Err(duplicate())
        } else if self.incomes.insert(income) {
            Ok(income)
        } else {
            Err(duplicate())
        }
    }

    /// Makes an order as `msg` asks, under the identifier `id`.
    ///
    /// Fails, and changes nothing, if the ad is not there or is not approved,
    /// if the order would not be well formed, or if the identifier is taken.
    pub fn create_ad_order_as(&mut self, msg: CreateAdOrder, id: u128) -> (made: Result<
        AdOrder,
        AppError,
    >)
        ensures
            (final(self)@, seen(made)) == old(self)@.create_ad_order(msg, id),
    {
        let checked = match self.get_ad(msg.ad_id) {
            Some(ad) => check_bookable(ad),
            None => Err(not_found()),
        };
        match checked {
            Err(error) => Err(error),
            Ok(()) => self.insert_ad_order(msg.to_order(id)),
        }
    }

    /// Makes an order as `msg` asks, under an identifier drawn at random.
    ///
    /// Fails, and changes nothing, if the ad is not there or is not approved,
    /// or if the order would not be well formed. Else the order is made,
    /// unless the identifier that was drawn is taken; where no identifier is
    /// taken, as in a store without orders, it is made.
    pub fn create_ad_order(&mut self, msg: CreateAdOrder) -> (made: Result<AdOrder, AppError>)
        ensures
            exists|id: u128|
                is_random_id(id) && #[trigger] old(self)@.create_ad_order(msg, id) == (
                    final(self)@,
                    seen(made),
                ),
            match made {
                Ok(order) => is_random_id(order.ad_order_id) && old(self)@.create_ad_order(
                    msg,
                    order.ad_order_id,
                ) == (final(self)@, Ok::<AdOrder, AppErrorView>(order)),
                Err(error) => final(self)@ == old(self)@ && error@ == (
                match old(self)@.create_ad_order_refusal(msg) {
                    Some(refusal) => refusal,
                    None => AppErrorView::caused(AppErrorType::DbError, duplicate_key()),
                }),
            },
            old(self)@.create_ad_order_refusal(msg) is Some ==> made is Err,
    {
        let id = fresh_id();
        self.create_ad_order_as(msg, id)
    }

    /// Turns down the order that `msg` names: sets its flag.
    ///
    /// Fails, and changes nothing, if the order is not there or is turned
    /// down already.
    pub fn reject_ad_order(&mut self, msg: RejectAdOrder) -> (done: Result<(), AppError>)
        ensures
            (final(self)@, seen(done)) == old(self)@.reject_ad_order(msg),
    {
        match check_rejectable(self.get_ad_order(msg.ad_order_id)) {
            Err(error) => Err(error),
            Ok(rejected) => {
                self.update_ad_order_rejected_flag(msg.ad_order_id, rejected.is_rejected);
                Ok(())
            },
        }
    }

    /// Approves the order that `msg` names, with `income_id` for the income:
    /// books the order's price as income of the business that owns the
    /// order's screen, and clears the order's flag.
    ///
    /// Fails, and changes nothing, if the order is not there or is not turned
    /// down, if no business is found to own the screen, if the order has an
    /// income already, or if the income's identifier is taken.
    pub fn approve_ad_order_as(&mut self, msg: ApproveAdOrder, income_id: u128) -> (done: Result<
        (),
        AppError,
    >)
        ensures
            (final(self)@, seen(done)) == old(self)@.approve_ad_order(msg, income_id),
    {
        proof {
            lemma_find(self.ad_orders@, msg.ad_order_id);
        }
        let approved = match check_approvable(self.get_ad_order(msg.ad_order_id)) {
            Err(error) => { return Err(error); },
            Ok(approved) => approved,
        };
        let owner = self.get_business_id_for_screen(approved.screen_id);
        let income = match income_for(&approved, owner, income_id) {
            Err(error) => { return Err(error); },
            Ok(income) => income,
        };
        // The income goes in first. Where it is refused, for a second income
        // of the order or for its identifier, nothing has changed yet; where
        // it is taken the flag cannot fail to follow, for the order is there.
        match self.insert_income(income) {
            Err(error) => Err(error),
            Ok(_) => {
                self.update_ad_order_rejected_flag(msg.ad_order_id, approved.is_rejected);
                Ok(())
            },
        }
    }

    /// Approves the order that `msg` names, with an identifier drawn at
    /// random for the income.
    ///
    /// Fails, and changes nothing, if the order is not there or is not turned
    /// down, if no business is found to own the screen, or if the order has
    /// an income already. Else the order is approved, unless the identifier
    /// that was drawn is taken; where no identifier is taken, as in a store
    /// without incomes, it is approved.
    pub fn approve_ad_order(&mut self, msg: ApproveAdOrder) -> (done: Result<(), AppError>)
        ensures
            exists|income_id: u128|
                is_random_id(income_id) && #[trigger] old(self)@.approve_ad_order(msg, income_id)
                    == (final(self)@, seen(done)),
            done matches Err(error) ==> final(self)@ == old(self)@ && error@ == (
            match old(self)@.approve_ad_order_refusal(msg) {
                Some(refusal) => refusal,
                None => AppErrorView::caused(AppErrorType::DbError, duplicate_key()),
            }),
            old(self)@.approve_ad_order_refusal(msg) is Some ==> done is Err,
    {
        let income_id = fresh_id();
        self.approve_ad_order_as(msg, income_id)
    }
}

impl StoreView {
    /// What the business `business_id` sees of `order`: the order with its
    /// ad, the ad's user, its screen and the screen's address, where all four
    /// are there and the screen is the business's; nothing else.
    pub open spec fn order_details(self, business_id: u128, order: AdOrder) -> Option<
        AdOrderAllData,
    > {
        match (row(self.ads, order.ad_id), row(self.screens, order.screen_id)) {
            (Some(ad), Some(screen)) => match (
                row(self.users, ad.user_id),
                row(self.addresses, screen.address_id),
            ) {
                (Some(client), Some(address)) => if screen.business_id == business_id {
                    Some(AdOrderAllData::joined(ad, client, screen, address, order))
                } else {
                    None
                },
                _ => None,
            },
            _ => None,
        }
    }

    /// What the business `business_id` sees of `orders`, in their order.
    pub open spec fn details_of(self, business_id: u128, orders: Seq<AdOrder>) -> Seq<
        AdOrderAllData,
    > {
        orders.filter_map(|order: AdOrder| self.order_details(business_id, order))
    }

    /// The orders on the screens of the business that `msg` names. An order
    /// whose ad, user, screen or address is not there is left out.
    pub open spec fn get_business_ad_orders(self, msg: GetBusinessAdOrders) -> Seq<
        AdOrderAllData,
    > {
        self.details_of(msg.business_id, self.ad_orders)
    }
}

impl Store {
    /// What the business `business_id` sees of `order`.
    pub fn order_details(&self, business_id: u128, order: &AdOrder) -> (details: Option<
        AdOrderAllData,
    >)
        ensures
            details == self@.order_details(business_id, *order),
    {
        let ad = match self.ads.get(order.ad_id) {
            Some(ad) => ad,
            None => { return None; },
        };
        let screen = match self.screens.get(order.screen_id) {
            Some(screen) => screen,
            None => { return None; },
        };
        let client = match self.users.get(ad.user_id) {
            Some(client) => client,
            None => { return None; },
        };
        let address = match self.addresses.get(screen.address_id) {
            Some(address) => address,
            None => { return None; },
        };
        if screen.business_id == business_id {
            Some(
                AdOrderAllData::of(
                    ad.clone(),
                    client.clone(),
                    screen.clone(),
                    address.clone(),
                    *order,
                ),
            )
        } else {
            None
        }
    }

    /// The orders on the screens of the business that `msg` names, each with
    /// its ad, the ad's user, its screen and the name of the screen's
    /// address, in the order in which the orders were made. An order whose
    /// ad, user, screen or address is not there is left out.
    pub fn get_business_ad_orders(&self, msg: GetBusinessAdOrders) -> (found: Vec<AdOrderAllData>)
        ensures
            found@ == self@.get_business_ad_orders(msg),
    {
        let orders = self.ad_orders.rows();
        let mut found: Vec<AdOrderAllData> = Vec::new();
        let mut i: usize = 0;
        while i < orders.len()
            invariant
                i <= orders.len(),
                orders@ == self@.ad_orders,
                found@ == self@.details_of(msg.business_id, orders@.take(i as int)),
            decreases orders.len() - i,
        {
            assert(orders@.take(i + 1).drop_last() =~= orders@.take(i as int));
            match self.order_details(msg.business_id, &orders[i]) {
                Some(details) => {
                    found.push(details);
                },
                None => {},
            }
            assert(found@ =~= self@.details_of(msg.business_id, orders@.take(i + 1)));
            i += 1;
        }
        assert(orders@.take(i as int) =~= orders@);
        found
    }
}

/// Setting the flag of an order changes that order's flag and nothing else:
/// the order is found as before, with the new flag, and every other order
/// is as it was.
pub proof fn lemma_with_flag(store: StoreView, id: u128, is_rejected: bool)
    ensures
        row(store.with_flag(id, is_rejected).ad_orders, id) == match row(store.ad_orders, id) {
            Some(order) => Some(order.flagged(is_rejected)),
            None => None,
        },
        store.with_flag(id, is_rejected).ad_orders.len() == store.ad_orders.len(),
        forall|k: int|
            0 <= k < store.ad_orders.len() && store.ad_orders[k].ad_order_id != id ==> (
            #[trigger] store.with_flag(id, is_rejected).ad_orders[k]) == store.ad_orders[k],
        store.with_flag(id, is_rejected) == (StoreView {
            ad_orders: store.with_flag(id, is_rejected).ad_orders,
            ..store
        }),
{
    lemma_find(store.ad_orders, id);
    match find(store.ad_orders, id) {
        Some(at) => {
            let after = store.ad_orders.update(at, store.ad_orders[at].flagged(is_rejected));
            assert forall|i: int| 0 <= i < at implies (#[trigger] after[i]).ad_order_id != id by {
                assert(after[i] == store.ad_orders[i]);
            }
            lemma_found(after, id, at);
        },
        None => {},
    }
}

/// Setting the flag of an order leaves every order where it was and as it
/// was, but for the flag of that one order.
pub proof fn lemma_only_the_flag_changes(
    store: StoreView,
    id: u128,
    is_rejected: bool,
    other: u128,
)
    ensures
        find(store.with_flag(id, is_rejected).ad_orders, other) == find(store.ad_orders, other),
        row(store.with_flag(id, is_rejected).ad_orders, other) == match row(
            store.ad_orders,
            other,
        ) {
            Some(order) => if other == id {
                Some(order.flagged(is_rejected))
            } else {
                Some(order)
            },
            None => None,
        },
{
    lemma_find(store.ad_orders, id);
    lemma_find(store.ad_orders, other);
    match find(store.ad_orders, id) {
        Some(at) => {
            lemma_find_after_update(
                store.ad_orders,
                at,
                store.ad_orders[at].flagged(is_rejected),
                other,
            );
        },
        None => {},
    }
}

impl StoreView {
    /// Whether every income is the price of an order that is there.
    pub open spec fn incomes_follow_orders(self) -> bool {
        forall|k: int|
            0 <= k < self.incomes.len() ==> (row(
                self.ad_orders,
                (#[trigger] self.incomes[k]).ad_order_id,
            ) matches Some(order) && order.price == self.incomes[k].income)
    }
}

/// Law: no income without an order. If every income is the price of an order
/// that is there, this is still so after an order has been made, turned down
/// or approved, whether the operation succeeded or failed.
pub proof fn lemma_incomes_follow_orders(
    store: StoreView,
    make: CreateAdOrder,
    id: u128,
    reject: RejectAdOrder,
    approve: ApproveAdOrder,
    income_id: u128,
)
    requires
        store.incomes_follow_orders(),
    ensures
        store.create_ad_order(make, id).0.incomes_follow_orders(),
        store.reject_ad_order(reject).0.incomes_follow_orders(),
        store.approve_ad_order(approve, income_id).0.incomes_follow_orders(),
{
    let made = store.create_ad_order(make, id).0;
    assert forall|k: int| 0 <= k < made.incomes.len() implies (row(
        made.ad_orders,
        (#[trigger] made.incomes[k]).ad_order_id,
    ) matches Some(order) && order.price == made.incomes[k].income) by {
        assert(made.incomes[k] == store.incomes[k]);
        lemma_find(store.ad_orders, store.incomes[k].ad_order_id);
        lemma_find_after_push(store.ad_orders, make.order(id), store.incomes[k].ad_order_id);
    }
    let rejected = store.reject_ad_order(reject).0;
    assert forall|k: int| 0 <= k < rejected.incomes.len() implies (row(
        rejected.ad_orders,
        (#[trigger] rejected.incomes[k]).ad_order_id,
    ) matches Some(order) && order.price == rejected.incomes[k].income) by {
        assert(rejected.incomes[k] == store.incomes[k]);
        lemma_only_the_flag_changes(
            store,
            reject.ad_order_id,
            true,
            store.incomes[k].ad_order_id,
        );
    }
    let approved = store.approve_ad_order(approve, income_id).0;
    assert forall|k: int| 0 <= k < approved.incomes.len() implies (row(
        approved.ad_orders,
        (#[trigger] approved.incomes[k]).ad_order_id,
    ) matches Some(order) && order.price == approved.incomes[k].income) by {
        lemma_only_the_flag_changes(
            store,
            approve.ad_order_id,
            false,
            approved.incomes[k].ad_order_id,
        );
        lemma_find(store.ad_orders, approve.ad_order_id);
        if k < store.incomes.len() {
            assert(approved.incomes[k] == store.incomes[k]);
        }
    }
}

/// The names of the three states of an ad differ from each other.
pub proof fn lemma_states_differ()
    ensures
        AdStatus::Unverified.name() != AdStatus::Approved.name(),
        AdStatus::Unverified.name() != AdStatus::Rejected.name(),
        AdStatus::Approved.name() != AdStatus::Rejected.name(),
{
    reveal_strlit("Unverified");
    reveal_strlit("Approved");
    reveal_strlit("Rejected");
    assert("Unverified"@.len() != "Approved"@.len());
    assert("Unverified"@.len() != "Rejected"@.len());
    assert("Approved"@[0] != "Rejected"@[0]);
}

/// Law: an ad that is unverified or rejected is never booked. Whatever else
/// the request holds, making an order for an unverified ad fails as
/// unverified and making one for a rejected ad fails as rejected, and no row
/// is put in. Nor is an ad booked whose state is none of the three.
pub proof fn lemma_ad_gating(store: StoreView, msg: CreateAdOrder, id: u128)
    requires
        row(store.ads, msg.ad_id) is Some,
    ensures
        row(store.ads, msg.ad_id)->0.has_status(AdStatus::Unverified) ==> store.create_ad_order(
            msg,
            id,
        ) == (
            store,
            Err::<AdOrder, AppErrorView>(
                AppErrorView::told(AppErrorType::UnverifiedAdError, "Ad is unverified"@),
            ),
        ),
        row(store.ads, msg.ad_id)->0.has_status(AdStatus::Rejected) ==> store.create_ad_order(
            msg,
            id,
        ) == (
            store,
            Err::<AdOrder, AppErrorView>(
                AppErrorView::told(AppErrorType::RejectedAdError, "Ad is rejected"@),
            ),
        ),
        !row(store.ads, msg.ad_id)->0.has_status(AdStatus::Approved) ==> store.create_ad_order(
            msg,
            id,
        ).0 == store && store.create_ad_order(msg, id).1 is Err,
{
    lemma_states_differ();
}

impl StoreView {
    /// Whether every order is well formed.
    pub open spec fn orders_are_well_formed(self) -> bool {
        forall|k: int|
            0 <= k < self.ad_orders.len() ==> (#[trigger] self.ad_orders[k]).well_formed()
    }

    /// Whether no order has two incomes.
    pub open spec fn one_income_per_order(self) -> bool {
        forall|j: int, k: int|
            0 <= j < k < self.incomes.len() ==> (#[trigger] self.incomes[j]).ad_order_id != (
            #[trigger] self.incomes[k]).ad_order_id
    }
}

/// Law: no order is made that is not well formed. Whatever the ad and the
/// identifier, a request for a span of time that does not end after it
/// starts, or at no price, fails and puts no row in; and if every order is
/// well formed, this is still so after an order has been made, turned down
/// or approved.
pub proof fn lemma_orders_are_well_formed(
    store: StoreView,
    make: CreateAdOrder,
    id: u128,
    reject: RejectAdOrder,
    approve: ApproveAdOrder,
    income_id: u128,
)
    ensures
        store.create_ad_order(make, id).1 is Ok ==> make.well_formed() && make.order(
            id,
        ).well_formed(),
        !make.well_formed() ==> store.create_ad_order(make, id).0 == store,
        store.orders_are_well_formed() ==> {
            &&& store.create_ad_order(make, id).0.orders_are_well_formed()
            &&& store.reject_ad_order(reject).0.orders_are_well_formed()
            &&& store.approve_ad_order(approve, income_id).0.orders_are_well_formed()
        },
{
    if store.orders_are_well_formed() {
        let made = store.create_ad_order(make, id).0;
        assert forall|k: int| 0 <= k < made.ad_orders.len() implies (
        #[trigger] made.ad_orders[k]).well_formed() by {
            if k < store.ad_orders.len() {
                assert(made.ad_orders[k] == store.ad_orders[k]);
            }
        }
        lemma_flag_keeps_orders_well_formed(store, reject.ad_order_id, true);
        lemma_flag_keeps_orders_well_formed(store, approve.ad_order_id, false);
    }
}

/// Setting the flag of an order leaves every order as well formed as it was.
proof fn lemma_flag_keeps_orders_well_formed(store: StoreView, id: u128, is_rejected: bool)
    requires
        store.orders_are_well_formed(),
    ensures
        store.with_flag(id, is_rejected).orders_are_well_formed(),
{
    lemma_find(store.ad_orders, id);
    let after = store.with_flag(id, is_rejected);
    assert forall|k: int| 0 <= k < after.ad_orders.len() implies (
    #[trigger] after.ad_orders[k]).well_formed() by {
        assert(store.ad_orders[k].well_formed());
    }
}

/// Law: an order is booked once. An approval that succeeds leaves the order
/// with an income; an order that has an income is not approved again,
/// whatever has been done to it since, and the attempt changes nothing; and
/// if no order has two incomes, this is still so after an order has been
/// made, turned down or approved.
pub proof fn lemma_one_income_per_order(
    store: StoreView,
    make: CreateAdOrder,
    id: u128,
    reject: RejectAdOrder,
    approve: ApproveAdOrder,
    income_id: u128,
)
    ensures
        store.approve_ad_order(approve, income_id).1 is Ok ==> !booked(
            store.incomes,
            approve.ad_order_id,
        ) && booked(store.approve_ad_order(approve, income_id).0.incomes, approve.ad_order_id),
        booked(store.incomes, approve.ad_order_id) ==> store.approve_ad_order(
            approve,
            income_id,
        ).1 is Err && store.approve_ad_order(approve, income_id).0 == store,
        forall|order_id: u128| #[trigger]
            booked(store.incomes, order_id) ==> {
                &&& booked(store.create_ad_order(make, id).0.incomes, order_id)
                &&& booked(store.reject_ad_order(reject).0.incomes, order_id)
                &&& booked(store.approve_ad_order(approve, income_id).0.incomes, order_id)
            },
        store.one_income_per_order() ==> {
            &&& store.create_ad_order(make, id).0.one_income_per_order()
            &&& store.reject_ad_order(reject).0.one_income_per_order()
            &&& store.approve_ad_order(approve, income_id).0.one_income_per_order()
        },
{
    let approved = store.approve_ad_order(approve, income_id).0;
    lemma_find(store.ad_orders, approve.ad_order_id);
    if store.approve_ad_order(approve, income_id).1 is Ok {
        let last = store.incomes.len() as int;
        assert(approved.incomes[last].ad_order_id == approve.ad_order_id);
    }
    assert forall|order_id: u128| #[trigger] booked(store.incomes, order_id) implies booked(
        approved.incomes,
        order_id,
    ) by {
        let at = choose|at: int|
            0 <= at < store.incomes.len() && (#[trigger] store.incomes[at]).ad_order_id
                == order_id;
        assert(approved.incomes[at].ad_order_id == order_id);
    }
    if store.one_income_per_order() {
        assert forall|j: int, k: int| 0 <= j < k < approved.incomes.len() implies (
        #[trigger] approved.incomes[j]).ad_order_id != (
        #[trigger] approved.incomes[k]).ad_order_id by {
            if k < store.incomes.len() {
                assert(approved.incomes[j] == store.incomes[j]);
                assert(approved.incomes[k] == store.incomes[k]);
            } else {
                assert(approved.incomes[j] == store.incomes[j]);
                assert(!booked(store.incomes, approve.ad_order_id));
            }
        }
    }
}

/// Law: a well-formed order is made for every ad that is there and is
/// approved, if the identifier is free; it is put in with its flag cleared,
/// no income is booked, and nothing else changes.
pub proof fn lemma_order_is_made(store: StoreView, msg: CreateAdOrder, id: u128)
    requires
        row(store.ads, msg.ad_id) matches Some(ad) && ad.has_status(AdStatus::Approved),
        msg.well_formed(),
        !holds(store.ad_orders, id),
    ensures
        store.create_ad_order(msg, id).1 == Ok::<AdOrder, AppErrorView>(msg.order(id)),
        !msg.order(id).is_rejected,
        store.create_ad_order(msg, id).0 == (StoreView {
            ad_orders: store.ad_orders.push(msg.order(id)),
            ..store
        }),
        store.create_ad_order(msg, id).0.incomes == store.incomes,
{
}

/// Law: the flag guards both moves. Turning down an order that is turned
/// down fails as rejected, approving an order that is not turned down fails
/// as rejected, and neither changes anything.
pub proof fn lemma_flag_guards(store: StoreView, id: u128, income_id: u128)
    requires
        row(store.ad_orders, id) is Some,
    ensures
        row(store.ad_orders, id)->0.is_rejected ==> store.reject_ad_order(
            RejectAdOrder { ad_order_id: id },
        ) == (
            store,
            Err::<(), AppErrorView>(
                AppErrorView::told(AppErrorType::RejectedAdError, "Add order already rejected"@),
            ),
        ),
        !row(store.ad_orders, id)->0.is_rejected ==> store.approve_ad_order(
            ApproveAdOrder { ad_order_id: id },
            income_id,
        ) == (
            store,
            Err::<(), AppErrorView>(
                AppErrorView::told(AppErrorType::RejectedAdError, "Add order already approved"@),
            ),
        ),
{
}

/// Law: turning an order down sets its flag and changes nothing else, so
/// that turning it down again fails as rejected.
pub proof fn lemma_rejection(store: StoreView, msg: RejectAdOrder)
    requires
        store.reject_ad_order(msg).1 is Ok,
    ensures
        row(store.ad_orders, msg.ad_order_id) matches Some(order) && !order.is_rejected && row(
            store.reject_ad_order(msg).0.ad_orders,
            msg.ad_order_id,
        ) == Some(order.flagged(true)),
        store.reject_ad_order(msg).0.incomes == store.incomes,
        store.reject_ad_order(msg).0.reject_ad_order(msg) == (
            store.reject_ad_order(msg).0,
            Err::<(), AppErrorView>(
                AppErrorView::told(AppErrorType::RejectedAdError, "Add order already rejected"@),
            ),
        ),
{
    lemma_with_flag(store, msg.ad_order_id, true);
}

/// Law: an approval is whole or it is nothing. Where it succeeds, the order
/// was turned down and is now found with its flag cleared, and exactly one
/// income has come behind the others: the order's price, for the business
/// that owns the order's screen. Where it fails, for whatever reason, the
/// tables are as they were; so where the income's identifier is taken, which
/// is how the income is refused, the order is still turned down.
pub proof fn lemma_approval_is_atomic(store: StoreView, msg: ApproveAdOrder, income_id: u128)
    ensures
        store.approve_ad_order(msg, income_id).1 is Ok ==> {
            &&& row(store.ad_orders, msg.ad_order_id) matches Some(order)
            &&& order.is_rejected
            &&& store.get_business_id_for_screen(order.screen_id) matches Some(owner)
            &&& row(store.approve_ad_order(msg, income_id).0.ad_orders, msg.ad_order_id) == Some(
                order.flagged(false),
            )
            &&& store.approve_ad_order(msg, income_id).0.incomes == store.incomes.push(
                Income {
                    income_id,
                    income: order.price,
                    business_id: owner,
                    ad_order_id: msg.ad_order_id,
                },
            )
        },
        store.approve_ad_order(msg, income_id).1 is Err ==> store.approve_ad_order(
            msg,
            income_id,
        ).0 == store,
        holds(store.incomes, income_id) ==> store.approve_ad_order(msg, income_id).1 is Err,
        store.approve_ad_order(msg, income_id).1 is Ok <==> store.approve_ad_order_refusal(msg)
            is None && !holds(store.incomes, income_id),
{
    lemma_with_flag(store, msg.ad_order_id, false);
    lemma_find(store.ad_orders, msg.ad_order_id);
}

/// Law: an order that was approved cannot be approved again until it is
/// turned down again.
pub proof fn lemma_approval_once(
    store: StoreView,
    msg: ApproveAdOrder,
    income_id: u128,
    next_income_id: u128,
)
    requires
        store.approve_ad_order(msg, income_id).1 is Ok,
    ensures
        store.approve_ad_order(msg, income_id).0.approve_ad_order(msg, next_income_id) == (
            store.approve_ad_order(msg, income_id).0,
            Err::<(), AppErrorView>(
                AppErrorView::told(AppErrorType::RejectedAdError, "Add order already approved"@),
            ),
        ),
{
    lemma_with_flag(store, msg.ad_order_id, false);
}

} // verus!
