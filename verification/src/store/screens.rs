//! Screens: how they are put in, changed and found, and how a budget is
//! spent on them.

use crate::allocator::{optimal_screens, select_optimal_screens, total_price};
use crate::errors::{seen, AppError, AppErrorType, AppErrorView};
use crate::ids::{fresh_id, is_random_id};
use crate::models::category::BusinessCategory;
use crate::models::screen::{Screen, ScreenDataWithAddress};
use crate::store::{duplicate, duplicate_key, not_found, record_not_found, Store, StoreView};
use crate::table::{find, holds, lemma_find, row};
use vstd::prelude::*;

verus! {

/// Asks for a screen to be put in.
#[derive(Debug)]
pub struct CreateScreen {
    pub name: String,
    pub price_per_time: u64,
    pub characteristics: String,
    pub traffic: i32,
    pub business_id: u128,
    pub address_id: u128,
}

/// Asks for a screen to be changed.
#[derive(Debug)]
pub struct UpdateScreen {
    pub id: u128,
    pub name: String,
    pub price_per_time: u64,
    pub characteristics: String,
    pub traffic: i32,
}

/// Asks for all screens.
#[derive(Debug, Clone, Copy, PartialEq, Eq, Structural)]
pub struct GetAllScreens {}

/// Asks for a screen with the name of its address.
#[derive(Debug, Clone, Copy, PartialEq, Eq, Structural)]
pub struct GetScreenDataById {
    pub screen_id: u128,
}

/// Asks for the screens of a business.
#[derive(Debug, Clone, Copy, PartialEq, Eq, Structural)]
pub struct GetAllScreensByBusinessId {
    pub business_id: u128,
}

/// Asks which screens a budget buys among those of businesses that belong
/// to one of the categories named.
#[derive(Debug)]
pub struct GetOptimalScreens {
    pub user_budget: u64,
    pub ad_category_ids: Vec<u128>,
}

impl CreateScreen {
    /// The screen asked for, under the identifier `id`.
    pub open spec fn screen(self, id: u128) -> Screen {
        Screen {
            screen_id: id,
            screen_name: self.name,
            price_per_time: self.price_per_time,
            characteristics: self.characteristics,
            traffic: self.traffic,
            business_id: self.business_id,
            address_id: self.address_id,
        }
    }

    /// Makes the screen asked for, under the identifier `id`.
    pub fn into_screen(self, id: u128) -> (screen: Screen)
        ensures
            screen == self.screen(id),
    {
        Screen {
            screen_id: id,
            screen_name: self.name,
            price_per_time: self.price_per_time,
            characteristics: self.characteristics,
            traffic: self.traffic,
            business_id: self.business_id,
            address_id: self.address_id,
        }
    }
}

impl UpdateScreen {
    /// `screen` changed as asked: name, price, characteristics and traffic
    /// are new; what it is, whose it is and where it stands stay.
    pub open spec fn changed(self, screen: Screen) -> Screen {
        Screen {
            screen_name: self.name,
            price_per_time: self.price_per_time,
            characteristics: self.characteristics,
            traffic: self.traffic,
            ..screen
        }
    }

    /// Changes `screen` as asked.
    pub fn apply(self, screen: &Screen) -> (changed: Screen)
        ensures
            changed == self.changed(*screen),
    {
        Screen {
            screen_id: screen.screen_id,
            screen_name: self.name,
            price_per_time: self.price_per_time,
            characteristics: self.characteristics,
            traffic: self.traffic,
            business_id: screen.business_id,
            address_id: screen.address_id,
        }
    }
}

/// Whether the business `business_id` belongs to one of the categories
/// `ids`.
pub open spec fn belongs_to_one_of(
    links: Seq<BusinessCategory>,
    ids: Seq<u128>,
    business_id: u128,
) -> bool {
    exists|k: int|
        0 <= k < links.len() && (#[trigger] links[k]).business_id == business_id && ids.contains(
            links[k].category_id,
        )
}

/// Decides whether `ids` holds `id`.
pub fn contains_id(ids: &Vec<u128>, id: u128) -> (yes: bool)
    ensures
        yes == ids@.contains(id),
{
    let mut i: usize = 0;
    while i < ids.len()
        invariant
            i <= ids.len(),
            forall|k: int| 0 <= k < i ==> ids@[k] != id,
        decreases ids.len() - i,
    {
        if ids[i] == id {
            return true;
        }
        i += 1;
    }
    false
}

/// Decides `belongs_to_one_of`.
pub fn is_in_one_of(links: &Vec<BusinessCategory>, ids: &Vec<u128>, business_id: u128) -> (yes:
    bool)
    ensures
        yes == belongs_to_one_of(links@, ids@, business_id),
{
    let mut k: usize = 0;
    while k < links.len()
        invariant
            k <= links.len(),
            forall|j: int|
                0 <= j < k ==> !((#[trigger] links@[j]).business_id == business_id
                    && ids@.contains(links@[j].category_id)),
        decreases links.len() - k,
    {
        if links[k].business_id == business_id && contains_id(ids, links[k].category_id) {
            return true;
        }
        k += 1;
    }
    false
}

impl StoreView {
    /// What putting in the screen that `msg` asks for, under the identifier
    /// `id`, leaves in the tables and gives back.
    pub open spec fn create_screen(self, msg: CreateScreen, id: u128) -> (StoreView, Result<
        Screen,
        AppErrorView,
    >) {
        if holds(self.screens, id) {
            (self, Err(AppErrorView::caused(AppErrorType::DbError, duplicate_key())))
        } else {
            (StoreView { screens: self.screens.push(msg.screen(id)), ..self }, Ok(msg.screen(id)))
        }
    }

    /// What changing a screen as `msg` asks leaves in the tables and gives
    /// back: the changed screen in the place of the old one, or a failure
    /// where the screen is not there.
    pub open spec fn update_screen(self, msg: UpdateScreen) -> (StoreView, Result<
        Screen,
        AppErrorView,
    >) {
        match find(self.screens, msg.id) {
            Some(at) => (
                StoreView {
                    screens: self.screens.update(at, msg.changed(self.screens[at])),
                    ..self
                },
                Ok(msg.changed(self.screens[at])),
            ),
            None => (self, Err(AppErrorView::caused(AppErrorType::DbError, record_not_found()))),
        }
    }

    /// The screens of the business `business_id`, in their order.
    pub open spec fn screens_of_business(self, business_id: u128) -> Seq<Screen> {
        self.screens.filter(|screen: Screen| screen.business_id == business_id)
    }

    /// The screen `screen_id` with the name of its address, where both are
    /// there.
    pub open spec fn screen_data(self, screen_id: u128) -> Option<ScreenDataWithAddress> {
        match row(self.screens, screen_id) {
            Some(screen) => match row(self.addresses, screen.address_id) {
                Some(address) => Some(
                    ScreenDataWithAddress {
                        screen_id: screen.screen_id,
                        screen_name: screen.screen_name,
                        price_per_time: screen.price_per_time,
                        characteristics: screen.characteristics,
                        traffic: screen.traffic,
                        address_name: address.address_name,
                        business_id: screen.business_id,
                    },
                ),
                None => None,
            },
            None => None,
        }
    }

    /// The screens of the businesses that belong to one of the categories
    /// `ids`, in their order.
    pub open spec fn screens_in_categories(self, ids: Seq<u128>) -> Seq<Screen> {
        self.screens.filter(
            |screen: Screen| belongs_to_one_of(self.business_categories, ids, screen.business_id),
        )
    }

    /// The screens that the budget of `msg` buys among those of the
    /// businesses that belong to one of the categories of `msg`.
    pub open spec fn get_optimal_screens(self, msg: GetOptimalScreens) -> Seq<Screen> {
        optimal_screens(msg.user_budget, self.screens_in_categories(msg.ad_category_ids@))
    }
}

impl Store {
    /// Puts in the screen that `msg` asks for, under the identifier `id`.
    /// Fails, and changes nothing, if the identifier is taken.
    pub fn create_screen_as(&mut self, msg: CreateScreen, id: u128) -> (made: Result<
        Screen,
        AppError,
    >)
        ensures
            (final(self)@, seen(made)) == old(self)@.create_screen(msg, id),
    {
        let screen = msg.into_screen(id);
        let copy = screen.clone();
        if self.screens.insert(screen) {
            Ok(copy)
        } else {
            Err(duplicate())
        }
    }

    /// Puts in the screen that `msg` asks for, under an identifier drawn at
    /// random. Fails, and changes nothing, if that identifier is taken.
    pub fn create_screen(&mut self, msg: CreateScreen) -> (made: Result<Screen, AppError>)
        ensures
            exists|id: u128|
                is_random_id(id) && #[trigger] old(self)@.create_screen(msg, id) == (
                    final(self)@,
                    seen(made),
                ),
            match made {
                Ok(screen) => is_random_id(screen.screen_id) && old(self)@.create_screen(
                    msg,
                    screen.screen_id,
                ) == (final(self)@, Ok::<Screen, AppErrorView>(screen)),
                Err(error) => final(self)@ == old(self)@ && error@ == AppErrorView::caused(
                    AppErrorType::DbError,
                    duplicate_key(),
                ),
            },
    {
        let id = fresh_id();
        self.create_screen_as(msg, id)
    }

    /// Changes a screen as `msg` asks, and gives the screen as it then is.
    /// Fails, and changes nothing, if the screen is not there.
    pub fn update_screen(&mut self, msg: UpdateScreen) -> (changed: Result<Screen, AppError>)
        ensures
            (final(self)@, seen(changed)) == old(self)@.update_screen(msg),
    {
        proof {
            lemma_find(self.screens@, msg.id);
        }
        let changed = match self.screens.get(msg.id) {
            Some(screen) => msg.apply(screen),
            None => {
                return Err(not_found());
            },
        };
        let copy = changed.clone();
        self.screens.replace(changed);
        Ok(copy)
    }

    /// All screens, in the order in which they were put in.
    pub fn get_all_screens(&self, msg: GetAllScreens) -> (found: Vec<Screen>)
        ensures
            found@ == self@.screens,
    {
        let screens = self.screens.rows();
        let mut found: Vec<Screen> = Vec::new();
        let mut i: usize = 0;
        while i < screens.len()
            invariant
                i <= screens.len(),
                found@ == screens@.take(i as int),
            decreases screens.len() - i,
        {
            found.push(screens[i].clone());
            assert(found@ =~= screens@.take(i + 1));
            i += 1;
        }
        assert(screens@.take(i as int) =~= screens@);
        found
    }

    /// The screens of the business that `msg` names, in the order in which
    /// they were put in.
    pub fn get_all_screens_by_business_id(&self, msg: GetAllScreensByBusinessId) -> (found: Vec<
        Screen,
    >)
        ensures
            found@ == self@.screens_of_business(msg.business_id),
    {
        let screens = self.screens.rows();
        let ghost keep = |screen: Screen| screen.business_id == msg.business_id;
        let mut found: Vec<Screen> = Vec::new();
        let mut i: usize = 0;
        proof {
            reveal(Seq::filter);
        }
        while i < screens.len()
            invariant
                i <= screens.len(),
                keep == |screen: Screen| screen.business_id == msg.business_id,
                found@ == screens@.take(i as int).filter(keep),
            decreases screens.len() - i,
        {
            proof {
                reveal(Seq::filter);
            }
            assert(screens@.take(i + 1).drop_last() =~= screens@.take(i as int));
            if screens[i].business_id == msg.business_id {
                found.push(screens[i].clone());
            }
            i += 1;
        }
        assert(screens@.take(i as int) =~= screens@);
        found
    }

    /// The screen that `msg` names, with the name of its address; nothing
    /// where the screen or its address is not there.
    pub fn get_screen_data_by_id(&self, msg: GetScreenDataById) -> (found: Option<
        ScreenDataWithAddress,
    >)
        ensures
            found == self@.screen_data(msg.screen_id),
    {
        match self.screens.get(msg.screen_id) {
            Some(screen) => match self.addresses.get(screen.address_id) {
                Some(address) => Some(
                    ScreenDataWithAddress::of(screen, address.address_name.clone()),
                ),
                None => None,
            },
            None => None,
        }
    }

    /// The screens of the businesses that belong to one of the categories
    /// `ids`, in the order in which they were put in.
    pub fn query_screens_by_categories(&self, ids: &Vec<u128>) -> (found: Vec<Screen>)
        ensures
            found@ == self@.screens_in_categories(ids@),
    {
        let screens = self.screens.rows();
        let ghost keep = |screen: Screen|
            belongs_to_one_of(self@.business_categories, ids@, screen.business_id);
        let mut found: Vec<Screen> = Vec::new();
        let mut i: usize = 0;
        proof {
            reveal(Seq::filter);
        }
        while i < screens.len()
            invariant
                i <= screens.len(),
                screens@ == self@.screens,
                keep == |screen: Screen|
                    belongs_to_one_of(self@.business_categories, ids@, screen.business_id),
                found@ == screens@.take(i as int).filter(keep),
            decreases screens.len() - i,
        {
            proof {
                reveal(Seq::filter);
            }
            assert(screens@.take(i + 1).drop_last() =~= screens@.take(i as int));
            if is_in_one_of(&self.business_categories, ids, screens[i].business_id) {
                found.push(screens[i].clone());
            }
            i += 1;
        }
        assert(screens@.take(i as int) =~= screens@);
        found
    }

    /// The screens that the budget of `msg` buys among those of the
    /// businesses that belong to one of the categories of `msg`: the
    /// candidates ranked by the traffic that a unit of price buys, and taken
    /// from the top as long as they fit.
    pub fn find_optimal_screens(&self, msg: GetOptimalScreens) -> (chosen: Vec<Screen>)
        ensures
            chosen@ == self@.get_optimal_screens(msg),
            total_price(chosen@) <= msg.user_budget,
    {
        let candidates = self.query_screens_by_categories(&msg.ad_category_ids);
        select_optimal_screens(msg.user_budget, &candidates)
    }
}

} // verus!
