//! Businesses: how they are put in, found and shown, and how what is known
//! of them is changed.

use crate::errors::{seen, AppError, AppErrorType, AppErrorView};
use crate::ids::{fresh_id, is_random_id};
use crate::models::business::{Business, BusinessInfo};
use crate::models::category::{BusinessCategory, Category};
use crate::store::screens::GetAllScreensByBusinessId;
use crate::store::{duplicate, duplicate_key, not_found, record_not_found, Store, StoreView};
use crate::table::{find, holds, lemma_find, named, row};
use vstd::prelude::*;

verus! {

/// Asks for all businesses.
#[derive(Debug, Clone, Copy, PartialEq, Eq, Structural)]
pub struct GetAllBusinesses {}

/// Asks for a business as it is shown.
#[derive(Debug, Clone, Copy, PartialEq, Eq, Structural)]
pub struct GetBusinessesInfo {
    pub business_id: u128,
}

/// Asks for the categories of a business.
#[derive(Debug, Clone, Copy, PartialEq, Eq, Structural)]
pub struct GetBusinessCategories {
    pub business_id: u128,
}

/// Asks for a business to be changed to what is shown of it.
#[derive(Debug)]
pub struct ChangeBusinessInfo {
    pub business_info: BusinessInfo,
}

/// Asks for a business to be tied to other categories.
#[derive(Debug)]
pub struct ChangeBusinessCategories {
    pub business_id: u128,
    pub category_ids: Vec<u128>,
}

/// Asks for a business to be put in.
#[derive(Debug)]
pub struct CreateBusiness {
    pub name: String,
    pub password: String,
    pub email: String,
    pub img_url: String,
    pub phone_number: String,
}

/// Asks for the picture of a business to be changed.
#[derive(Debug)]
pub struct ChangeImg {
    pub business_id: u128,
    pub img_url: String,
}

impl CreateBusiness {
    /// The business asked for, under the identifier `id`, with
    /// `password_hash` in the place of the password.
    pub open spec fn business(self, id: u128, password_hash: String) -> Business {
        Business {
            business_id: id,
            business_name: self.name,
            email: self.email,
            password: password_hash,
            phone_number: self.phone_number,
            img_url: self.img_url,
        }
    }

    /// Makes the business asked for, under the identifier `id`. The row
    /// keeps `password_hash`; the password itself is dropped.
    pub fn into_business(self, id: u128, password_hash: String) -> (business: Business)
        ensures
            business == self.business(id, password_hash),
    {
        Business {
            business_id: id,
            business_name: self.name,
            email: self.email,
            password: password_hash,
            phone_number: self.phone_number,
            img_url: self.img_url,
        }
    }
}

impl ChangeImg {
    /// `business` with the new picture.
    pub open spec fn changed(self, business: Business) -> Business {
        Business { img_url: self.img_url, ..business }
    }

    /// Gives `business` the new picture.
    pub fn apply(&self, business: &Business) -> (changed: Business)
        ensures
            changed == self.changed(*business),
    {
        Business {
            business_id: business.business_id,
            business_name: business.business_name.clone(),
            email: business.email.clone(),
            password: business.password.clone(),
            phone_number: business.phone_number.clone(),
            img_url: self.img_url.clone(),
        }
    }
}

impl BusinessInfo {
    /// `business` with the name, the telephone number and the address for
    /// letters that are shown here.
    pub open spec fn changed(self, business: Business) -> Business {
        Business {
            business_name: self.business_name,
            phone_number: self.phone_number,
            email: self.email,
            ..business
        }
    }

    /// What ties the business to the categories that are shown here, in
    /// their order.
    pub open spec fn ties(self) -> Seq<BusinessCategory> {
        Seq::new(
            self.categories@.len(),
            |k: int|
                BusinessCategory {
                    category_id: self.categories@[k].category_id,
                    business_id: self.business_id,
                },
        )
    }

    /// Makes what ties the business to the categories that are shown here.
    pub fn ties_made(&self) -> (made: Vec<BusinessCategory>)
        ensures
            made@ == self.ties(),
    {
        let mut made: Vec<BusinessCategory> = Vec::new();
        let mut k: usize = 0;
        while k < self.categories.len()
            invariant
                k <= self.categories.len(),
                made@ == self.ties().take(k as int),
            decreases self.categories.len() - k,
        {
            made.push(
                BusinessCategory {
                    category_id: self.categories[k].category_id,
                    business_id: self.business_id,
                },
            );
            assert(made@ =~= self.ties().take(k + 1));
            k += 1;
        }
        assert(self.ties().take(k as int) =~= self.ties());
        made
    }

    /// Gives `business` the name, the telephone number and the address for
    /// letters that are shown here.
    pub fn apply(&self, business: &Business) -> (changed: Business)
        ensures
            changed == self.changed(*business),
    {
        Business {
            business_id: business.business_id,
            business_name: self.business_name.clone(),
            email: self.email.clone(),
            password: business.password.clone(),
            phone_number: self.phone_number.clone(),
            img_url: business.img_url.clone(),
        }
    }
}

impl StoreView {
    /// What putting in the business that `msg` asks for, under the
    /// identifier `id`, leaves in the tables and gives back.
    pub open spec fn create_business(
        self,
        msg: CreateBusiness,
        id: u128,
        password_hash: String,
    ) -> (StoreView, Result<Business, AppErrorView>) {
        if holds(self.businesses, id) {
            (self, Err(AppErrorView::caused(AppErrorType::DbError, duplicate_key())))
        } else {
            (
                StoreView {
                    businesses: self.businesses.push(msg.business(id, password_hash)),
                    ..self
                },
                Ok(msg.business(id, password_hash)),
            )
        }
    }

    /// The tables with the picture of a business changed as `msg` asks; the
    /// tables as they are where the business is not there.
    pub open spec fn change_business_img(self, msg: ChangeImg) -> StoreView {
        match find(self.businesses, msg.business_id) {
            Some(at) => StoreView {
                businesses: self.businesses.update(at, msg.changed(self.businesses[at])),
                ..self
            },
            None => self,
        }
    }

    /// The business that logs in as `name`: the first of that name, or a
    /// failure.
    pub open spec fn business_named(self, name: Seq<char>) -> Result<Business, AppErrorView> {
        match named(self.businesses, name) {
            Some(business) => Ok(business),
            None => Err(AppErrorView::caused(AppErrorType::DbError, record_not_found())),
        }
    }

    /// The categories that `links` tie the business `business_id` to, in the
    /// order of the ties; a tie to a category that is not there gives
    /// nothing.
    pub open spec fn categories_tied(self, business_id: u128, links: Seq<BusinessCategory>) -> Seq<
        Category,
    > {
        links.filter_map(
            |link: BusinessCategory|
                if link.business_id == business_id {
                    row(self.categories, link.category_id)
                } else {
                    None
                },
        )
    }

    /// The categories that the business `business_id` belongs to.
    pub open spec fn categories_of_business(self, business_id: u128) -> Seq<Category> {
        self.categories_tied(business_id, self.business_categories)
    }

    /// The ties of all businesses but `business_id`, in their order.
    pub open spec fn ties_of_others(self, business_id: u128) -> Seq<BusinessCategory> {
        self.business_categories.filter(|link: BusinessCategory| link.business_id != business_id)
    }

    /// The tables with a business changed to what `info` shows of it: its
    /// name, telephone number and address for letters are those of `info`,
    /// and its ties to categories are replaced by ties to the categories of
    /// `info`, which come behind the ties of the other businesses. The
    /// tables as they are where the business is not there.
    pub open spec fn change_business_info(self, info: BusinessInfo) -> StoreView {
        match find(self.businesses, info.business_id) {
            Some(at) => StoreView {
                businesses: self.businesses.update(at, info.changed(self.businesses[at])),
                business_categories: self.ties_of_others(info.business_id) + info.ties(),
                ..self
            },
            None => self,
        }
    }
}

impl Store {
    /// Puts in the business that `msg` asks for, under the identifier `id`,
    /// with `password_hash` in the place of the password. Fails, and changes
    /// nothing, if the identifier is taken.
    pub fn create_business_as(
        &mut self,
        msg: CreateBusiness,
        id: u128,
        password_hash: String,
    ) -> (made: Result<Business, AppError>)
        ensures
            (final(self)@, seen(made)) == old(self)@.create_business(msg, id, password_hash),
    {
        let business = msg.into_business(id, password_hash);
        let copy = business.clone();
        if self.businesses.insert(business) {
            Ok(copy)
        } else {
            Err(duplicate())
        }
    }

    /// Puts in the business that `msg` asks for, under an identifier drawn
    /// at random. Fails, and changes nothing, if that identifier is taken.
    pub fn create_business(&mut self, msg: CreateBusiness, password_hash: String) -> (made: Result<
        Business,
        AppError,
    >)
        ensures
            exists|id: u128|
                is_random_id(id) && #[trigger] old(self)@.create_business(
                    msg,
                    id,
                    password_hash,
                ) == (final(self)@, seen(made)),
            match made {
                Ok(business) => is_random_id(business.business_id) && old(self)@.create_business(
                    msg,
                    business.business_id,
                    password_hash,
                ) == (final(self)@, Ok::<Business, AppErrorView>(business)),
                Err(error) => final(self)@ == old(self)@ && error@ == AppErrorView::caused(
                    AppErrorType::DbError,
                    duplicate_key(),
                ),
            },
    {
        let id = fresh_id();
        self.create_business_as(msg, id, password_hash)
    }

    /// Changes the picture of a business as `msg` asks, and gives the
    /// picture back. Where the business is not there nothing changes, and
    /// the picture is given back all the same.
    pub fn change_business_img(&mut self, msg: ChangeImg) -> (img_url: String)
        ensures
            final(self)@ == old(self)@.change_business_img(msg),
            img_url == msg.img_url,
    {
        proof {
            lemma_find(self.businesses@, msg.business_id);
        }
        let changed = match self.businesses.get(msg.business_id) {
            Some(business) => Some(msg.apply(business)),
            None => None,
        };
        match changed {
            Some(changed) => {
                self.businesses.replace(changed);
            },
            None => {},
        }
        msg.img_url
    }

    /// The business that logs in as `name`: the first of that name. Fails
    /// if there is none.
    pub fn business_named(&self, name: &String) -> (found: Result<Business, AppError>)
        ensures
            seen(found) == self@.business_named(name@),
    {
        match self.businesses.by_name(name) {
            Some(business) => Ok(business.clone()),
            None => Err(not_found()),
        }
    }

    /// All businesses, in the order in which they were put in.
    pub fn get_all_businesses(&self, msg: GetAllBusinesses) -> (found: Vec<Business>)
        ensures
            found@ == self@.businesses,
    {
        let businesses = self.businesses.rows();
        let mut found: Vec<Business> = Vec::new();
        let mut i: usize = 0;
        while i < businesses.len()
            invariant
                i <= businesses.len(),
                found@ == businesses@.take(i as int),
            decreases businesses.len() - i,
        {
            found.push(businesses[i].clone());
            assert(found@ =~= businesses@.take(i + 1));
            i += 1;
        }
        assert(businesses@.take(i as int) =~= businesses@);
        found
    }

    /// The categories that the business that `msg` names belongs to, in the
    /// order in which it was tied to them.
    pub fn get_business_categories(&self, msg: GetBusinessCategories) -> (found: Vec<Category>)
        ensures
            found@ == self@.categories_of_business(msg.business_id),
    {
        let mut found: Vec<Category> = Vec::new();
        let mut i: usize = 0;
        while i < self.business_categories.len()
            invariant
                i <= self.business_categories.len(),
                found@ == self@.categories_tied(
                    msg.business_id,
                    self.business_categories@.take(i as int),
                ),
            decreases self.business_categories.len() - i,
        {
            assert(self.business_categories@.take(i + 1).drop_last()
                =~= self.business_categories@.take(i as int));
            let link = self.business_categories[i];
            if link.business_id == msg.business_id {
                match self.categories.get(link.category_id) {
                    Some(category) => {
                        found.push(category.clone());
                    },
                    None => {},
                }
            }
            assert(found@ =~= self@.categories_tied(
                msg.business_id,
                self.business_categories@.take(i + 1),
            ));
            i += 1;
        }
        assert(self.business_categories@.take(i as int) =~= self.business_categories@);
        found
    }

    /// The business that `msg` names as it is shown: with its categories and
    /// its screens. Nothing where the business is not there.
    pub fn get_businesses_info(&self, msg: GetBusinessesInfo) -> (shown: Option<BusinessInfo>)
        ensures
            match row(self@.businesses, msg.business_id) {
                Some(business) => shown matches Some(info) && info.business_id
                    == business.business_id && info.business_name == business.business_name
                    && info.phone_number == business.phone_number && info.email == business.email
                    && info.categories@ == self@.categories_of_business(msg.business_id)
                    && info.screens@ == self@.screens_of_business(msg.business_id),
                None => shown is None,
            },
    {
        match self.businesses.get(msg.business_id) {
            Some(business) => {
                let categories = self.get_business_categories(
                    GetBusinessCategories { business_id: msg.business_id },
                );
                let screens = self.get_all_screens_by_business_id(
                    GetAllScreensByBusinessId { business_id: msg.business_id },
                );
                Some(
                    BusinessInfo {
                        business_id: business.business_id,
                        business_name: business.business_name.clone(),
                        phone_number: business.phone_number.clone(),
                        email: business.email.clone(),
                        categories,
                        screens,
                    },
                )
            },
            None => None,
        }
    }

    /// Changes a business to what `msg` shows of it: gives it the name, the
    /// telephone number and the address for letters shown, and ties it to
    /// the categories shown and to no others. Where the business is not
    /// there nothing changes.
    pub fn change_business_info(&mut self, msg: ChangeBusinessInfo)
        ensures
            final(self)@ == old(self)@.change_business_info(msg.business_info),
    {
        let info = &msg.business_info;
        proof {
            lemma_find(self.businesses@, info.business_id);
        }
        let changed = match self.businesses.get(info.business_id) {
            Some(business) => info.apply(business),
            None => {
                return ;
            },
        };
        self.businesses.replace(changed);
        let ghost others = |link: BusinessCategory| link.business_id != info.business_id;
        let mut links: Vec<BusinessCategory> = Vec::new();
        let mut i: usize = 0;
        proof {
            reveal(Seq::filter);
        }
        while i < self.business_categories.len()
            invariant
                i <= self.business_categories.len(),
                others == |link: BusinessCategory| link.business_id != info.business_id,
                links@ == self.business_categories@.take(i as int).filter(others),
            decreases self.business_categories.len() - i,
        {
            proof {
                reveal(Seq::filter);
            }
            assert(self.business_categories@.take(i + 1).drop_last()
                =~= self.business_categories@.take(i as int));
            if self.business_categories[i].business_id != info.business_id {
                links.push(self.business_categories[i]);
            }
            i += 1;
        }
        assert(self.business_categories@.take(i as int) =~= self.business_categories@);
        let mut made = info.ties_made();
        links.append(&mut made);
        self.business_categories = links;
    }
}

} // verus!
