//! Ads: how they are put in, changed and found.
//!
//! An ad is put in unverified, together with what ties it to its categories:
//! the ad and its ties come together or not at all.

use crate::errors::{seen, AppError, AppErrorType, AppErrorView};
use crate::ids::{fresh_id, is_random_id};
use crate::models::ad::{Ad, AdStatus, AdStatusUpdate};
use crate::models::category::AdCategory;
use crate::store::{duplicate, duplicate_key, not_found, record_not_found, Store, StoreView};
use crate::table::{find, holds, lemma_find};
use vstd::prelude::*;

verus! {

/// Asks for an ad to be put in.
#[derive(Debug)]
pub struct CreateAd {
    pub ad_name: String,
    pub img_url: String,
    pub user_id: u128,
    pub categories_id: Vec<u128>,
}

/// Asks for an ad to be changed.
#[derive(Debug)]
pub struct UpdateAd {
    pub id: u128,
    pub ad_name: String,
    pub img_url: String,
    pub user_id: u128,
}

/// Asks for all ads.
#[derive(Debug, Clone, Copy, PartialEq, Eq, Structural)]
pub struct GetAllAds {}

/// Asks for the ads of a user.
#[derive(Debug, Clone, Copy, PartialEq, Eq, Structural)]
pub struct GetUserAds {
    pub user_id: u128,
}

/// What ties the ad `ad_id` to each of `categories`, in their order.
pub open spec fn ties(ad_id: u128, categories: Seq<u128>) -> Seq<AdCategory> {
    Seq::new(categories.len(), |k: int| AdCategory { category_id: categories[k], ad_id })
}

/// Makes what ties the ad `ad_id` to each of `categories`.
pub fn ties_of(ad_id: u128, categories: &Vec<u128>) -> (made: Vec<AdCategory>)
    ensures
        made@ == ties(ad_id, categories@),
{
    let mut made: Vec<AdCategory> = Vec::new();
    let mut i: usize = 0;
    while i < categories.len()
        invariant
            i <= categories.len(),
            made@ == ties(ad_id, categories@.take(i as int)),
        decreases categories.len() - i,
    {
        made.push(AdCategory { category_id: categories[i], ad_id });
        assert(made@ =~= ties(ad_id, categories@.take(i + 1)));
        i += 1;
    }
    assert(categories@.take(i as int) =~= categories@);
    made
}

impl CreateAd {
    /// Whether the ad asked for names a category. An ad is made with at
    /// least one.
    pub open spec fn names_a_category(self) -> bool {
        self.categories_id@.len() > 0
    }

    /// Makes the ad asked for, under the identifier `id`, and what ties it
    /// to its categories. The ad is made unverified. Fails if the request
    /// names no category.
    pub fn into_ad(self, id: u128) -> (made: Result<(Ad, Vec<AdCategory>), AppError>)
        ensures
            match made {
                Ok((ad, links)) => self.names_a_category() && ad.ad_id == id && ad.ad_name
                    == self.ad_name && ad.img_url == self.img_url && ad.user_id == self.user_id
                    && ad.has_status(AdStatus::Unverified) && links@ == ties(
                    id,
                    self.categories_id@,
                ),
                Err(error) => !self.names_a_category() && error@ == AppErrorView::caused(
                    AppErrorType::DbError,
                    record_not_found(),
                ),
            },
    {
        if self.categories_id.len() == 0 {
            return Err(not_found());
        }
        let links = ties_of(id, &self.categories_id);
        let ad = Ad {
            ad_id: id,
            ad_name: self.ad_name,
            img_url: self.img_url,
            status: AdStatus::Unverified.to_string(),
            user_id: self.user_id,
        };
        Ok((ad, links))
    }
}

impl UpdateAd {
    /// `ad` changed as asked: name, picture and owner are new; what it is
    /// and where it stands with the administrators stay.
    pub open spec fn changed(self, ad: Ad) -> Ad {
        Ad { ad_name: self.ad_name, img_url: self.img_url, user_id: self.user_id, ..ad }
    }

    /// Changes `ad` as asked.
    pub fn apply(self, ad: &Ad) -> (changed: Ad)
        ensures
            changed == self.changed(*ad),
    {
        Ad {
            ad_id: ad.ad_id,
            ad_name: self.ad_name,
            img_url: self.img_url,
            status: ad.status.clone(),
            user_id: self.user_id,
        }
    }
}

impl StoreView {
    /// Why the ad that `msg` asks for cannot be put in under the identifier
    /// `id`, if it cannot: the identifier is taken, or the ad names no
    /// category.
    pub open spec fn create_ad_refusal(self, msg: CreateAd, id: u128) -> Option<AppErrorView> {
        if holds(self.ads, id) {
            Some(AppErrorView::caused(AppErrorType::DbError, duplicate_key()))
        } else if !msg.names_a_category() {
            Some(AppErrorView::caused(AppErrorType::DbError, record_not_found()))
        } else {
            None
        }
    }

    /// Whether `made` and `after` are what putting in the ad that `msg` asks
    /// for, under the identifier `id`, gives back and leaves of these tables:
    /// a failure and the tables as they are where the ad is refused; else the
    /// ad, unverified, with what `msg` says of it, and the tables with the ad
    /// and its ties.
    pub open spec fn creates_ad(
        self,
        msg: CreateAd,
        id: u128,
        made: Result<Ad, AppError>,
        after: StoreView,
    ) -> bool {
        match self.create_ad_refusal(msg, id) {
            Some(refusal) => made matches Err(error) && error@ == refusal && after == self,
            None => made matches Ok(ad) && ad.ad_id == id && ad.ad_name == msg.ad_name
                && ad.img_url == msg.img_url && ad.user_id == msg.user_id && ad.has_status(
                AdStatus::Unverified,
            ) && self.with_ad(msg, ad, after),
        }
    }

    /// Whether `after` is what putting in `ad` for `msg` leaves of these
    /// tables: the ad behind the other ads, its ties behind the other ties,
    /// in the order of the categories, and nothing else changed.
    pub open spec fn with_ad(self, msg: CreateAd, ad: Ad, after: StoreView) -> bool {
        after == (StoreView {
            ads: self.ads.push(ad),
            ad_categories: self.ad_categories + ties(ad.ad_id, msg.categories_id@),
            ..self
        })
    }

    /// What changing an ad as `msg` asks leaves in the tables and gives
    /// back: the changed ad in the place of the old one, or a failure where
    /// the ad is not there.
    pub open spec fn update_ad(self, msg: UpdateAd) -> (StoreView, Result<Ad, AppErrorView>) {
        match find(self.ads, msg.id) {
            Some(at) => (
                StoreView { ads: self.ads.update(at, msg.changed(self.ads[at])), ..self },
                Ok(msg.changed(self.ads[at])),
            ),
            None => (self, Err(AppErrorView::caused(AppErrorType::DbError, record_not_found()))),
        }
    }

    /// The ads of the user `user_id`, in their order.
    pub open spec fn ads_of_user(self, user_id: u128) -> Seq<Ad> {
        self.ads.filter(|ad: Ad| ad.user_id == user_id)
    }
}

impl Store {
    /// Puts in the ad that `msg` asks for, under the identifier `id`, with
    /// what ties it to its categories. The ad is put in unverified.
    ///
    /// Fails, and changes nothing, if the identifier is taken or `msg` names
    /// no category.
    pub fn create_ad_as(&mut self, msg: CreateAd, id: u128) -> (made: Result<Ad, AppError>)
        ensures
            old(self)@.creates_ad(msg, id, made, final(self)@),
    {
        if self.ads.contains(id) {
            return Err(duplicate());
        }
        match msg.into_ad(id) {
            Err(error) => Err(error),
            Ok((ad, links)) => {
                let mut links = links;
                let copy = ad.clone();
                self.ads.insert(ad);
                self.ad_categories.append(&mut links);
                Ok(copy)
            },
        }
    }

    /// Puts in the ad that `msg` asks for, under an identifier drawn at
    /// random, with what ties it to its categories.
    ///
    /// Fails, and changes nothing, if `msg` names no category, or if the
    /// identifier that was drawn is taken.
    pub fn create_ad(&mut self, msg: CreateAd) -> (made: Result<Ad, AppError>)
        ensures
            exists|id: u128|
                is_random_id(id) && #[trigger] old(self)@.creates_ad(msg, id, made, final(self)@),
            match made {
                Ok(ad) => is_random_id(ad.ad_id) && ad.ad_name == msg.ad_name && ad.img_url
                    == msg.img_url && ad.user_id == msg.user_id && ad.has_status(
                    AdStatus::Unverified,
                ) && old(self)@.create_ad_refusal(msg, ad.ad_id) is None && old(self)@.with_ad(
                    msg,
                    ad,
                    final(self)@,
                ),
                Err(error) => final(self)@ == old(self)@ && (error@ == AppErrorView::caused(
                    AppErrorType::DbError,
                    duplicate_key(),
                ) || (!msg.names_a_category() && error@ == AppErrorView::caused(
                    AppErrorType::DbError,
                    record_not_found(),
                ))),
            },
            !msg.names_a_category() ==> made is Err,
    {
        let id = fresh_id();
        self.create_ad_as(msg, id)
    }

    /// Changes an ad as `msg` asks, and gives the ad as it then is. Fails,
    /// and changes nothing, if the ad is not there.
    pub fn update_ad(&mut self, msg: UpdateAd) -> (changed: Result<Ad, AppError>)
        ensures
            (final(self)@, seen(changed)) == old(self)@.update_ad(msg),
    {
        proof {
            lemma_find(self.ads@, msg.id);
        }
        let changed = match self.ads.get(msg.id) {
            Some(ad) => msg.apply(ad),
            None => {
                return Err(not_found());
            },
        };
        let copy = changed.clone();
        self.ads.replace(changed);
        Ok(copy)
    }

    /// Gives an ad the state that an administrator has decided on, and gives
    /// the ad as it then is. Fails, and changes nothing, if the ad is not
    /// there.
    pub fn change_ad_status(&mut self, msg: AdStatusUpdate) -> (changed: Result<Ad, AppError>)
        ensures
            match find(old(self)@.ads, msg.ad_id) {
                Some(at) => changed matches Ok(ad) && ad.has_status(msg.new_status) && ad.ad_id
                    == msg.ad_id && ad.ad_name == old(self)@.ads[at].ad_name && ad.img_url == old(
                    self,
                )@.ads[at].img_url && ad.user_id == old(self)@.ads[at].user_id && final(self)@ == (
                StoreView { ads: old(self)@.ads.update(at, ad), ..old(self)@ }),
                None => changed matches Err(error) && error@ == AppErrorView::caused(
                    AppErrorType::DbError,
                    record_not_found(),
                ) && final(self)@ == old(self)@,
            },
    {
        proof {
            lemma_find(self.ads@, msg.ad_id);
        }
        let changed = match self.ads.get(msg.ad_id) {
            Some(ad) => Ad {
                ad_id: ad.ad_id,
                ad_name: ad.ad_name.clone(),
                img_url: ad.img_url.clone(),
                status: msg.new_status.to_string(),
                user_id: ad.user_id,
            },
            None => {
                return Err(not_found());
            },
        };
        let copy = changed.clone();
        self.ads.replace(changed);
        Ok(copy)
    }

    /// All ads, in the order in which they were put in.
    pub fn get_all_ads(&self, msg: GetAllAds) -> (found: Vec<Ad>)
        ensures
            found@ == self@.ads,
    {
        let ads = self.ads.rows();
        let mut found: Vec<Ad> = Vec::new();
        let mut i: usize = 0;
        while i < ads.len()
            invariant
                i <= ads.len(),
                found@ == ads@.take(i as int),
            decreases ads.len() - i,
        {
            found.push(ads[i].clone());
            assert(found@ =~= ads@.take(i + 1));
            i += 1;
        }
        assert(ads@.take(i as int) =~= ads@);
        found
    }

    /// The ads of the user that `msg` names, in the order in which they were
    /// put in.
    pub fn get_user_ads(&self, msg: GetUserAds) -> (found: Vec<Ad>)
        ensures
            found@ == self@.ads_of_user(msg.user_id),
    {
        let ads = self.ads.rows();
        let ghost keep = |ad: Ad| ad.user_id == msg.user_id;
        let mut found: Vec<Ad> = Vec::new();
        let mut i: usize = 0;
        proof {
            reveal(Seq::filter);
        }
        while i < ads.len()
            invariant
                i <= ads.len(),
                keep == |ad: Ad| ad.user_id == msg.user_id,
                found@ == ads@.take(i as int).filter(keep),
            decreases ads.len() - i,
        {
            proof {
                reveal(Seq::filter);
            }
            assert(ads@.take(i + 1).drop_last() =~= ads@.take(i as int));
            if ads[i].user_id == msg.user_id {
                found.push(ads[i].clone());
            }
            i += 1;
        }
        assert(ads@.take(i as int) =~= ads@);
        found
    }
}

} // verus!
