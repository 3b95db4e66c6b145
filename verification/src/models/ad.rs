//! Ads, and the states that an administrator moves them through.

use crate::models::user::User;
use crate::models::Keyed;
use vstd::prelude::*;

verus! {

/// Where an ad stands with the administrators. An ad is made `Unverified`;
/// only an administrator makes it `Approved` or `Rejected`.
#[derive(Debug, Clone, Copy, PartialEq, Eq, Structural)]
pub enum AdStatus {
    Unverified,
    Approved,
    Rejected,
}

impl AdStatus {
    /// The word that stands for the state in an ad's row.
    pub open spec fn name(self) -> Seq<char> {
        match self {
            AdStatus::Unverified => "Unverified"@,
            AdStatus::Approved => "Approved"@,
            AdStatus::Rejected => "Rejected"@,
        }
    }

    pub fn to_string(&self) -> (text: String)
        ensures
            text@ == self.name(),
    {
        match self {
            AdStatus::Unverified => "Unverified".to_string(),
            AdStatus::Approved => "Approved".to_string(),
            AdStatus::Rejected => "Rejected".to_string(),
        }
    }
}

#[derive(Debug)]
pub struct Ad {
    pub ad_id: u128,
    pub ad_name: String,
    pub img_url: String,
    /// The name of an `AdStatus`.
    pub status: String,
    pub user_id: u128,
}

impl Clone for Ad {
    fn clone(&self) -> (copy: Self)
        ensures
            copy == *self,
    {
        Ad {
            ad_id: self.ad_id,
            ad_name: self.ad_name.clone(),
            img_url: self.img_url.clone(),
            status: self.status.clone(),
            user_id: self.user_id,
        }
    }
}

impl Keyed for Ad {
    open spec fn key(&self) -> u128 {
        self.ad_id
    }

    fn id(&self) -> u128 {
        self.ad_id
    }
}

impl Ad {
    /// Whether the ad is in the state `status`.
    pub open spec fn has_status(self, status: AdStatus) -> bool {
        self.status@ == status.name()
    }

    /// Decides `has_status`.
    pub fn is(&self, status: AdStatus) -> (yes: bool)
        ensures
            yes == self.has_status(status),
    {
        self.status == status.to_string()
    }
}

/// An ad together with the user who owns it.
#[derive(Debug)]
pub struct AdAllData {
    pub ad_id: u128,
    pub ad_name: String,
    pub img_url: String,
    pub status: String,
    pub user: User,
}

/// What an ad is made from.
#[derive(Debug)]
pub struct AdData {
    pub ad_name: String,
    pub categories_id: Vec<u128>,
    pub img_url: String,
}

/// What an ad is changed to.
#[derive(Debug)]
pub struct AdDataUpdate {
    pub ad_id: u128,
    pub ad_name: String,
    pub img_url: String,
    pub user_id: u128,
}

/// The state that an administrator gives an ad.
#[derive(Debug, Clone, Copy, PartialEq, Eq, Structural)]
pub struct AdStatusUpdate {
    pub ad_id: u128,
    pub new_status: AdStatus,
}

} // verus!
