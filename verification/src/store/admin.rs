//! Administrators: how they are put in and found.

use crate::errors::{seen, AppError, AppErrorType, AppErrorView};
use crate::ids::{fresh_id, is_random_id};
use crate::models::admin::Admin;
use crate::store::{duplicate, duplicate_key, not_found, record_not_found, Store, StoreView};
use crate::table::{holds, named};
use vstd::prelude::*;

verus! {

/// Asks for an administrator to be put in.
#[derive(Debug)]
pub struct CreateAdmin {
    pub name: String,
    pub password: String,
}

/// Asks for the picture of an administrator to be changed.
#[derive(Debug)]
pub struct ChangeImg {
    pub user_id: u128,
    pub img_url: String,
}

impl CreateAdmin {
    /// The administrator asked for, under the identifier `id`, with
    /// `password_hash` in the place of the password.
    pub open spec fn admin(self, id: u128, password_hash: String) -> Admin {
        Admin { admin_id: id, admin_name: self.name, password: password_hash }
    }

    /// Makes the administrator asked for, under the identifier `id`. The
    /// row keeps `password_hash`; the password itself is dropped.
    pub fn into_admin(self, id: u128, password_hash: String) -> (admin: Admin)
        ensures
            admin == self.admin(id, password_hash),
    {
        Admin { admin_id: id, admin_name: self.name, password: password_hash }
    }
}

impl StoreView {
    /// What putting in the administrator that `msg` asks for, under the
    /// identifier `id`, leaves in the tables and gives back.
    pub open spec fn create_admin(self, msg: CreateAdmin, id: u128, password_hash: String) -> (
        StoreView,
        Result<Admin, AppErrorView>,
    ) {
        if holds(self.admins, id) {
            (self, Err(AppErrorView::caused(AppErrorType::DbError, duplicate_key())))
        } else {
            (
                StoreView { admins: self.admins.push(msg.admin(id, password_hash)), ..self },
                Ok(msg.admin(id, password_hash)),
            )
        }
    }

    /// The administrator who logs in as `name`: the first of that name, or
    /// a failure.
    pub open spec fn admin_named(self, name: Seq<char>) -> Result<Admin, AppErrorView> {
        match named(self.admins, name) {
            Some(admin) => Ok(admin),
            None => Err(AppErrorView::caused(AppErrorType::DbError, record_not_found())),
        }
    }
}

impl Store {
    /// Puts in the administrator that `msg` asks for, under the identifier
    /// `id`, with `password_hash` in the place of the password. Fails, and
    /// changes nothing, if the identifier is taken.
    pub fn create_admin_as(&mut self, msg: CreateAdmin, id: u128, password_hash: String) -> (made:
        Result<Admin, AppError>)
        ensures
            (final(self)@, seen(made)) == old(self)@.create_admin(msg, id, password_hash),
    {
        let admin = msg.into_admin(id, password_hash);
        let copy = admin.clone();
        if self.admins.insert(admin) {
            Ok(copy)
        } else {
            Err(duplicate())
        }
    }

    /// Puts in the administrator that `msg` asks for, under an identifier
    /// drawn at random. Fails, and changes nothing, if that identifier is
    /// taken.
    pub fn create_admin(&mut self, msg: CreateAdmin, password_hash: String) -> (made: Result<
        Admin,
        AppError,
    >)
        ensures
            exists|id: u128|
                is_random_id(id) && #[trigger] old(self)@.create_admin(msg, id, password_hash) == (
                    final(self)@,
                    seen(made),
                ),
            match made {
                Ok(admin) => is_random_id(admin.admin_id) && old(self)@.create_admin(
                    msg,
                    admin.admin_id,
                    password_hash,
                ) == (final(self)@, Ok::<Admin, AppErrorView>(admin)),
                Err(error) => final(self)@ == old(self)@ && error@ == AppErrorView::caused(
                    AppErrorType::DbError,
                    duplicate_key(),
                ),
            },
    {
        let id = fresh_id();
        self.create_admin_as(msg, id, password_hash)
    }

    /// The administrator who logs in as `name`: the first of that name.
    /// Fails if there is none.
    pub fn admin_named(&self, name: &String) -> (found: Result<Admin, AppError>)
        ensures
            seen(found) == self@.admin_named(name@),
    {
        match self.admins.by_name(name) {
            Some(admin) => Ok(admin.clone()),
            None => Err(not_found()),
        }
    }
}

} // verus!
