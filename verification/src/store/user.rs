//! Users: how they are put in and found, and how their picture is changed.

use crate::errors::{seen, AppError, AppErrorType, AppErrorView};
use crate::ids::{fresh_id, is_random_id};
use crate::models::user::User;
use crate::store::{duplicate, duplicate_key, not_found, record_not_found, Store, StoreView};
use crate::table::{find, holds, lemma_find, named};
use vstd::prelude::*;

verus! {

/// Asks for a user to be put in.
#[derive(Debug)]
pub struct CreateUser {
    pub name: String,
    pub email: String,
    pub password: String,
    pub img_url: String,
    pub phone_number: String,
}

/// Asks for the picture of a user to be changed.
#[derive(Debug)]
pub struct ChangeImg {
    pub user_id: u128,
    pub img_url: String,
}

impl CreateUser {
    /// The user asked for, under the identifier `id`, with `password_hash`
    /// in the place of the password.
    pub open spec fn user(self, id: u128, password_hash: String) -> User {
        User {
            user_id: id,
            user_name: self.name,
            img_url: self.img_url,
            email: self.email,
            password: password_hash,
            phone_number: self.phone_number,
        }
    }

    /// Makes the user asked for, under the identifier `id`. The row keeps
    /// `password_hash`; the password itself is dropped.
    pub fn into_user(self, id: u128, password_hash: String) -> (user: User)
        ensures
            user == self.user(id, password_hash),
    {
        User {
            user_id: id,
            user_name: self.name,
            img_url: self.img_url,
            email: self.email,
            password: password_hash,
            phone_number: self.phone_number,
        }
    }
}

impl ChangeImg {
    /// `user` with the new picture.
    pub open spec fn changed(self, user: User) -> User {
        User { img_url: self.img_url, ..user }
    }

    /// Gives `user` the new picture.
    pub fn apply(&self, user: &User) -> (changed: User)
        ensures
            changed == self.changed(*user),
    {
        User {
            user_id: user.user_id,
            user_name: user.user_name.clone(),
            img_url: self.img_url.clone(),
            email: user.email.clone(),
            password: user.password.clone(),
            phone_number: user.phone_number.clone(),
        }
    }
}

impl StoreView {
    /// What putting in the user that `msg` asks for, under the identifier
    /// `id`, leaves in the tables and gives back.
    pub open spec fn create_user(self, msg: CreateUser, id: u128, password_hash: String) -> (
        StoreView,
        Result<User, AppErrorView>,
    ) {
        if holds(self.users, id) {
            (self, Err(AppErrorView::caused(AppErrorType::DbError, duplicate_key())))
        } else {
            (
                StoreView { users: self.users.push(msg.user(id, password_hash)), ..self },
                Ok(msg.user(id, password_hash)),
            )
        }
    }

    /// The tables with the picture of a user changed as `msg` asks; the
    /// tables as they are where the user is not there.
    pub open spec fn change_user_img(self, msg: ChangeImg) -> StoreView {
        match find(self.users, msg.user_id) {
            Some(at) => StoreView {
                users: self.users.update(at, msg.changed(self.users[at])),
                ..self
            },
            None => self,
        }
    }

    /// The user who logs in as `name`: the first of that name, or a failure.
    pub open spec fn user_named(self, name: Seq<char>) -> Result<User, AppErrorView> {
        match named(self.users, name) {
            Some(user) => Ok(user),
            None => Err(AppErrorView::caused(AppErrorType::DbError, record_not_found())),
        }
    }
}

impl Store {
    /// Puts in the user that `msg` asks for, under the identifier `id`, with
    /// `password_hash` in the place of the password. Fails, and changes
    /// nothing, if the identifier is taken.
    pub fn create_user_as(&mut self, msg: CreateUser, id: u128, password_hash: String) -> (made:
        Result<User, AppError>)
        ensures
            (final(self)@, seen(made)) == old(self)@.create_user(msg, id, password_hash),
    {
        let user = msg.into_user(id, password_hash);
        let copy = user.clone();
        if self.users.insert(user) {
            Ok(copy)
        } else {
            Err(duplicate())
        }
    }

    /// Puts in the user that `msg` asks for, under an identifier drawn at
    /// random. Fails, and changes nothing, if that identifier is taken.
    pub fn create_user(&mut self, msg: CreateUser, password_hash: String) -> (made: Result<
        User,
        AppError,
    >)
        ensures
            exists|id: u128|
                is_random_id(id) && #[trigger] old(self)@.create_user(msg, id, password_hash) == (
                    final(self)@,
                    seen(made),
                ),
            match made {
                Ok(user) => is_random_id(user.user_id) && old(self)@.create_user(
                    msg,
                    user.user_id,
                    password_hash,
                ) == (final(self)@, Ok::<User, AppErrorView>(user)),
                Err(error) => final(self)@ == old(self)@ && error@ == AppErrorView::caused(
                    AppErrorType::DbError,
                    duplicate_key(),
                ),
            },
    {
        let id = fresh_id();
        self.create_user_as(msg, id, password_hash)
    }

    /// Changes the picture of a user as `msg` asks, and gives the picture
    /// back. Where the user is not there nothing changes, and the picture
    /// is given back all the same.
    pub fn change_user_img(&mut self, msg: ChangeImg) -> (img_url: String)
        ensures
            final(self)@ == old(self)@.change_user_img(msg),
            img_url == msg.img_url,
    {
        proof {
            lemma_find(self.users@, msg.user_id);
        }
        let changed = match self.users.get(msg.user_id) {
            Some(user) => Some(msg.apply(user)),
            None => None,
        };
        match changed {
            Some(changed) => {
                self.users.replace(changed);
            },
            None => {},
        }
        msg.img_url
    }

    /// The user who logs in as `name`: the first of that name. Fails if
    /// there is none.
    pub fn user_named(&self, name: &String) -> (found: Result<User, AppError>)
        ensures
            seen(found) == self@.user_named(name@),
    {
        match self.users.by_name(name) {
            Some(user) => Ok(user.clone()),
            None => Err(not_found()),
        }
    }
}

} // verus!
