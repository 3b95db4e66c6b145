//! Categories: how they are put in, renamed and listed.

use crate::errors::{seen, AppError, AppErrorType, AppErrorView};
use crate::ids::{fresh_id, is_random_id};
use crate::models::category::Category;
use crate::store::{duplicate, duplicate_key, not_found, record_not_found, Store, StoreView};
use crate::table::{find, holds, lemma_find};
use vstd::prelude::*;

verus! {

/// Asks for a category to be put in.
#[derive(Debug)]
pub struct CreateCategory {
    pub name: String,
}

/// Asks for a category to be renamed.
#[derive(Debug)]
pub struct UpdateCategory {
    pub id: u128,
    pub name: String,
}

/// Asks for all categories.
#[derive(Debug, Clone, Copy, PartialEq, Eq, Structural)]
pub struct GetAllCategories {}

impl CreateCategory {
    /// The category asked for, under the identifier `id`.
    pub open spec fn category(self, id: u128) -> Category {
        Category { category_id: id, category_name: self.name }
    }

    /// Makes the category asked for, under the identifier `id`.
    pub fn into_category(self, id: u128) -> (category: Category)
        ensures
            category == self.category(id),
    {
        Category { category_id: id, category_name: self.name }
    }
}

impl UpdateCategory {
    /// `category` under its new name.
    pub open spec fn changed(self, category: Category) -> Category {
        Category { category_name: self.name, ..category }
    }

    /// Renames `category` as asked.
    pub fn apply(self, category: &Category) -> (changed: Category)
        ensures
            changed == self.changed(*category),
    {
        Category { category_id: category.category_id, category_name: self.name }
    }
}

impl StoreView {
    /// What putting in the category that `msg` asks for, under the
    /// identifier `id`, leaves in the tables and gives back.
    pub open spec fn create_category(self, msg: CreateCategory, id: u128) -> (StoreView, Result<
        Category,
        AppErrorView,
    >) {
        if holds(self.categories, id) {
            (self, Err(AppErrorView::caused(AppErrorType::DbError, duplicate_key())))
        } else {
            (
                StoreView { categories: self.categories.push(msg.category(id)), ..self },
                Ok(msg.category(id)),
            )
        }
    }

    /// What renaming a category as `msg` asks leaves in the tables and gives
    /// back: the renamed category in the place of the old one, or a failure
    /// where the category is not there.
    pub open spec fn update_category(self, msg: UpdateCategory) -> (StoreView, Result<
        Category,
        AppErrorView,
    >) {
        match find(self.categories, msg.id) {
            Some(at) => (
                StoreView {
                    categories: self.categories.update(at, msg.changed(self.categories[at])),
                    ..self
                },
                Ok(msg.changed(self.categories[at])),
            ),
            None => (self, Err(AppErrorView::caused(AppErrorType::DbError, record_not_found()))),
        }
    }
}

impl Store {
    /// Puts in the category that `msg` asks for, under the identifier `id`.
    /// Fails, and changes nothing, if the identifier is taken.
    pub fn create_category_as(&mut self, msg: CreateCategory, id: u128) -> (made: Result<
        Category,
        AppError,
    >)
        ensures
            (final(self)@, seen(made)) == old(self)@.create_category(msg, id),
    {
        let category = msg.into_category(id);
        let copy = category.clone();
        if self.categories.insert(category) {
            Ok(copy)
        } else {
            Err(duplicate())
        }
    }

    /// Puts in the category that `msg` asks for, under an identifier drawn
    /// at random. Fails, and changes nothing, if that identifier is taken.
    pub fn create_category(&mut self, msg: CreateCategory) -> (made: Result<Category, AppError>)
        ensures
            exists|id: u128|
                is_random_id(id) && #[trigger] old(self)@.create_category(msg, id) == (
                    final(self)@,
                    seen(made),
                ),
            match made {
                Ok(category) => is_random_id(category.category_id) && old(self)@.create_category(
                    msg,
                    category.category_id,
                ) == (final(self)@, Ok::<Category, AppErrorView>(category)),
                Err(error) => final(self)@ == old(self)@ && error@ == AppErrorView::caused(
                    AppErrorType::DbError,
                    duplicate_key(),
                ),
            },
    {
        let id = fresh_id();
        self.create_category_as(msg, id)
    }

    /// Renames a category as `msg` asks, and gives the category as it then
    /// is. Fails, and changes nothing, if the category is not there.
    pub fn update_category(&mut self, msg: UpdateCategory) -> (changed: Result<Category, AppError>)
        ensures
            (final(self)@, seen(changed)) == old(self)@.update_category(msg),
    {
        proof {
            lemma_find(self.categories@, msg.id);
        }
        let changed = match self.categories.get(msg.id) {
            Some(category) => msg.apply(category),
            None => {
                return Err(not_found());
            },
        };
        let copy = changed.clone();
        self.categories.replace(changed);
        Ok(copy)
    }

    /// All categories, in the order in which they were put in.
    pub fn get_all_categories(&self, msg: GetAllCategories) -> (found: Vec<Category>)
        ensures
            found@ == self@.categories,
    {
        let categories = self.categories.rows();
        let mut found: Vec<Category> = Vec::new();
        let mut i: usize = 0;
        while i < categories.len()
            invariant
                i <= categories.len(),
                found@ == categories@.take(i as int),
            decreases categories.len() - i,
        {
            found.push(categories[i].clone());
            assert(found@ =~= categories@.take(i + 1));
            i += 1;
        }
        assert(categories@.take(i as int) =~= categories@);
        found
    }
}

} // verus!
