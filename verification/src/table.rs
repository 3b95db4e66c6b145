//! Tables: rows kept in the order in which they came, no two under one
//! identifier.

use crate::models::{Keyed, Named};
use vstd::prelude::*;

verus! {

/// Where the first row with identifier `id` stands in `rows`, if there is
/// one.
pub open spec fn find<R: Keyed>(rows: Seq<R>, id: u128) -> Option<int>
    decreases rows.len(),
{
    if rows.len() == 0 {
        None
    } else {
        match find(rows.drop_last(), id) {
            Some(at) => Some(at),
            None => if rows.last().key() == id {
                Some(rows.len() - 1)
            } else {
                None
            },
        }
    }
}

/// The first row with identifier `id` in `rows`, if there is one.
pub open spec fn row<R: Keyed>(rows: Seq<R>, id: u128) -> Option<R> {
    match find(rows, id) {
        Some(at) => Some(rows[at]),
        None => None,
    }
}

/// Whether `rows` has a row with identifier `id`.
pub open spec fn holds<R: Keyed>(rows: Seq<R>, id: u128) -> bool {
    find(rows, id) is Some
}

/// Whether no two rows of `rows` have one identifier.
pub open spec fn distinct<R: Keyed>(rows: Seq<R>) -> bool {
    forall|i: int, j: int|
        0 <= i < j < rows.len() ==> (#[trigger] rows[i]).key() != (#[trigger] rows[j]).key()
}

/// `find` names the first row with the identifier, and names none only where
/// there is none.
pub proof fn lemma_find<R: Keyed>(rows: Seq<R>, id: u128)
    ensures
        match find(rows, id) {
            Some(at) => 0 <= at < rows.len() && rows[at].key() == id && forall|i: int|
                0 <= i < at ==> (#[trigger] rows[i]).key() != id,
            None => forall|i: int| 0 <= i < rows.len() ==> (#[trigger] rows[i]).key() != id,
        },
    decreases rows.len(),
{
    if rows.len() > 0 {
        let rest = rows.drop_last();
        lemma_find(rest, id);
        match find(rest, id) {
            Some(at) => {
                assert(rest[at] == rows[at]);
                assert forall|i: int| 0 <= i < at implies (#[trigger] rows[i]).key() != id by {
                    assert(rest[i] == rows[i]);
                }
            },
            None => {
                assert forall|i: int| 0 <= i < rows.len() - 1 implies (#[trigger] rows[i]).key()
                    != id by {
                    assert(rest[i] == rows[i]);
                }
            },
        }
    }
}

/// The row at `at` is the one that `find` names, where none before it has the
/// identifier.
pub proof fn lemma_found<R: Keyed>(rows: Seq<R>, id: u128, at: int)
    requires
        0 <= at < rows.len(),
        rows[at].key() == id,
        forall|i: int| 0 <= i < at ==> (#[trigger] rows[i]).key() != id,
    ensures
        find(rows, id) == Some(at),
{
    lemma_find(rows, id);
}

/// A row put behind the others is found under its identifier if no row
/// before it has that identifier, and changes nothing for any other
/// identifier.
pub proof fn lemma_find_after_push<R: Keyed>(rows: Seq<R>, added: R, id: u128)
    ensures
        find(rows.push(added), id) == match find(rows, id) {
            Some(at) => Some(at),
            None => if added.key() == id {
                Some(rows.len() as int)
            } else {
                None
            },
        },
{
    assert(rows.push(added).drop_last() =~= rows);
}

/// A row put in the place of a row with the same identifier changes where
/// no identifier is found.
pub proof fn lemma_find_after_update<R: Keyed>(rows: Seq<R>, at: int, changed: R, id: u128)
    requires
        0 <= at < rows.len(),
        changed.key() == rows[at].key(),
    ensures
        find(rows.update(at, changed), id) == find(rows, id),
    decreases rows.len(),
{
    let after = rows.update(at, changed);
    if at < rows.len() - 1 {
        assert(after.drop_last() =~= rows.drop_last().update(at, changed));
        lemma_find_after_update(rows.drop_last(), at, changed, id);
    } else {
        assert(after.drop_last() =~= rows.drop_last());
    }
}

/// The first row of `rows` that is called `name`, if there is one.
pub open spec fn named<R: Named>(rows: Seq<R>, name: Seq<char>) -> Option<R>
    decreases rows.len(),
{
    if rows.len() == 0 {
        None
    } else if rows.first().name() == name {
        Some(rows.first())
    } else {
        named(rows.skip(1), name)
    }
}

/// Rows found by their identifiers. A table never holds two rows with one
/// identifier.
pub struct Table<R: Keyed> {
    rows: Vec<R>,
}

impl<R: Keyed> View for Table<R> {
    type V = Seq<R>;

    closed spec fn view(&self) -> Seq<R> {
        self.rows@
    }
}

impl<R: Keyed> Table<R> {
    #[verifier::type_invariant]
    spec fn no_identifier_twice(self) -> bool {
        distinct(self.rows@)
    }

    /// A table without rows.
    pub fn new() -> (table: Self)
        ensures
            table@ == Seq::<R>::empty(),
    {
        Table { rows: Vec::new() }
    }

    /// What every table keeps to: no identifier stands in it twice.
    pub fn identifiers_are_distinct(&self)
        ensures
            distinct(self@),
    {
        proof {
            use_type_invariant(self);
        }
    }

    /// How many rows the table holds.
    pub fn len(&self) -> (n: usize)
        ensures
            n == self@.len(),
    {
        self.rows.len()
    }

    /// The rows, in the order in which they came.
    pub fn rows(&self) -> (rows: &Vec<R>)
        ensures
            rows@ == self@,
    {
        &self.rows
    }

    /// Where the row with identifier `id` stands.
    pub fn position(&self, id: u128) -> (at: Option<usize>)
        ensures
            match at {
                Some(at) => find(self@, id) == Some(at as int),
                None => find(self@, id) is None,
            },
    {
        let mut i: usize = 0;
        while i < self.rows.len()
            invariant
                i <= self.rows.len(),
                forall|k: int| 0 <= k < i ==> (#[trigger] self.rows@[k]).key() != id,
            decreases self.rows.len() - i,
        {
            if self.rows[i].id() == id {
                proof {
                    lemma_found(self.rows@, id, i as int);
                }
                return Some(i);
            }
            i += 1;
        }
        proof {
            lemma_find(self.rows@, id);
        }
        None
    }

    /// The row with identifier `id`.
    pub fn get(&self, id: u128) -> (found: Option<&R>)
        ensures
            match found {
                Some(found) => row(self@, id) == Some(*found),
                None => row(self@, id) is None,
            },
    {
        match self.position(id) {
            Some(at) => {
                proof {
                    lemma_find(self.rows@, id);
                }
                Some(&self.rows[at])
            },
            None => None,
        }
    }

    /// Whether there is a row with identifier `id`.
    pub fn contains(&self, id: u128) -> (yes: bool)
        ensures
            yes == holds(self@, id),
    {
        self.position(id).is_some()
    }

    /// Adds `row` behind the others, unless its identifier is taken; says
    /// whether it was added.
    pub fn insert(&mut self, row: R) -> (added: bool)
        ensures
            added == !holds(old(self)@, row.key()),
            final(self)@ == if added {
                old(self)@.push(row)
            } else {
                old(self)@
            },
    {
        proof {
            use_type_invariant(&*self);
        }
        match self.position(row.id()) {
            Some(_) => false,
            None => {
                proof {
                    lemma_find(self.rows@, row.key());
                }
                // The rows are taken out while they change, so that the table
                // is whole whenever it can be seen.
                let mut rows: Vec<R> = Vec::new();
                std::mem::swap(&mut self.rows, &mut rows);
                rows.push(row);
                std::mem::swap(&mut self.rows, &mut rows);
                true
            },
        }
    }

    /// Puts `row` where the row with its identifier stands; says whether
    /// there was one.
    pub fn replace(&mut self, row: R) -> (replaced: bool)
        ensures
            replaced == holds(old(self)@, row.key()),
            final(self)@ == match find(old(self)@, row.key()) {
                Some(at) => old(self)@.update(at, row),
                None => old(self)@,
            },
    {
        proof {
            use_type_invariant(&*self);
        }
        match self.position(row.id()) {
            Some(at) => {
                proof {
                    lemma_find(self.rows@, row.key());
                }
                let mut rows: Vec<R> = Vec::new();
                std::mem::swap(&mut self.rows, &mut rows);
                rows.set(at, row);
                std::mem::swap(&mut self.rows, &mut rows);
                true
            },
            None => false,
        }
    }
}

impl<R: Keyed + Named> Table<R> {
    /// The first row that is called `name`.
    pub fn by_name(&self, name: &String) -> (found: Option<&R>)
        ensures
            match found {
                Some(found) => named(self@, name@) == Some(*found),
                None => named(self@, name@) is None,
            },
    {
        let mut i: usize = 0;
        assert(self.rows@.skip(0) =~= self.rows@);
        while i < self.rows.len()
            invariant
                i <= self.rows.len(),
                named(self.rows@, name@) == named(self.rows@.skip(i as int), name@),
            decreases self.rows.len() - i,
        {
            assert(self.rows@.skip(i as int).first() == self.rows@[i as int]);
            if self.rows[i].is_named(name) {
                return Some(&self.rows[i]);
            }
            assert(self.rows@.skip(i as int).skip(1) =~= self.rows@.skip(i + 1));
            i += 1;
        }
        None
    }
}

} // verus!
