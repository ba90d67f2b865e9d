//! A keyed table of records: at most one record per identifier, kept in
//! the order of insertion.

use vstd::prelude::*;
use vstd::seq_lib::*;
use vstd::multiset::*;
use crate::model::Row;
use crate::text::same_text;

verus! {

/// The views of the records of a list, in order.
pub open spec fn views<T: View>(rows: Seq<T>) -> Seq<T::V> {
    rows.map_values(|r: T| r@)
}

/// Whether some record of `rows` carries the identifier `id`.
pub open spec fn has_key<T: Row>(rows: Seq<T::V>, id: Seq<char>) -> bool {
    exists|i: int| 0 <= i < rows.len() && #[trigger] T::key_of(rows[i]) == id
}

/// Whether no identifier occurs twice in `rows`.
pub open spec fn distinct_keys<T: Row>(rows: Seq<T::V>) -> bool {
    forall|i: int, j: int|
        0 <= i < j < rows.len() ==> #[trigger] T::key_of(rows[i]) != #[trigger] T::key_of(rows[j])
}

/// Whether `rows` runs from the latest creation time to the earliest.
pub open spec fn newest_first<T: Row>(rows: Seq<T::V>) -> bool {
    forall|i: int, j: int|
        0 <= i <= j < rows.len() ==> (#[trigger] T::created_of(rows[i])).not_before(
            #[trigger] T::created_of(rows[j]),
        )
}

/// The records of one kind, keyed by identifier.
#[derive(Debug)]
pub struct Table<T: Row> {
    rows: Vec<T>,
}

impl<T: Row> View for Table<T> {
    type V = Seq<T::V>;

    closed spec fn view(&self) -> Seq<T::V> {
        views(self.rows@)
    }
}

// A method that changes the rows first takes them out of the table, leaving
// an empty list behind, and puts them back when they are in their new state:
// the table then holds distinct identifiers at every moment.
impl<T: Row> Table<T> {
    #[verifier::type_invariant]
    spec fn keys_are_distinct(self) -> bool {
        distinct_keys::<T>(views(self.rows@))
    }

    /// An empty table.
    pub fn new() -> (r: Table<T>)
        ensures
            r@ == Seq::<T::V>::empty(),
    {
        let r = Table { rows: Vec::new() };
        assert(views(r.rows@) =~= Seq::<T::V>::empty());
        r
    }

    /// The number of records.
    pub fn len(&self) -> (n: usize)
        ensures
            n == self@.len(),
            distinct_keys::<T>(self@),
    {
        proof {
            use_type_invariant(self);
        }
        self.rows.len()
    }

    /// The place of the record with identifier `id`, if there is one.
    pub fn find(&self, id: &str) -> (r: Option<usize>)
        ensures
            distinct_keys::<T>(self@),
            match r {
                Some(i) => i < self@.len() && T::key_of(self@[i as int]) == id@,
                None => !has_key::<T>(self@, id@),
            },
    {
        proof {
            use_type_invariant(self);
        }
        let mut i: usize = 0;
        while i < self.rows.len()
            invariant
                i <= self.rows.len(),
                distinct_keys::<T>(self@),
                forall|j: int| 0 <= j < i ==> T::key_of(#[trigger] views(self.rows@)[j]) != id@,
            decreases self.rows.len() - i,
        {
            if same_text(self.rows[i].key().as_str(), id) {
                return Some(i);
            }
            i = i + 1;
        }
        None
    }

    /// The record at place `i`.
    pub fn get(&self, i: usize) -> (r: &T)
        requires
            i < self@.len(),
        ensures
            r@ == self@[i as int],
    {
        &self.rows[i]
    }

    /// Adds `row` at the end, unless its identifier is already taken.
    /// Returns whether the record was added.
    pub fn insert(&mut self, row: T) -> (added: bool)
        ensures
            added == !has_key::<T>(old(self)@, T::key_of(row@)),
            added ==> final(self)@ == old(self)@.push(row@),
            !added ==> final(self)@ == old(self)@,
            distinct_keys::<T>(final(self)@),
    {
        proof {
            use_type_invariant(&*self);
        }
        match self.find(row.key().as_str()) {
            Some(_) => false,
            None => {
                let ghost before = views(self.rows@);
                let ghost v = row@;
                let mut rows: Vec<T> = Vec::new();
                assert(views(rows@) =~= Seq::<T::V>::empty());
                core::mem::swap(&mut self.rows, &mut rows);
                rows.push(row);
                assert(views(rows@) =~= before.push(v));
                core::mem::swap(&mut self.rows, &mut rows);
                true
            },
        }
    }

    /// Puts `row` in the place of the record at `i`, which has the same
    /// identifier.
    pub fn replace(&mut self, i: usize, row: T)
        requires
            i < old(self)@.len(),
            T::key_of(row@) == T::key_of(old(self)@[i as int]),
        ensures
            final(self)@ == old(self)@.update(i as int, row@),
            distinct_keys::<T>(final(self)@),
    {
        proof {
            use_type_invariant(&*self);
        }
        let ghost before = views(self.rows@);
        let ghost v = row@;
        let mut rows: Vec<T> = Vec::new();
        assert(views(rows@) =~= Seq::<T::V>::empty());
        core::mem::swap(&mut self.rows, &mut rows);
        rows[i] = row;
        assert(views(rows@) =~= before.update(i as int, v));
        core::mem::swap(&mut self.rows, &mut rows);
    }

    /// Takes the record at place `i` out of the table.
    pub fn remove(&mut self, i: usize) -> (row: T)
        requires
            i < old(self)@.len(),
        ensures
            row@ == old(self)@[i as int],
            final(self)@ == old(self)@.remove(i as int),
            !has_key::<T>(final(self)@, T::key_of(row@)),
            distinct_keys::<T>(final(self)@),
    {
        proof {
            use_type_invariant(&*self);
        }
        let ghost before = views(self.rows@);
        let mut rows: Vec<T> = Vec::new();
        assert(views(rows@) =~= Seq::<T::V>::empty());
        core::mem::swap(&mut self.rows, &mut rows);
        let row = rows.remove(i);
        assert(views(rows@) =~= before.remove(i as int));
        assert forall|j: int| 0 <= j < views(rows@).len() implies #[trigger] T::key_of(
            views(rows@)[j],
        ) != T::key_of(row@) by {
            if j < i {
                assert(T::key_of(before[j]) != T::key_of(before[i as int]));
            } else {
                assert(T::key_of(before[i as int]) != T::key_of(before[j + 1]));
            }
        }
        core::mem::swap(&mut self.rows, &mut rows);
        row
    }

    /// Copies of all records, in the order of insertion.
    pub fn snapshot(&self) -> (r: Vec<T>)
        ensures
            views(r@) == self@,
    {
        let mut r: Vec<T> = Vec::new();
        let mut i: usize = 0;
        while i < self.rows.len()
            invariant
                i <= self.rows.len(),
                r@.len() == i,
                forall|j: int| 0 <= j < i ==> r@[j]@ == self.rows@[j]@,
            decreases self.rows.len() - i,
        {
            r.push(self.rows[i].duplicate());
            i = i + 1;
        }
        assert(views(r@) =~= views(self.rows@));
        r
    }

    /// Empties the table and returns how many records it held.
    pub fn clear(&mut self) -> (n: usize)
        ensures
            n == old(self)@.len(),
            final(self)@ == Seq::<T::V>::empty(),
    {
        let n = self.rows.len();
        let mut rows: Vec<T> = Vec::new();
        assert(views(rows@) =~= Seq::<T::V>::empty());
        core::mem::swap(&mut self.rows, &mut rows);
        n
    }
}

/// Orders records from the latest creation time to the earliest. Nothing
/// is added or lost.
pub fn sort_newest_first<T: Row>(rows: Vec<T>) -> (r: Vec<T>)
    ensures
        newest_first::<T>(views(r@)),
        views(r@).to_multiset() == views(rows@).to_multiset(),
{
    broadcast use group_multiset_axioms;

    let mut rows = rows;
    let ghost input = views(rows@);
    let mut r: Vec<T> = Vec::new();
    assert(views(r@) =~= Seq::<T::V>::empty());
    proof {
        to_multiset_len(views(r@));
        lemma_multiset_empty_len(views(r@).to_multiset());
    }
    assert(views(r@).to_multiset().add(views(rows@).to_multiset()) =~= input.to_multiset());
    while rows.len() > 0
        invariant
            newest_first::<T>(views(r@)),
            views(r@).to_multiset().add(views(rows@).to_multiset()) == input.to_multiset(),
        decreases rows.len(),
    {
        let ghost done = views(r@);
        let ghost left = views(rows@);
        let row = rows.remove(0);
        assert(views(rows@) =~= left.remove(0));
        let at = row.created();
        let mut pos: usize = 0;
        while pos < r.len() && r[pos].created().is_not_before(&at)
            invariant
                pos <= r.len(),
                at == T::created_of(row@),
                forall|j: int|
                    0 <= j < pos ==> (#[trigger] T::created_of(views(r@)[j])).not_before(at),
            decreases r.len() - pos,
        {
            pos = pos + 1;
        }
        r.insert(pos, row);
        assert(views(r@) =~= done.insert(pos as int, row@));
        proof {
            to_multiset_insert(done, pos as int, row@);
            to_multiset_remove(left, 0);
            to_multiset_contains(left, row@);
            assert(left[0] == row@);
            assert(left.contains(row@));
            assert(left.to_multiset().remove(row@).insert(row@) =~= left.to_multiset());
            assert(done.to_multiset().insert(row@).add(left.to_multiset().remove(row@))
                =~= done.to_multiset().add(left.to_multiset().remove(row@).insert(row@)));
            assert(views(r@).to_multiset().add(views(rows@).to_multiset()) =~= input.to_multiset());
            assert forall|i: int, j: int| 0 <= i <= j < views(r@).len() implies (
            #[trigger] T::created_of(views(r@)[i])).not_before(
                #[trigger] T::created_of(views(r@)[j]),
            ) by {
                if i < pos && j > pos {
                    assert(T::created_of(done[i]).not_before(T::created_of(done[j - 1])));
                } else if i < pos && j < pos {
                    assert(T::created_of(done[i]).not_before(T::created_of(done[j])));
                } else if i > pos {
                    assert(T::created_of(done[i - 1]).not_before(T::created_of(done[j - 1])));
                } else if i == pos && j > pos {
                    assert(T::created_of(done[pos as int]).not_before(T::created_of(done[j - 1])));
                }
            }
        }
    }
    assert(views(rows@) =~= Seq::<T::V>::empty());
    proof {
        to_multiset_len(views(rows@));
        lemma_multiset_empty_len(views(rows@).to_multiset());
    }
    assert(views(r@).to_multiset().add(views(rows@).to_multiset()) =~= views(r@).to_multiset());
    r
}

} // verus!
