//! A table that hands out small integer identifiers.
//!
//! Every stored value lives under the smallest identifier that was free when
//! the value came in, and keeps that identifier until it is removed. An
//! identifier is handed out again only after its value has left the table.

use vstd::prelude::*;

verus! {

/// The values of `table` under the identifiers below `limit`, by rising
/// identifier.
pub open spec fn ascending<T>(table: Map<usize, T>, limit: nat) -> Seq<T>
    decreases limit,
{
    if limit == 0 {
        Seq::empty()
    } else {
        let id = (limit - 1) as usize;
        let before = ascending(table, (limit - 1) as nat);
        if table.contains_key(id) {
            before.push(table[id])
        } else {
            before
        }
    }
}

/// What a sequence of cells holds: the identifier `i` is in use exactly when
/// cell `i` is filled.
spec fn filled<T>(cells: Seq<Option<T>>) -> Map<usize, T> {
    Map::new(
        |id: usize| id < cells.len() && cells[id as int] is Some,
        |id: usize| cells[id as int]->0,
    )
}

/// A table of values, each under an identifier of its own.
pub struct Slots<T> {
    cells: Vec<Option<T>>,
}

impl<T> Slots<T> {
    /// The values in the table, by identifier.
    pub closed spec fn view(&self) -> Map<usize, T> {
        filled(self.cells@)
    }

    /// A bound above every identifier that is, or was, in use since the table
    /// was last empty.
    pub closed spec fn limit(&self) -> nat {
        self.cells@.len()
    }

    /// Every identifier in use lies below the limit.
    pub proof fn lemma_bounded(&self)
        ensures
            forall|id: usize| self@.contains_key(id) ==> id < self.limit(),
    {
    }

    /// An empty table.
    pub fn new() -> (table: Self)
        ensures
            table@ == Map::<usize, T>::empty(),
            table.limit() == 0,
    {
        let table = Slots { cells: Vec::new() };
        assert(table@ =~= Map::<usize, T>::empty());
        table
    }

    /// Whether `id` is in use.
    pub fn contains(&self, id: usize) -> (used: bool)
        ensures
            used == self@.contains_key(id),
    {
        id < self.cells.len() && self.cells[id].is_some()
    }

    /// The value under `id`, if `id` is in use.
    pub fn get(&self, id: usize) -> (found: Option<&T>)
        ensures
            found == (if self@.contains_key(id) {
                Some(&self@[id])
            } else {
                None
            }),
    {
        if id < self.cells.len() {
            self.cells[id].as_ref()
        } else {
            None
        }
    }

    /// A bound above every identifier in use.
    pub fn bound(&self) -> (n: usize)
        ensures
            n == self.limit(),
    {
        self.cells.len()
    }

    /// Stores `value` under the smallest free identifier and returns it.
    pub fn insert(&mut self, value: T) -> (id: usize)
        ensures
            !old(self)@.contains_key(id),
            forall|below: usize| below < id ==> old(self)@.contains_key(below),
            final(self)@ == old(self)@.insert(id, value),
            final(self).limit() == (if id < old(self).limit() {
                old(self).limit()
            } else {
                (id + 1) as nat
            }),
    {
        let n = self.cells.len();
        let mut i: usize = 0;
        while i < n
            invariant
                i <= n,
                n == self.cells@.len(),
                self.cells@ == old(self).cells@,
                forall|below: int| 0 <= below < i ==> self.cells@[below] is Some,
            decreases n - i,
        {
            if self.cells[i].is_none() {
                self.cells.set(i, Some(value));
                assert(self@ =~= old(self)@.insert(i, value));
                return i;
            }
            i += 1;
        }
        self.cells.push(Some(value));
        assert(self@ =~= old(self)@.insert(n, value));
        n
    }

    /// Takes the value under `id` out of the table, if `id` is in use. The
    /// identifier is free afterwards.
    pub fn remove(&mut self, id: usize) -> (taken: Option<T>)
        ensures
            taken == (if old(self)@.contains_key(id) {
                Some(old(self)@[id])
            } else {
                None
            }),
            final(self)@ == old(self)@.remove(id),
            final(self).limit() == old(self).limit(),
    {
        if id < self.cells.len() {
            let mut taken: Option<T> = None;
            let cell = &mut self.cells[id];
            std::mem::swap(cell, &mut taken);
            assert(self@ =~= old(self)@.remove(id));
            taken
        } else {
            assert(self@ =~= old(self)@.remove(id));
            None
        }
    }
}

} // verus!
