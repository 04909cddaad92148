//! Index-stable collection backing the session registry.
//!
//! Each occupied slot keeps its index for as long as its item lives there.
//! Removing an item frees its slot; a later push reuses the lowest freed
//! slot, and only appends when no slot is free.

use vstd::prelude::*;

verus! {

/// Holds `i` exactly when `i` is the index the next push into `s` receives:
/// the lowest freed slot, or the length when every slot is occupied.
pub open spec fn is_lowest_free<T>(s: Seq<Option<T>>, i: int) -> bool {
    &&& 0 <= i <= s.len()
    &&& (forall|j: int| 0 <= j < i ==> s[j] is Some)
    &&& (i < s.len() ==> s[i] is None)
}

#[derive(Debug, Clone, PartialEq, Eq)]
pub struct StableVec<T> {
    items: Vec<Option<T>>,
}

impl<T> View for StableVec<T> {
    type V = Seq<Option<T>>;

    closed spec fn view(&self) -> Seq<Option<T>> {
        self.items@
    }
}

impl<T> StableVec<T> {
    pub fn new() -> (r: Self)
        ensures
            r@ == Seq::<Option<T>>::empty(),
    {
        Self { items: Vec::new() }
    }

    /// The index a future `push` would receive, without changing anything.
    pub fn next_index(&self) -> (r: usize)
        ensures
            is_lowest_free(self@, r as int),
    {
        let mut i: usize = 0;
        while i < self.items.len()
            invariant
                i <= self@.len(),
                forall|j: int| 0 <= j < i ==> self@[j] is Some,
            decreases self@.len() - i,
        {
            if self.items[i].is_none() {
                return i;
            }
            i = i + 1;
        }
        i
    }

    pub fn is_empty(&self) -> (r: bool)
        ensures
            r == (self@.len() == 0),
    {
        self.items.len() == 0
    }

    /// Stores the item in the lowest freed slot, or appends when none is
    /// free, and returns the slot's index.
    pub fn push(&mut self, item: T) -> (r: usize)
        ensures
            is_lowest_free(old(self)@, r as int),
            r < old(self)@.len() ==> final(self)@ == old(self)@.update(r as int, Some(item)),
            r == old(self)@.len() ==> final(self)@ == old(self)@.push(Some(item)),
    {
        let index = self.next_index();
        if index < self.items.len() {
            self.items[index] = Some(item);
        } else {
            self.items.push(Some(item));
        }
        index
    }

    pub fn get(&self, index: usize) -> (r: Option<&T>)
        ensures
            match r {
                Some(item) => index < self@.len() && self@[index as int] == Some(*item),
                None => index >= self@.len() || self@[index as int] is None,
            },
    {
        if index < self.items.len() {
            match &self.items[index] {
                Some(item) => Some(item),
                None => None,
            }
        } else {
            None
        }
    }

    /// Mutable access to an occupied slot. Callers check occupancy with
    /// `get` first; a freed or out-of-range index is rejected by `requires`.
    pub fn get_mut(&mut self, index: usize) -> (r: &mut T)
        requires
            index < old(self)@.len(),
            old(self)@[index as int] is Some,
        ensures
            old(self)@[index as int] == Some(*r),
            final(self)@ == old(self)@.update(index as int, Some(*final(r))),
    {
        let slot = &mut self.items[index];
        match slot {
            Some(item) => item,
            None => vstd::pervasive::unreached(),
        }
    }

    /// Takes the item out and frees its slot; the slot count is unchanged,
    /// so every other index stays valid.
    pub fn remove(&mut self, index: usize) -> (r: Option<T>)
        ensures
            match r {
                Some(item) => {
                    &&& index < old(self)@.len()
                    &&& old(self)@[index as int] == Some(item)
                    &&& final(self)@ == old(self)@.update(index as int, None)
                },
                None => {
                    &&& final(self)@ == old(self)@
                    &&& (index >= old(self)@.len() || old(self)@[index as int] is None)
                },
            },
    {
        if index < self.items.len() {
            let slot = &mut self.items[index];
            let item = slot.take();
            if item.is_some() {
                item
            } else {
                proof {
                    assert(self@ =~= old(self)@);
                }
                None
            }
        } else {
            None
        }
    }

    /// The slots in index order, for iteration; freed slots appear as
    /// `None`.
    pub fn iter(&self) -> (r: &Vec<Option<T>>)
        ensures
            r@ == self@,
    {
        &self.items
    }

    /// Mutable view of the slots in index order. Any slot assignment keeps
    /// the collection valid: occupancy is tracked by the slots themselves.
    pub fn iter_mut(&mut self) -> (r: &mut Vec<Option<T>>)
        ensures
            r@ == old(self)@,
            final(self)@ == final(r)@,
    {
        &mut self.items
    }
}

impl<T> StableVec<T> {
    /// A collection whose slots hold the given items in order, all occupied.
    pub fn from(items: Vec<T>) -> (r: Self)
        ensures
            r@ == items@.map(|i: int, item: T| Some(item)),
    {
        let ghost orig = items@;
        let mut items = items;
        let mut slots: Vec<Option<T>> = Vec::new();
        while items.len() > 0
            invariant
                items@ == orig.subrange(0, items@.len() as int),
                slots@.len() + items@.len() == orig.len(),
                forall|j: int|
                    0 <= j < slots@.len() ==> slots@[j] == Some(orig[items@.len() + j]),
            decreases items@.len(),
        {
            match items.pop() {
                Some(item) => {
                    slots.insert(0, Some(item));
                },
                None => {},
            }
        }
        proof {
            assert(forall|j: int| 0 <= j < orig.len() ==> slots@[j] == Some(orig[j]));
            assert(slots@ =~= orig.map(|i: int, item: T| Some(item)));
        }
        Self { items: slots }
    }
}

} // verus!
