//! A list whose indices stay valid when items are removed.
//!
//! Removed slots are remembered in a free list and are used again by later
//! insertions, the slot freed last first.

use vstd::prelude::*;

verus! {

/// The slots of a list and its free list are consistent: every free index
/// names an empty slot, and no index is free twice.
pub open spec fn spec_wf<T>(items: Seq<Option<T>>, free: Seq<usize>) -> bool {
    &&& forall|k: int| 0 <= k < free.len() ==> #[trigger] free[k] < items.len() && items[free[k] as int] is None
    &&& forall|k: int, l: int| 0 <= k < l < free.len() ==> #[trigger] free[k] != #[trigger] free[l]
}

/// Inserting fills the slot freed last, or appends a slot when none is free.
/// The result is the slots, the free list and the index used.
pub open spec fn spec_insert<T>(items: Seq<Option<T>>, free: Seq<usize>, value: T) -> (
    Seq<Option<T>>,
    Seq<usize>,
    usize,
) {
    if free.len() > 0 {
        let i = free.last();
        (items.update(i as int, Some(value)), free.drop_last(), i)
    } else {
        (items.push(Some(value)), free, items.len() as usize)
    }
}

/// Reserving takes the slot freed last off the free list, or names the index
/// one past the last slot when none is free; the slots stay as they are.
pub open spec fn spec_reserve<T>(items: Seq<Option<T>>, free: Seq<usize>) -> (Seq<usize>, usize) {
    if free.len() > 0 {
        (free.drop_last(), free.last())
    } else {
        (free, items.len() as usize)
    }
}

/// Inserting at a reserved index fills that slot, or appends one when the
/// index is one past the last slot.
pub open spec fn spec_insert_reserved<T>(items: Seq<Option<T>>, index: usize, value: T) -> Seq<
    Option<T>,
> {
    if index < items.len() {
        items.update(index as int, Some(value))
    } else {
        items.push(Some(value))
    }
}

/// Removing empties a slot and returns what it held; a slot that held a value
/// goes onto the free list.
pub open spec fn spec_remove<T>(items: Seq<Option<T>>, free: Seq<usize>, index: usize) -> (
    Seq<Option<T>>,
    Seq<usize>,
    Option<T>,
) {
    (
        items.update(index as int, None),
        if items[index as int] is Some {
            free.push(index)
        } else {
            free
        },
        items[index as int],
    )
}

/// The values of the occupied slots, in the order of their indices.
pub open spec fn spec_values<T>(items: Seq<Option<T>>) -> Seq<T>
    decreases items.len(),
{
    if items.len() == 0 {
        Seq::empty()
    } else {
        let rest = spec_values(items.drop_last());
        match items.last() {
            Some(v) => rest.push(v),
            None => rest,
        }
    }
}

/// The indices of the occupied slots, in ascending order.
pub open spec fn spec_occupied<T>(items: Seq<Option<T>>) -> Seq<int>
    decreases items.len(),
{
    if items.len() == 0 {
        Seq::empty()
    } else {
        let rest = spec_occupied(items.drop_last());
        if items.last() is Some {
            rest.push(items.len() - 1)
        } else {
            rest
        }
    }
}

#[derive(Clone, Debug)]
pub struct SparseList<T> {
    items: Vec<Option<T>>,
    free_list: Vec<usize>,
}

impl<T> View for SparseList<T> {
    type V = Seq<Option<T>>;

    /// The slots of the list: the value at an index, or nothing.
    closed spec fn view(&self) -> Seq<Option<T>> {
        self.items@
    }
}

impl<T> SparseList<T> {
    /// The free list: the empty slots that later insertions use again, the
    /// last one first.
    pub closed spec fn free_slots(&self) -> Seq<usize> {
        self.free_list@
    }

    pub open spec fn wf(&self) -> bool {
        spec_wf(self@, self.free_slots())
    }

    /// An empty list.
    pub fn new() -> (r: Self)
        ensures
            r@ == Seq::<Option<T>>::empty(),
            r.free_slots() == Seq::<usize>::empty(),
            r.wf(),
    {
        Self { items: Vec::new(), free_list: Vec::new() }
    }

    /// Stores a value and returns its index.
    pub fn insert(&mut self, value: T) -> (index: usize)
        requires
            old(self).wf(),
            old(self)@.len() < usize::MAX,
        ensures
            (final(self)@, final(self).free_slots(), index) == spec_insert(
                old(self)@,
                old(self).free_slots(),
                value,
            ),
            final(self).wf(),
    {
        match self.free_list.pop() {
            Some(index) => {
                assert(old(self).free_slots()[old(self).free_slots().len() - 1] == index);
                self.items.set(index, Some(value));
                proof {
                    assert forall|k: int, l: int|
                        0 <= k < l < self.free_list@.len() implies #[trigger] self.free_list@[k]
                        != #[trigger] self.free_list@[l] by {
                        assert(self.free_list@[k] == old(self).free_list@[k]);
                        assert(self.free_list@[l] == old(self).free_list@[l]);
                    }
                    assert forall|k: int| 0 <= k < self.free_list@.len() implies #[trigger] self.free_list@[k]
                        < self.items@.len() && self.items@[self.free_list@[k] as int] is None by {
                        assert(self.free_list@[k] == old(self).free_list@[k]);
                        assert(old(self).free_list@[k] != old(self).free_list@[old(self).free_list@.len() - 1]);
                    }
                }
                index
            },
            None => {
                let index = self.items.len();
                self.items.push(Some(value));
                index
            },
        }
    }

    /// Stores a value and returns its index and a mutable reference to it.
    pub fn insert_and_get_mut(&mut self, value: T) -> (r: (usize, &mut T))
        requires
            old(self).wf(),
            old(self)@.len() < usize::MAX,
        ensures
            r.0 == spec_insert(old(self)@, old(self).free_slots(), value).2,
            *r.1 == value,
            final(self)@ == spec_insert(old(self)@, old(self).free_slots(), value).0.update(
                r.0 as int,
                Some(*final(r.1)),
            ),
            final(self).free_slots() == spec_insert(old(self)@, old(self).free_slots(), value).1,
            final(self).wf(),
    {
        let index = self.insert(value);
        let slot = &mut self.items[index];
        let item = slot.as_mut().unwrap();
        (index, item)
    }

    /// Reserves an index for a later [`insert_reserved`][Self::insert_reserved]:
    /// the slot freed last, taken off the free list, or the index one past
    /// the last slot.
    pub fn reserve(&mut self) -> (index: usize)
        requires
            old(self).wf(),
        ensures
            (final(self).free_slots(), index) == spec_reserve(old(self)@, old(self).free_slots()),
            final(self)@ == old(self)@,
            final(self).wf(),
    {
        match self.free_list.pop() {
            Some(index) => {
                proof {
                    assert forall|k: int, l: int|
                        0 <= k < l < self.free_list@.len() implies #[trigger] self.free_list@[k]
                        != #[trigger] self.free_list@[l] by {
                        assert(self.free_list@[k] == old(self).free_list@[k]);
                        assert(self.free_list@[l] == old(self).free_list@[l]);
                    }
                    assert forall|k: int| 0 <= k < self.free_list@.len() implies #[trigger] self.free_list@[k]
                        < self.items@.len() && self.items@[self.free_list@[k] as int] is None by {
                        assert(self.free_list@[k] == old(self).free_list@[k]);
                    }
                }
                index
            },
            None => self.items.len(),
        }
    }

    /// Stores a value at an index that [`reserve`][Self::reserve] returned:
    /// an empty slot, or the index one past the last slot.
    ///
    /// The free list is not looked at. An index that is still on it (one that
    /// was not reserved) is filled all the same, and the list is then no
    /// longer well-formed: a later insertion would find that slot full.
    pub fn insert_reserved(&mut self, index: usize, value: T)
        requires
            old(self).wf(),
            index <= old(self)@.len(),
            index < old(self)@.len() ==> old(self)@[index as int] is None,
            old(self)@.len() < usize::MAX,
        ensures
            final(self)@ == spec_insert_reserved(old(self)@, index, value),
            final(self).free_slots() == old(self).free_slots(),
            !old(self).free_slots().contains(index) ==> final(self).wf(),
    {
        if index < self.items.len() {
            self.items.set(index, Some(value));
            proof {
                if !old(self).free_slots().contains(index) {
                    assert forall|k: int| 0 <= k < self.free_list@.len() implies #[trigger] self.free_list@[k]
                        < self.items@.len() && self.items@[self.free_list@[k] as int] is None by {
                        assert(old(self).free_slots()[k] != index);
                    }
                }
            }
        } else {
            self.items.push(Some(value));
        }
    }

    /// Takes the value out of a slot; an occupied slot goes onto the free
    /// list.
    pub fn remove(&mut self, index: usize) -> (r: Option<T>)
        requires
            old(self).wf(),
            index < old(self)@.len(),
        ensures
            (final(self)@, final(self).free_slots(), r) == spec_remove(
                old(self)@,
                old(self).free_slots(),
                index,
            ),
            final(self).wf(),
    {
        let slot = &mut self.items[index];
        let value = slot.take();
        if value.is_some() {
            self.free_list.push(index);
        }
        value
    }

    /// References to the values of the occupied slots, in the order of their
    /// indices.
    pub fn iter(&self) -> (r: Vec<&T>)
        ensures
            r@.map_values(|x: &T| *x) == spec_values(self@),
    {
        let mut r: Vec<&T> = Vec::new();
        let mut i: usize = 0;
        while i < self.items.len()
            invariant
                i <= self.items@.len(),
                r@.map_values(|x: &T| *x) == spec_values(self.items@.take(i as int)),
            decreases self.items@.len() - i,
        {
            assert(self.items@.take(i as int + 1).drop_last() == self.items@.take(i as int));
            match &self.items[i] {
                Some(v) => {
                    r.push(v);
                },
                None => {},
            }
            i += 1;
        }
        assert(self.items@.take(i as int) == self.items@);
        r
    }

    /// The value at an index, if the slot exists and is occupied.
    pub fn get(&self, index: usize) -> (r: Option<&T>)
        ensures
            r == (if index < self@.len() {
                match self@[index as int] {
                    Some(v) => Some(&v),
                    None => None,
                }
            } else {
                None
            }),
    {
        if index < self.items.len() {
            self.items[index].as_ref()
        } else {
            None
        }
    }

    /// A mutable reference to the value at an index, if the slot exists and
    /// is occupied.
    pub fn get_mut(&mut self, index: usize) -> (r: Option<&mut T>)
        ensures
            r is Some <==> index < old(self)@.len() && old(self)@[index as int] is Some,
            r is Some ==> *r->0 == old(self)@[index as int]->0 && final(self)@ == old(self)@.update(
                index as int,
                Some(*final(r->0)),
            ),
            r is None ==> final(self)@ == old(self)@,
            final(self).free_slots() == old(self).free_slots(),
    {
        if index < self.items.len() {
            let slot = &mut self.items[index];
            slot.as_mut()
        } else {
            None
        }
    }

    /// The value at an occupied index.
    pub fn index(&self, index: usize) -> (r: &T)
        requires
            index < self@.len(),
            self@[index as int] is Some,
        ensures
            *r == self@[index as int]->0,
    {
        self.items[index].as_ref().unwrap()
    }

    /// A mutable reference to the value at an occupied index.
    pub fn index_mut(&mut self, index: usize) -> (r: &mut T)
        requires
            index < old(self)@.len(),
            old(self)@[index as int] is Some,
        ensures
            *r == old(self)@[index as int]->0,
            final(self)@ == old(self)@.update(index as int, Some(*final(r))),
            final(self).free_slots() == old(self).free_slots(),
    {
        let slot = &mut self.items[index];
        slot.as_mut().unwrap()
    }
}

impl<T> Default for SparseList<T> {
    fn default() -> (r: Self)
        ensures
            r@ == Seq::<Option<T>>::empty(),
            r.free_slots() == Seq::<usize>::empty(),
    {
        Self::new()
    }
}

/// An inserted value is read back at the index that insertion returned; that
/// slot was empty before, and every other slot keeps what it held.
pub proof fn law_insert_then_get<T>(items: Seq<Option<T>>, free: Seq<usize>, value: T)
    requires
        spec_wf(items, free),
        items.len() < usize::MAX,
    ensures
        ({
            let (items2, free2, i) = spec_insert(items, free, value);
            &&& i < items2.len()
            &&& items2[i as int] == Some(value)
            &&& i < items.len() ==> items[i as int] is None
            &&& items2.len() >= items.len()
            &&& forall|j: int| 0 <= j < items.len() && j != i ==> #[trigger] items2[j] == items[j]
            &&& spec_wf(items2, free2)
        }),
{
    let (items2, free2, i) = spec_insert(items, free, value);
    if free.len() > 0 {
        assert forall|k: int| 0 <= k < free2.len() implies #[trigger] free2[k] < items2.len()
            && items2[free2[k] as int] is None by {
            assert(free[k] != free[free.len() - 1]);
        }
        assert forall|k: int, l: int| 0 <= k < l < free2.len() implies #[trigger] free2[k]
            != #[trigger] free2[l] by {
            assert(free2[k] == free[k] && free2[l] == free[l]);
        }
    }
}

/// Removing what was just inserted gives the value back and leaves every
/// slot that existed before as it was. When the insertion filled a free
/// slot, list and free list are back as they were; when it appended a slot,
/// that slot stays, empty, and is the only free one.
pub proof fn law_remove_undoes_insert<T>(items: Seq<Option<T>>, free: Seq<usize>, value: T)
    requires
        spec_wf(items, free),
        items.len() < usize::MAX,
    ensures
        ({
            let (items2, free2, i) = spec_insert(items, free, value);
            let (items3, free3, removed) = spec_remove(items2, free2, i);
            &&& removed == Some(value)
            &&& forall|j: int| 0 <= j < items.len() ==> #[trigger] items3[j] == items[j]
            &&& free.len() > 0 ==> items3 == items && free3 == free
            &&& free.len() == 0 ==> items3 == items.push(None) && free3 == seq![
                items.len() as usize,
            ]
        }),
{
    let (items2, free2, i) = spec_insert(items, free, value);
    let (items3, free3, removed) = spec_remove(items2, free2, i);
    if free.len() > 0 {
        assert(free3 =~= free);
        assert(items3 =~= items);
    } else {
        assert(free3 =~= seq![items.len() as usize]);
        assert(items3 =~= items.push(None));
    }
}

/// Reserving an index and then inserting at it does what one insertion does.
pub proof fn law_reserve_then_insert_reserved<T>(items: Seq<Option<T>>, free: Seq<usize>, value: T)
    requires
        spec_wf(items, free),
        items.len() < usize::MAX,
    ensures
        ({
            let (free2, i) = spec_reserve(items, free);
            &&& i <= items.len()
            &&& i < items.len() ==> items[i as int] is None
            &&& !free2.contains(i)
            &&& (spec_insert_reserved(items, i, value), free2, i) == spec_insert(items, free, value)
        }),
{
    let (free2, i) = spec_reserve(items, free);
    if free.len() > 0 {
        assert forall|k: int| 0 <= k < free2.len() implies free2[k] != i by {
            assert(free2[k] == free[k]);
        }
    }
}

/// An index whose value was removed is the index that the next insertion
/// uses.
pub proof fn law_removed_index_is_reused<T>(items: Seq<Option<T>>, free: Seq<usize>, index: usize, value: T)
    requires
        spec_wf(items, free),
        index < items.len(),
        items[index as int] is Some,
    ensures
        ({
            let (items2, free2, removed) = spec_remove(items, free, index);
            &&& spec_wf(items2, free2)
            &&& spec_insert(items2, free2, value).2 == index
        }),
{
    let (items2, free2, removed) = spec_remove(items, free, index);
    assert forall|k: int| 0 <= k < free2.len() implies #[trigger] free2[k] < items2.len()
        && items2[free2[k] as int] is None by {
        if k < free.len() {
            assert(free2[k] == free[k]);
        }
    }
    assert forall|k: int, l: int| 0 <= k < l < free2.len() implies #[trigger] free2[k]
        != #[trigger] free2[l] by {
        if l < free.len() {
            assert(free2[k] == free[k] && free2[l] == free[l]);
        } else {
            assert(free2[k] == free[k]);
            assert(items[free[k] as int] is None);
        }
    }
}

/// Iterating gives exactly the values of the occupied slots, each once, in
/// ascending order of their indices: the `k`-th value is the value at the
/// `k`-th occupied index, the occupied indices ascend, and every occupied
/// slot is among them. So there are as many values as occupied slots.
pub proof fn law_values_are_occupied_slots<T>(items: Seq<Option<T>>)
    ensures
        ({
            let values = spec_values(items);
            let occupied = spec_occupied(items);
            &&& values.len() == occupied.len()
            &&& forall|k: int|
                0 <= k < occupied.len() ==> 0 <= #[trigger] occupied[k] < items.len() && items[occupied[k]]
                    == Some(values[k])
            &&& forall|k: int, l: int| 0 <= k < l < occupied.len() ==> #[trigger] occupied[k] < #[trigger] occupied[l]
            &&& forall|j: int|
                0 <= j < items.len() && #[trigger] items[j] is Some ==> exists|k: int|
                    0 <= k < occupied.len() && occupied[k] == j
        }),
    decreases items.len(),
{
    if items.len() > 0 {
        let p = items.drop_last();
        law_values_are_occupied_slots(p);
        let n = items.len() - 1;
        let values = spec_values(items);
        let occupied = spec_occupied(items);
        let pv = spec_values(p);
        let po = spec_occupied(p);
        assert forall|k: int| 0 <= k < po.len() implies #[trigger] items[po[k]] == p[po[k]] by {}
        assert forall|k: int|
            0 <= k < occupied.len() implies 0 <= #[trigger] occupied[k] < items.len() && items[occupied[k]]
                == Some(values[k]) by {
            if k < po.len() {
                assert(occupied[k] == po[k]);
                assert(values[k] == pv[k]);
                assert(p[po[k]] == items[po[k]]);
            }
        }
        assert forall|j: int|
            0 <= j < items.len() && #[trigger] items[j] is Some implies exists|k: int|
                0 <= k < occupied.len() && occupied[k] == j by {
            if j < n {
                assert(p[j] == items[j]);
                let k = choose|k: int| 0 <= k < po.len() && po[k] == j;
                assert(occupied[k] == j);
            } else {
                assert(occupied[occupied.len() - 1] == j);
            }
        }
    }
}

/// Reserving an index and inserting a value at it stores the value there and
/// leaves every other slot as it was.
pub proof fn law_reserved_insert_then_get<T>(items: Seq<Option<T>>, free: Seq<usize>, value: T)
    requires
        spec_wf(items, free),
        items.len() < usize::MAX,
    ensures
        ({
            let (free2, i) = spec_reserve(items, free);
            let items2 = spec_insert_reserved(items, i, value);
            &&& i < items2.len()
            &&& items2[i as int] == Some(value)
            &&& forall|j: int| 0 <= j < items.len() && j != i ==> #[trigger] items2[j] == items[j]
            &&& items2.len() == (if i < items.len() { items.len() } else { items.len() + 1 })
            &&& spec_wf(items2, free2)
        }),
{
    let (free2, i) = spec_reserve(items, free);
    law_reserve_then_insert_reserved(items, free, value);
    law_insert_then_get(items, free, value);
}

} // verus!
