use vstd::prelude::*;

verus! {

/// A non-owning reference to an item of a `Pool`. It resolves while the item
/// is alive; once the item is removed it never resolves again, since slots
/// are never reused.
#[derive(Clone, Copy, Debug, PartialEq, Eq, Structural)]
pub struct Handle {
    pub index: usize,
}

/// True when `h` resolves in a pool whose slots are `slots`.
pub open spec fn live<T>(slots: Seq<Option<T>>, h: Handle) -> bool {
    h.index < slots.len() && slots[h.index as int] is Some
}

/// `slots` after every item that a handle of `hs` reaches was removed.
pub open spec fn without<T>(slots: Seq<Option<T>>, hs: Seq<Handle>) -> Seq<Option<T>> {
    Seq::new(
        slots.len(),
        |i: int|
            if exists|j: int| 0 <= j < hs.len() && (#[trigger] hs[j]).index == i {
                None
            } else {
                slots[i]
            },
    )
}

/// The owner of a set of items, each reached through a `Handle`.
pub struct Pool<T> {
    slots: Vec<Option<T>>,
}

impl<T> View for Pool<T> {
    type V = Seq<Option<T>>;

    closed spec fn view(&self) -> Seq<Option<T>> {
        self.slots@
    }
}

impl<T> Pool<T> {
    pub fn new() -> (r: Pool<T>)
        ensures
            r@ == Seq::<Option<T>>::empty(),
    {
        Pool { slots: Vec::new() }
    }

    /// The number of slots, alive or not.
    pub fn len(&self) -> (r: usize)
        ensures
            r == self@.len(),
    {
        self.slots.len()
    }

    /// Takes ownership of `item` and returns the handle that reaches it.
    pub fn insert(&mut self, item: T) -> (h: Handle)
        requires
            old(self)@.len() < usize::MAX,
        ensures
            h.index == old(self)@.len(),
            final(self)@ == old(self)@.push(Some(item)),
    {
        let h = Handle { index: self.slots.len() };
        self.slots.push(Some(item));
        h
    }

    /// Drops the owning side of the item that `h` reaches, if it is alive,
    /// and hands the item back.
    pub fn remove(&mut self, h: Handle) -> (r: Option<T>)
        ensures
            live(old(self)@, h) ==> r == old(self)@[h.index as int] && final(self)@ == old(
                self,
            )@.update(h.index as int, None),
            !live(old(self)@, h) ==> r is None && final(self)@ == old(self)@,
    {
        if h.index < self.slots.len() {
            let mut taken: Option<T> = None;
            std::mem::swap(&mut taken, &mut self.slots[h.index]);
            taken
        } else {
            None
        }
    }

    /// True when `h` resolves.
    pub fn contains(&self, h: Handle) -> (r: bool)
        ensures
            r == live(self@, h),
    {
        h.index < self.slots.len() && self.slots[h.index].is_some()
    }

    /// Removes every item that a handle of `hs` reaches.
    pub fn remove_all(&mut self, hs: &Vec<Handle>)
        ensures
            final(self)@ == without(old(self)@, hs@),
    {
        let mut k: usize = 0;
        while k < hs.len()
            invariant
                k <= hs.len(),
                self@ == without(old(self)@, hs@.take(k as int)),
            decreases hs.len() - k,
        {
            let h = hs[k];
            let ghost before = self@;
            let r = self.remove(h);
            proof {
                let done = hs@.take(k as int);
                assert(hs@.take(k + 1) =~= done.push(h));
                assert forall|i: int| 0 <= i < self@.len() implies #[trigger] self@[i] == without(
                    old(self)@,
                    done.push(h),
                )[i] by {
                    assert(done.push(h)[done.len() as int] == h);
                    if i != h.index as int {
                        assert(self@[i] == before[i]);
                        if exists|j: int| 0 <= j < done.len() + 1 && (#[trigger] done.push(h)[j]).index == i {
                            let j = choose|j: int| 0 <= j < done.len() + 1 && (#[trigger] done.push(h)[j]).index == i;
                            assert(done[j] == done.push(h)[j]);
                        }
                        if exists|j: int| 0 <= j < done.len() && (#[trigger] done[j]).index == i {
                            let j = choose|j: int| 0 <= j < done.len() && (#[trigger] done[j]).index == i;
                            assert(done.push(h)[j] == done[j]);
                        }
                    }
                }
                assert(self@ =~= without(old(self)@, hs@.take(k + 1)));
            }
            k = k + 1;
        }
        assert(hs@.take(k as int) =~= hs@);
    }

    /// Resolves `h`.
    pub fn get(&self, h: Handle) -> (r: Option<&T>)
        ensures
            live(self@, h) ==> r == Some(&self@[h.index as int]->0),
            !live(self@, h) ==> r is None,
    {
        if h.index < self.slots.len() {
            self.slots[h.index].as_ref()
        } else {
            None
        }
    }

    /// Resolves `h`, which must be alive, for mutation.
    pub fn get_mut(&mut self, h: Handle) -> (r: &mut T)
        requires
            live(old(self)@, h),
        ensures
            *r == old(self)@[h.index as int]->0,
            final(self)@ == old(self)@.update(h.index as int, Some(*final(r))),
    {
        self.slots[h.index].as_mut().unwrap()
    }
}

} // verus!
