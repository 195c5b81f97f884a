use vstd::prelude::*;
use crate::order::{sort_by_rank, stable_sort, Ranked};

verus! {

broadcast use vstd::seq_lib::group_seq_properties;

/// Something updated once per frame until it reports itself destroyed.
/// `destroyed` states what `is_destroyed` answers.
pub trait NeedUpdate {
    spec fn destroyed(&self) -> bool;

    fn update(&mut self);

    fn is_destroyed(&self) -> (r: bool)
        ensures
            r == self.destroyed(),
    ;
}

/// An updater with its update order (ascending; `None` before any `Some`).
pub struct UpdaterOwner<T> {
    pub updater: T,
    pub order: Option<usize>,
}

impl<T> Ranked for UpdaterOwner<T> {
    open spec fn rank(&self) -> int {
        match self.order {
            None => 0,
            Some(k) => k + 1,
        }
    }

    fn ranks_above(&self, other: &Self) -> (r: bool) {
        match (self.order, other.order) {
            (None, _) => false,
            (Some(_), None) => true,
            (Some(a), Some(b)) => a > b,
        }
    }
}

/// Holds of an updater that has not reported itself destroyed.
pub open spec fn not_destroyed<T: NeedUpdate>() -> spec_fn(UpdaterOwner<T>) -> bool {
    |u: UpdaterOwner<T>| !u.updater.destroyed()
}

/// The updaters of the next frame, before they update: those handed over
/// since the last frame join (most recent first) and everything is sorted
/// again; then the destroyed ones leave.
pub open spec fn next_updaters<T: NeedUpdate>(
    updaters: Seq<UpdaterOwner<T>>,
    reserveds: Seq<UpdaterOwner<T>>,
) -> Seq<UpdaterOwner<T>> {
    let merged = if reserveds.len() > 0 {
        stable_sort(updaters + reserveds.reverse())
    } else {
        updaters
    };
    merged.filter(not_destroyed())
}

/// Runs updaters once per frame in their order. An updater handed over
/// during a frame starts updating from the next frame.
pub struct UpdaterImpl<T> {
    reserveds: Vec<UpdaterOwner<T>>,
    updaters: Vec<UpdaterOwner<T>>,
}

impl<T: NeedUpdate> UpdaterImpl<T> {
    /// The updaters handed over and not yet running.
    pub closed spec fn reserved(&self) -> Seq<UpdaterOwner<T>> {
        self.reserveds@
    }

    /// The running updaters, in update order.
    pub closed spec fn running(&self) -> Seq<UpdaterOwner<T>> {
        self.updaters@
    }

    pub fn new() -> (r: UpdaterImpl<T>)
        ensures
            r.reserved() == Seq::<UpdaterOwner<T>>::empty(),
            r.running() == Seq::<UpdaterOwner<T>>::empty(),
    {
        UpdaterImpl { reserveds: Vec::new(), updaters: Vec::new() }
    }

    /// The running updaters, in update order.
    pub fn updaters(&self) -> (r: &Vec<UpdaterOwner<T>>)
        ensures
            r@ == self.running(),
    {
        &self.updaters
    }

    /// Hands `updater` over, to run before every updater with an order.
    pub fn own(&mut self, updater: T)
        ensures
            final(self).reserved() == old(self).reserved().push(
                UpdaterOwner { updater, order: None },
            ),
            final(self).running() == old(self).running(),
    {
        self.own_with_order(updater, None)
    }

    /// Hands `updater` over at update order `order`.
    pub fn own_with_order(&mut self, updater: T, order: Option<usize>)
        ensures
            final(self).reserved() == old(self).reserved().push(UpdaterOwner { updater, order }),
            final(self).running() == old(self).running(),
    {
        self.reserveds.push(UpdaterOwner { updater, order });
    }

    /// Runs one frame: takes in the updaters handed over, drops the
    /// destroyed ones, and updates the others in order.
    pub fn execute(&mut self)
        ensures
            final(self).reserved() == Seq::<UpdaterOwner<T>>::empty(),
            final(self).running().len() == next_updaters(
                old(self).running(),
                old(self).reserved(),
            ).len(),
            forall|i: int|
                0 <= i < final(self).running().len() ==> (#[trigger] final(self).running()[i]).order
                    == next_updaters(old(self).running(), old(self).reserved())[i].order,
    {
        let ghost u0 = self.updaters@;
        let ghost r0 = self.reserveds@;
        if self.reserveds.len() > 0 {
            while self.reserveds.len() > 0
                invariant
                    self.updaters@ + self.reserveds@.reverse() == u0 + r0.reverse(),
                decreases self.reserveds.len(),
            {
                let ghost before_u = self.updaters@;
                let ghost before_r = self.reserveds@;
                let popped = self.reserveds.pop().unwrap();
                self.updaters.push(popped);
                assert(before_r.reverse() =~= seq![popped] + self.reserveds@.reverse());
                assert(self.updaters@ + self.reserveds@.reverse() =~= before_u + before_r.reverse());
            }
            assert(self.reserveds@.reverse() =~= Seq::<UpdaterOwner<T>>::empty());
            assert(self.updaters@ =~= u0 + r0.reverse());
            sort_by_rank(&mut self.updaters);
        }
        assert(self.reserveds@.len() == 0);
        let ghost merged = self.updaters@;
        let mut kept: Vec<UpdaterOwner<T>> = Vec::new();
        let ghost mut i: int = 0;
        while self.updaters.len() > 0
            invariant
                0 <= i <= merged.len(),
                self.updaters@ == merged.skip(i),
                self.reserveds@.len() == 0,
                kept@ == merged.take(i).filter(not_destroyed()),
            decreases self.updaters.len(),
        {
            let u = self.updaters.remove(0);
            proof {
                assert(u == merged[i]);
                assert(merged.take(i + 1) =~= merged.take(i).push(u));
                merged.take(i).lemma_filter_push(u, not_destroyed());
                assert(merged.skip(i).remove(0) =~= merged.skip(i + 1));
            }
            if !u.updater.is_destroyed() {
                kept.push(u);
            }
            proof {
                i = i + 1;
            }
        }
        assert(merged.take(i) =~= merged);
        self.updaters = kept;
        let ghost next = self.updaters@;
        let mut j: usize = 0;
        while j < self.updaters.len()
            invariant
                j <= self.updaters.len(),
                self.updaters@.len() == next.len(),
                self.reserveds@.len() == 0,
                forall|k: int| 0 <= k < next.len() ==> (#[trigger] self.updaters@[k]).order == next[k].order,
            decreases self.updaters.len() - j,
        {
            let owner = &mut self.updaters[j];
            owner.updater.update();
            j = j + 1;
        }
    }
}

} // verus!
