//! The expiry schedule: for each tick, the proposals that close at it.

use std::collections::HashMap;
use vstd::prelude::*;
use crate::types::{Error, ProposalId, Tick};

verus! {

/// Owns the buckets of identifiers, one per closing tick, and bounds how many
/// identifiers a bucket takes.
#[derive(Clone, Debug, PartialEq, Eq)]
pub struct ExpirySchedule {
    capacity: u32,
    buckets: HashMap<Tick, Vec<ProposalId>>,
}

/// What `schedule` holds for `tick`, in registration order; nothing where it
/// keeps no bucket.
pub open spec fn bucket_of(schedule: Map<Tick, Seq<ProposalId>>, tick: Tick) -> Seq<ProposalId> {
    if schedule.contains_key(tick) {
        schedule[tick]
    } else {
        Seq::empty()
    }
}

impl View for ExpirySchedule {
    type V = Map<Tick, Seq<ProposalId>>;

    /// The buckets, each in registration order.
    closed spec fn view(&self) -> Map<Tick, Seq<ProposalId>> {
        self.buckets@.map_values(|ids: Vec<ProposalId>| ids@)
    }
}

impl ExpirySchedule {
    /// How many identifiers a bucket takes.
    pub closed spec fn spec_capacity(&self) -> u32 {
        self.capacity
    }

    /// The identifiers due at `tick`, in registration order; none where no
    /// bucket is kept.
    pub open spec fn bucket(&self, tick: Tick) -> Seq<ProposalId> {
        bucket_of(self@, tick)
    }

    /// No bucket is empty and none holds more than the capacity.
    pub open spec fn wf(&self) -> bool {
        forall|t: Tick| #[trigger]
            self@.contains_key(t) ==> 0 < self@[t].len() <= self.spec_capacity()
    }

    /// A schedule without buckets.
    pub fn new(capacity: u32) -> (schedule: ExpirySchedule)
        ensures
            schedule.wf(),
            schedule@ == Map::<Tick, Seq<ProposalId>>::empty(),
            schedule.spec_capacity() == capacity,
    {
        ExpirySchedule { capacity, buckets: HashMap::new() }
    }

    /// How many identifiers a bucket takes.
    #[verifier::when_used_as_spec(spec_capacity)]
    pub fn capacity(&self) -> (capacity: u32)
        ensures
            capacity == self.spec_capacity(),
    {
        self.capacity
    }

    /// How many identifiers are due at `tick`.
    pub fn pending(&self, tick: Tick) -> (n: usize)
        ensures
            n == self.bucket(tick).len(),
    {
        match self.buckets.get(&tick) {
            Some(ids) => ids.len(),
            None => 0,
        }
    }

    /// A copy of the bucket of `tick`, in registration order.
    pub fn due(&self, tick: Tick) -> (ids: Vec<ProposalId>)
        ensures
            ids@ == self.bucket(tick),
    {
        let mut ids: Vec<ProposalId> = Vec::new();
        if let Some(bucket) = self.buckets.get(&tick) {
            let mut i: usize = 0;
            while i < bucket.len()
                invariant
                    0 <= i <= bucket.len(),
                    ids@ == bucket@.take(i as int),
                decreases bucket.len() - i,
            {
                ids.push(bucket[i]);
                i = i + 1;
            }
        }
        ids
    }

    /// Appends `id` to the bucket of `tick`. A bucket that already holds as
    /// many identifiers as the capacity allows takes no more: the call fails
    /// with `CapacityExceeded` and the schedule stays as it was.
    pub fn register(&mut self, tick: Tick, id: ProposalId) -> (r: Result<(), Error>)
        requires
            old(self).wf(),
        ensures
            final(self).wf(),
            final(self).spec_capacity() == old(self).spec_capacity(),
            old(self).bucket(tick).len() < old(self).spec_capacity() ==> {
                &&& r == Ok::<(), Error>(())
                &&& final(self)@ == old(self)@.insert(tick, old(self).bucket(tick).push(id))
            },
            old(self).bucket(tick).len() >= old(self).spec_capacity() ==> {
                &&& r == Err::<(), Error>(Error::CapacityExceeded)
                &&& final(self)@ == old(self)@
            },
    {
        if self.pending(tick) >= self.capacity as usize {
            return Err(Error::CapacityExceeded);
        }
        let mut ids = match self.buckets.remove(&tick) {
            Some(ids) => ids,
            None => Vec::new(),
        };
        ids.push(id);
        self.buckets.insert(tick, ids);
        assert(self@ =~= old(self)@.insert(tick, old(self).bucket(tick).push(id)));
        Ok(())
    }

    /// Hands out the bucket of `tick`, in registration order, and drops it
    /// from the schedule.
    pub fn take_and_clear(&mut self, tick: Tick) -> (ids: Vec<ProposalId>)
        ensures
            ids@ == old(self).bucket(tick),
            final(self)@ == old(self)@.remove(tick),
            final(self).spec_capacity() == old(self).spec_capacity(),
            old(self).wf() ==> final(self).wf(),
    {
        match self.buckets.remove(&tick) {
            Some(ids) => ids,
            None => Vec::new(),
        }
    }
}

} // verus!
