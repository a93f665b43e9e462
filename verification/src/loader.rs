use vstd::prelude::*;

use crate::types::LoadError;

verus! {

/// What to do for one file of the resolved set: files already present in
/// the local cache are left alone; only a file failing the existence
/// check is fetched.
#[derive(Clone, Copy, PartialEq, Eq, Structural, Debug)]
pub enum FetchPlan {
    AlreadyCached,
    Download,
}

/// Decide one file's fetch from the outcome of its existence check.
pub fn plan_fetch(exists_locally: bool) -> (p: FetchPlan)
    ensures
        p is Download <==> !exists_locally,
{
    if exists_locally {
        FetchPlan::AlreadyCached
    } else {
        FetchPlan::Download
    }
}

/// The first failure among the recorded fetch outcomes, if any.
pub open spec fn spec_first_error(s: Seq<Result<(), LoadError>>) -> Option<LoadError>
    decreases s.len(),
{
    if s.len() == 0 {
        None
    } else {
        match spec_first_error(s.drop_last()) {
            Some(e) => Some(e),
            None => match s.last() {
                Ok(_) => None,
                Err(e) => Some(e),
            },
        }
    }
}

/// Book-keeping for one cache-load operation over a fixed file list.
///
/// The loader owns no I/O: its driver asks it whether another fetch task
/// may start (`try_dispatch`), runs the existence check and the download
/// itself, and reports each completion (`task_done`).  The loader's
/// contracts bound the number of tasks in flight by the configured
/// capacity, force every dispatched task to be awaited before a result
/// exists, and aggregate the first failure while letting the remaining
/// tasks run to completion.  It never asks for a cache entry to be
/// removed, so files fetched before a sibling's failure stay cached.
pub struct Loader {
    /// How many files the operation covers.
    pub total: usize,
    /// How many fetch tasks have been started so far.
    pub dispatched: usize,
    /// How many started tasks have not completed yet.
    pub in_flight: usize,
    /// The fixed capacity of the permit pool gating concurrent fetches.
    pub capacity: usize,
    /// The first failure reported so far, if any.
    pub first_error: Option<LoadError>,
    /// The completion outcomes reported so far, in completion order.
    pub outcomes: Ghost<Seq<Result<(), LoadError>>>,
}

impl Loader {
    /// Internal consistency of the book-keeping.
    pub open spec fn wf(self) -> bool {
        &&& self.capacity >= 1
        &&& self.dispatched <= self.total
        &&& self.in_flight <= self.capacity
        &&& self.in_flight <= self.dispatched
        &&& self.outcomes@.len() == self.dispatched - self.in_flight
        &&& self.first_error == spec_first_error(self.outcomes@)
    }

    /// Start a load operation over `total` files with a permit pool of
    /// `capacity` slots.
    pub fn new(total: usize, capacity: usize) -> (r: Loader)
        requires
            capacity >= 1,
        ensures
            r.wf(),
            r.total == total,
            r.capacity == capacity,
            r.dispatched == 0,
            r.in_flight == 0,
            r.first_error is None,
            r.outcomes@ == Seq::<Result<(), LoadError>>::empty(),
    {
        Loader {
            total,
            dispatched: 0,
            in_flight: 0,
            capacity,
            first_error: None,
            outcomes: Ghost(Seq::empty()),
        }
    }

    /// Whether another fetch task may start right now: some file is still
    /// waiting and a permit is free.
    pub fn can_dispatch(&self) -> (r: bool)
        ensures
            r == (self.dispatched < self.total && self.in_flight < self.capacity),
    {
        self.dispatched < self.total && self.in_flight < self.capacity
    }

    /// The index of the next file to fetch.
    pub fn next_index(&self) -> (r: usize)
        ensures
            r == self.dispatched,
    {
        self.dispatched
    }

    /// Take a permit and start the next file's fetch task, if a file is
    /// waiting and a permit is free.  At most `capacity` tasks are ever
    /// in flight at once: when the pool is exhausted, no task starts
    /// until a completion frees a slot.
    pub fn try_dispatch(&mut self) -> (r: bool)
        requires
            old(self).wf(),
        ensures
            final(self).wf(),
            r == (old(self).dispatched < old(self).total && old(self).in_flight < old(
                self,
            ).capacity),
            r ==> final(self).dispatched == old(self).dispatched + 1 && final(self).in_flight
                == old(self).in_flight + 1,
            !r ==> *final(self) == *old(self),
            final(self).in_flight <= final(self).capacity,
            final(self).total == old(self).total,
            final(self).capacity == old(self).capacity,
            final(self).first_error == old(self).first_error,
            final(self).outcomes@ == old(self).outcomes@,
    {
        if self.dispatched < self.total && self.in_flight < self.capacity {
            self.dispatched = self.dispatched + 1;
            self.in_flight = self.in_flight + 1;
            true
        } else {
            false
        }
    }

    /// Record the completion of one fetch task, releasing its permit.
    /// The first failure is kept as the operation's aggregate error;
    /// later outcomes never replace it, and a failure stops no sibling.
    pub fn task_done(&mut self, outcome: Result<(), LoadError>)
        requires
            old(self).wf(),
            old(self).in_flight >= 1,
        ensures
            final(self).wf(),
            final(self).in_flight == old(self).in_flight - 1,
            final(self).outcomes@ == old(self).outcomes@.push(outcome),
            final(self).first_error == (if old(self).first_error is Some {
                old(self).first_error
            } else {
                match outcome {
                    Ok(_) => None::<LoadError>,
                    Err(e) => Some(e),
                }
            }),
            final(self).total == old(self).total,
            final(self).capacity == old(self).capacity,
            final(self).dispatched == old(self).dispatched,
    {
        proof {
            assert(old(self).outcomes@.push(outcome).drop_last() =~= old(self).outcomes@);
        }
        self.in_flight = self.in_flight - 1;
        self.outcomes = Ghost(self.outcomes@.push(outcome));
        if self.first_error.is_none() {
            match outcome {
                Ok(_) => {},
                Err(e) => {
                    self.first_error = Some(e);
                },
            }
        }
    }

    /// Whether every file has been dispatched and every task awaited.
    pub fn finished(&self) -> (r: bool)
        ensures
            r == (self.dispatched == self.total && self.in_flight == 0),
    {
        self.dispatched == self.total && self.in_flight == 0
    }

    /// The operation's aggregate result, once every task has completed:
    /// success when every fetch succeeded, otherwise the first failure.
    pub fn into_result(self) -> (r: Result<(), LoadError>)
        requires
            self.wf(),
            self.dispatched == self.total,
            self.in_flight == 0,
        ensures
            r matches Err(e) ==> spec_first_error(self.outcomes@) == Some(e),
            r is Ok ==> spec_first_error(self.outcomes@) is None,
    {
        match self.first_error {
            Some(e) => Err(e),
            None => Ok(()),
        }
    }

    /// Law: a well-formed loader never has more fetch tasks in flight
    /// than the capacity of its permit pool, whatever its history.
    pub proof fn lemma_bounded_concurrency(self)
        requires
            self.wf(),
        ensures
            self.in_flight <= self.capacity,
    {
    }
}

/// Law: the aggregate result reflects exactly the recorded outcomes.
/// There is no first error exactly when every completed fetch succeeded;
/// and a first error is a real failure among the outcomes, preceded only
/// by successes.
pub proof fn lemma_first_error_characterized(s: Seq<Result<(), LoadError>>)
    ensures
        spec_first_error(s) is None <==> (forall|i: int| 0 <= i < s.len() ==> s[i] is Ok),
        spec_first_error(s) matches Some(e) ==> exists|i: int|
            0 <= i < s.len() && s[i] == Result::<(), LoadError>::Err(e) && (forall|j: int|
                0 <= j < i ==> s[j] is Ok),
    decreases s.len(),
{
    if s.len() > 0 {
        lemma_first_error_characterized(s.drop_last());
        assert forall|i: int| 0 <= i < s.len() implies s[i] == if i < s.len() - 1 {
            s.drop_last()[i]
        } else {
            s.last()
        } by {}
    }
}

} // verus!
