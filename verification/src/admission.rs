//! Admission controller: a fixed-capacity, non-blocking concurrency limiter.
//!
//! The controller owns the single piece of cross-request shared state, the count of
//! available capacity units. A request either receives a permit at once or is
//! denied at once; a granted permit is handed back through `release` on every
//! exit path. The metrics sampler only reads `available` on its own schedule.

use vstd::prelude::*;

verus! {

/// Proof of one unit of reserved admission capacity. Only `RequestCounter::enter`
/// issues permits; a permit is consumed by handing it back to `release`.
#[derive(Debug)]
pub struct AdmissionPermit {
    granted: (),
}

/// A fixed-capacity admission controller. `available` counts the capacity units not
/// currently held by an in-flight request; it never exceeds `capacity`.
#[derive(Debug)]
pub struct RequestCounter {
    capacity: usize,
    available: usize,
}

/// Whether an immediate admission attempt against a controller with
/// `available` free units is granted.
pub open spec fn enter_grants(available: int) -> bool {
    available > 0
}

/// The free units left after one immediate admission attempt: a granted
/// attempt consumes one unit, a denied attempt consumes nothing.
pub open spec fn free_after_enter(available: int) -> int {
    if enter_grants(available) {
        available - 1
    } else {
        available
    }
}

/// The free units after a permit is handed back.
pub open spec fn free_after_release(available: int) -> int {
    available + 1
}

impl RequestCounter {
    /// The configured capacity of the controller.
    pub closed spec fn spec_capacity(self) -> int {
        self.capacity as int
    }

    /// The number of capacity units not currently held by a request.
    pub closed spec fn spec_available(self) -> int {
        self.available as int
    }

    /// The controller's invariant: the free count never exceeds the capacity.
    pub open spec fn wf(self) -> bool {
        0 <= self.spec_available() <= self.spec_capacity()
    }

    /// A fresh controller has all of its `permit_amount` units available.
    pub fn new(permit_amount: usize) -> (c: RequestCounter)
        ensures
            c.wf(),
            c.spec_capacity() == permit_amount,
            c.spec_available() == permit_amount,
    {
        RequestCounter { capacity: permit_amount, available: permit_amount }
    }

    /// The current free count, read by the metrics sampler; it never consumes
    /// a permit.
    pub fn available(&self) -> (r: usize)
        ensures
            r == self.spec_available(),
    {
        self.available
    }

    /// The configured capacity.
    pub fn capacity(&self) -> (r: usize)
        ensures
            r == self.spec_capacity(),
    {
        self.capacity
    }

    /// Attempts to acquire one unit of capacity without blocking: a permit
    /// exactly when a unit is free, `None` when all units are occupied.
    /// A denial is final for this attempt and changes no count.
    pub fn enter(&mut self) -> (r: Option<AdmissionPermit>)
        requires
            old(self).wf(),
        ensures
            final(self).wf(),
            final(self).spec_capacity() == old(self).spec_capacity(),
            r is Some <==> enter_grants(old(self).spec_available()),
            final(self).spec_available() == free_after_enter(old(self).spec_available()),
    {
        if self.available > 0 {
            self.available = self.available - 1;
            Some(AdmissionPermit { granted: () })
        } else {
            None
        }
    }

    /// Hands a permit back, freeing its capacity unit. The permit came from
    /// `enter` on this controller, so a unit is indeed outstanding.
    pub fn release(&mut self, permit: AdmissionPermit)
        requires
            old(self).wf(),
            old(self).spec_available() < old(self).spec_capacity(),
        ensures
            final(self).wf(),
            final(self).spec_capacity() == old(self).spec_capacity(),
            final(self).spec_available() == free_after_release(old(self).spec_available()),
    {
        let AdmissionPermit { granted: () } = permit;
        self.available = self.available + 1;
    }
}

/// How many of `attempts` immediate admission attempts are granted when they
/// run against a controller with `available` free units and nothing is released in
/// between.
pub open spec fn granted_of(available: nat, attempts: nat) -> nat
    decreases attempts,
{
    if attempts == 0 {
        0
    } else if available > 0 {
        1 + granted_of((available - 1) as nat, (attempts - 1) as nat)
    } else {
        granted_of(available, (attempts - 1) as nat)
    }
}

/// A run of immediate attempts is granted once per free unit and no more.
pub proof fn lemma_granted_is_min(available: nat, attempts: nat)
    ensures
        granted_of(available, attempts) == if available <= attempts {
            available
        } else {
            attempts
        },
    decreases attempts,
{
    if attempts > 0 {
        if available > 0 {
            lemma_granted_is_min((available - 1) as nat, (attempts - 1) as nat);
        } else {
            lemma_granted_is_min(available, (attempts - 1) as nat);
        }
    }
}

/// Admission cap (law): against a full controller of capacity `N`, `N + 1` immediate
/// attempts yield exactly `N` grants and at least one denial; once a permit is
/// then released, exactly one further attempt is granted before the capacity
/// is exhausted again.
pub proof fn lemma_admission_cap(capacity: nat)
    ensures
        granted_of(capacity, capacity + 1) == capacity,
        capacity + 1 - granted_of(capacity, capacity + 1) >= 1,
        enter_grants(free_after_release(0)),
        !enter_grants(free_after_enter(free_after_release(0))),
{
    lemma_granted_is_min(capacity, capacity + 1);
}

} // verus!
