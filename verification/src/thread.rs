//! What a thread carries for the sake of tracking: its active allocation group and the two
//! conditions under which nothing it does is reported.
use vstd::prelude::*;

use crate::token::AllocationGroupId;
use crate::tracker::AllocationEvent;

verus! {

/// Abstract state of a thread.
pub struct ThreadView {
    /// The active allocation group, if there is one.
    pub current: Option<AllocationGroupId>,
    /// Whether the thread is in the middle of updating the token registry.
    pub rcu_in_flight: bool,
    /// Whether the allocation group is suspended: a tracker is being called, or the thread runs
    /// something that must not be tracked.
    pub suspended: bool,
    /// What trackers have been told of this thread so far.
    pub delivered: Seq<AllocationEvent>,
}

impl ThreadView {
    /// The state of a thread that has not entered any allocation group.
    pub open spec fn fresh() -> Self {
        ThreadView {
            current: None,
            rcu_in_flight: false,
            suspended: false,
            delivered: Seq::empty(),
        }
    }

    /// The same state but for the active allocation group.
    pub open spec fn with_current(self, current: Option<AllocationGroupId>) -> Self {
        ThreadView { current, ..self }
    }

    /// The same state but for whether a registry update is going on.
    pub open spec fn with_rcu_in_flight(self, rcu_in_flight: bool) -> Self {
        ThreadView { rcu_in_flight, ..self }
    }

    /// The same state but for whether the allocation group is suspended.
    pub open spec fn with_suspended(self, suspended: bool) -> Self {
        ThreadView { suspended, ..self }
    }

    /// The same state but that trackers have also been told of `events`, one after the other.
    pub open spec fn with_delivered(self, events: Seq<AllocationEvent>) -> Self {
        ThreadView { delivered: self.delivered + events, ..self }
    }

    /// Whether (de)allocations on this thread may be reported to a tracker at all.
    pub open spec fn reports(self) -> bool {
        !self.rcu_in_flight && !self.suspended
    }
}

/// State of a single thread.
///
/// Any allocation that occurs on the thread is associated with whichever allocation group is
/// current at the time of the allocation.
pub struct ThreadState {
    current: Option<AllocationGroupId>,
    rcu_in_flight: bool,
    suspended: bool,
    delivered: Ghost<Seq<AllocationEvent>>,
}

impl View for ThreadState {
    type V = ThreadView;

    closed spec fn view(&self) -> ThreadView {
        ThreadView {
            current: self.current,
            rcu_in_flight: self.rcu_in_flight,
            suspended: self.suspended,
            delivered: self.delivered@,
        }
    }
}

impl ThreadState {
    /// State of a thread that has not entered any allocation group.
    pub fn new() -> (thread: Self)
        ensures
            thread@ == ThreadView::fresh(),
    {
        ThreadState {
            current: None,
            rcu_in_flight: false,
            suspended: false,
            delivered: Ghost(Seq::empty()),
        }
    }

    /// The active allocation group.
    pub fn current(&self) -> (current: Option<AllocationGroupId>)
        ensures
            current == self@.current,
    {
        self.current
    }

    /// Makes `next` the active allocation group, and returns the one that was active before.
    pub(crate) fn replace_current(&mut self, next: Option<AllocationGroupId>) -> (previous: Option<
        AllocationGroupId,
    >)
        ensures
            previous == old(self)@.current,
            final(self)@ == old(self)@.with_current(next),
            final(self)@.current == next,
            final(self)@.rcu_in_flight == old(self)@.rcu_in_flight,
            final(self)@.suspended == old(self)@.suspended,
            final(self)@.delivered == old(self)@.delivered,
    {
        let previous = self.current;
        self.current = next;
        previous
    }

    /// Marks whether the thread is in the middle of updating the token registry.
    pub(crate) fn set_rcu_in_flight(&mut self, in_flight: bool)
        ensures
            final(self)@ == old(self)@.with_rcu_in_flight(in_flight),
            final(self)@.rcu_in_flight == in_flight,
            final(self)@.current == old(self)@.current,
            final(self)@.suspended == old(self)@.suspended,
            final(self)@.delivered == old(self)@.delivered,
    {
        self.rcu_in_flight = in_flight;
    }

    /// Whether (de)allocations on this thread may be reported to a tracker at all.
    pub fn reports(&self) -> (reports: bool)
        ensures
            reports == self@.reports(),
            reports == (!self@.rcu_in_flight && !self@.suspended),
    {
        !self.rcu_in_flight && !self.suspended
    }

    /// Suspends the allocation group until the suspension is handed to [`ThreadState::resume`].
    pub fn suspend(&mut self) -> (suspension: Suspension)
        ensures
            suspension@ == SuspensionView::begun(old(self)@),
            final(self)@ == old(self)@.with_suspended(true),
            suspension@.was_suspended == old(self)@.suspended,
            suspension@.told.len() == 0,
            final(self)@.suspended,
            final(self)@.current == old(self)@.current,
            final(self)@.rcu_in_flight == old(self)@.rcu_in_flight,
            final(self)@.delivered == old(self)@.delivered,
    {
        let was_suspended = self.suspended;
        self.suspended = true;
        Suspension { was_suspended, told: Ghost(Seq::empty()) }
    }

    /// Ends `suspension`: whether the allocation group is suspended is put back to what it was
    /// before, and what trackers were told meanwhile is taken over.
    pub fn resume(&mut self, suspension: Suspension)
        ensures
            final(self)@ == suspension@.ended(old(self)@),
            final(self)@.suspended == suspension@.was_suspended,
            final(self)@.delivered == old(self)@.delivered + suspension@.told,
            final(self)@.current == old(self)@.current,
            final(self)@.rcu_in_flight == old(self)@.rcu_in_flight,
    {
        self.suspended = suspension.was_suspended;
        self.delivered = Ghost(self.delivered@ + suspension.told@);
    }
}

/// Abstract state of a suspension.
pub struct SuspensionView {
    /// Whether the allocation group had been suspended already.
    pub was_suspended: bool,
    /// What trackers have been told since.
    pub told: Seq<AllocationEvent>,
}

impl SuspensionView {
    /// The suspension that begins on `thread`.
    pub open spec fn begun(thread: ThreadView) -> Self {
        SuspensionView { was_suspended: thread.suspended, told: Seq::empty() }
    }

    /// The same suspension but that a tracker has also been told of `event`.
    pub open spec fn with_told(self, event: AllocationEvent) -> Self {
        SuspensionView { told: self.told.push(event), ..self }
    }

    /// What ending the suspension makes of `thread`.
    pub open spec fn ended(self, thread: ThreadView) -> ThreadView {
        thread.with_suspended(self.was_suspended).with_delivered(self.told)
    }
}

/// The allocation group of a thread being suspended, which lasts until it is handed back to the
/// thread.
///
/// With it comes the right to call a tracker, and it keeps what trackers have been told.
pub struct Suspension {
    was_suspended: bool,
    told: Ghost<Seq<AllocationEvent>>,
}

impl View for Suspension {
    type V = SuspensionView;

    closed spec fn view(&self) -> SuspensionView {
        SuspensionView { was_suspended: self.was_suspended, told: self.told@ }
    }
}

impl Suspension {
    /// Keeps that a tracker is told of `event`.
    pub(crate) fn record(&mut self, event: AllocationEvent)
        ensures
            final(self)@ == old(self)@.with_told(event),
            final(self)@.told == old(self)@.told.push(event),
            final(self)@.was_suspended == old(self)@.was_suspended,
    {
        self.told = Ghost(self.told@.push(event));
    }
}

impl Default for ThreadState {
    fn default() -> (thread: Self)
        ensures
            thread@ == ThreadView::fresh(),
    {
        ThreadState::new()
    }
}

/// Whether `thread` is in the middle of updating the token registry.
///
/// Allocations made for the sake of such an update are not reported.
pub fn within_token_registry_rcu(thread: &ThreadState) -> (within: bool)
    ensures
        within == thread@.rcu_in_flight,
{
    thread.rcu_in_flight
}

} // verus!
