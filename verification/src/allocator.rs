//! The allocator that intercepts (de)allocations, and what it reports of them.
use std::alloc::System;

use vstd::prelude::*;

use crate::registry::RegistryView;
use crate::registry::SharedTokenRegistry;
use crate::thread::Suspension;
use crate::thread::SuspensionView;
use crate::thread::ThreadState;
use crate::thread::ThreadView;
use crate::token::active_allocation_group;
use crate::token::get_active_allocation_group;
use crate::token::AllocationGroupId;
use crate::tracker::told;
use crate::tracker::AllocationEvent;
use crate::tracker::AllocationRegistry;
use crate::tracker::AllocationTracker;
use crate::tracker::Tracker;
use crate::tracker::TrackingView;

verus! {

/// Declares `std::alloc::System`, the allocator of the system: a unit struct.
#[verifier::external_type_specification]
pub struct ExSystem(std::alloc::System);

/// What is reported of an allocation of `size` bytes at `addr`, if anything is.
///
/// An allocation is reported if there is a tracker, tracking is enabled, the thread reports, and an
/// allocation group is active on it.
pub open spec fn allocation_event<T>(
    tracking: TrackingView<T>,
    registry: RegistryView,
    thread: ThreadView,
    addr: usize,
    size: usize,
) -> Option<AllocationEvent> {
    if tracking.active_tracker() is Some && thread.reports() {
        match active_allocation_group(registry, thread) {
            Some((group_id, tags)) => Some(
                AllocationEvent::Allocated { addr, size, group_id, tags },
            ),
            None => None,
        }
    } else {
        None
    }
}

/// The group that an allocation made on `thread` belongs to: the active one, or the root group if
/// none is active.
pub open spec fn group_or_root(thread: ThreadView) -> AllocationGroupId {
    match thread.current {
        Some(group_id) => group_id,
        None => AllocationGroupId::root(),
    }
}

/// What is reported of a deallocation of `size` bytes at `addr`, allocated in the group
/// `source_group_id`, if anything is.
///
/// A deallocation is reported if there is a tracker, tracking is enabled, and the thread reports.
pub open spec fn deallocation_event<T>(
    tracking: TrackingView<T>,
    thread: ThreadView,
    addr: usize,
    size: usize,
    source_group_id: AllocationGroupId,
) -> Option<AllocationEvent> {
    if tracking.active_tracker() is Some && thread.reports() {
        Some(
            AllocationEvent::Deallocated {
                addr,
                size,
                source_group_id,
                current_group_id: group_or_root(thread),
            },
        )
    } else {
        None
    }
}

/// The group that an allocation made on `thread` has to be marked with.
///
/// The mark is kept inline with the allocation, so that the group is known when the allocation is
/// given back.
pub fn allocation_group(thread: &ThreadState) -> (id: AllocationGroupId)
    ensures
        id == group_or_root(thread@),
{
    match thread.current() {
        Some(group_id) => group_id,
        None => AllocationGroupId::root(),
    }
}

/// Decides what to report of an allocation, and to which tracker.
///
/// If there is something to report, the allocation group is suspended, so that what the tracker
/// allocates in turn is not reported.  Once the tracker has been called, [`finish_event`] ends the
/// suspension.
pub fn begin_allocation<'a, T: AllocationTracker + Send + Sync + 'static>(
    tracking: &'a AllocationRegistry<T>,
    registry: &SharedTokenRegistry,
    thread: &mut ThreadState,
    addr: usize,
    size: usize,
) -> (report: Option<(&'a Tracker<T>, AllocationEvent, Suspension)>)
    ensures
        match allocation_event(tracking@, registry@, old(thread)@, addr, size) {
            Some(event) => {
                &&& report matches Some((tracker, reported, suspension)) && reported == event
                    && Some(tracker@) == tracking@.active_tracker() && suspension@
                    == SuspensionView::begun(old(thread)@)
                &&& final(thread)@ == old(thread)@.with_suspended(true)
            },
            None => report is None && final(thread)@ == old(thread)@,
        },
        final(thread)@.suspended == (report is Some || old(thread)@.suspended),
        final(thread)@.current == old(thread)@.current,
        final(thread)@.rcu_in_flight == old(thread)@.rcu_in_flight,
        final(thread)@.delivered == old(thread)@.delivered,
{
    if let Some(tracker) = tracking.get_global_tracker() {
        if thread.reports() {
            if let Some(group) = get_active_allocation_group(registry, thread) {
                let event = AllocationEvent::Allocated {
                    addr,
                    size,
                    group_id: group.id(),
                    tags: group.tags(),
                };
                let suspension = thread.suspend();
                return Some((tracker, event, suspension));
            }
        }
    }
    None
}

/// Decides what to report of a deallocation, and to which tracker.
///
/// `source_group_id` is what the allocation was marked with.  If there is something to report, the
/// allocation group is suspended as it is by [`begin_allocation`].
pub fn begin_deallocation<'a, T: AllocationTracker + Send + Sync + 'static>(
    tracking: &'a AllocationRegistry<T>,
    thread: &mut ThreadState,
    addr: usize,
    size: usize,
    source_group_id: AllocationGroupId,
) -> (report: Option<(&'a Tracker<T>, AllocationEvent, Suspension)>)
    ensures
        match deallocation_event(tracking@, old(thread)@, addr, size, source_group_id) {
            Some(event) => {
                &&& report matches Some((tracker, reported, suspension)) && reported == event
                    && Some(tracker@) == tracking@.active_tracker() && suspension@
                    == SuspensionView::begun(old(thread)@)
                &&& final(thread)@ == old(thread)@.with_suspended(true)
            },
            None => report is None && final(thread)@ == old(thread)@,
        },
        final(thread)@.suspended == (report is Some || old(thread)@.suspended),
        final(thread)@.current == old(thread)@.current,
        final(thread)@.rcu_in_flight == old(thread)@.rcu_in_flight,
        final(thread)@.delivered == old(thread)@.delivered,
{
    if let Some(tracker) = tracking.get_global_tracker() {
        if thread.reports() {
            let event = AllocationEvent::Deallocated {
                addr,
                size,
                source_group_id,
                current_group_id: allocation_group(thread),
            };
            let suspension = thread.suspend();
            return Some((tracker, event, suspension));
        }
    }
    None
}

/// Ends the suspension that a report began with.
///
/// With the suspension goes the right to call a tracker.
pub fn finish_event(thread: &mut ThreadState, suspension: Suspension)
    ensures
        final(thread)@ == suspension@.ended(old(thread)@),
        final(thread)@.suspended == suspension@.was_suspended,
        final(thread)@.delivered == old(thread)@.delivered + suspension@.told,
        final(thread)@.current == old(thread)@.current,
        final(thread)@.rcu_in_flight == old(thread)@.rcu_in_flight,
{
    thread.resume(suspension);
}

/// Tracking allocator implementation.
///
/// It wraps another allocator.  Whatever that allocator does is reported to the global tracker.
pub struct Allocator<A> {
    /// The wrapped allocator.
    pub inner: A,
}

impl<A> Allocator<A> {
    /// Creates a new `Allocator` that wraps another allocator.
    pub fn from_allocator(allocator: A) -> (wrapped: Self)
        ensures
            wrapped.inner == allocator,
    {
        Allocator { inner: allocator }
    }

    /// Reports that the wrapped allocator has allocated `size` bytes at `addr`, and returns what
    /// the tracker was told.
    ///
    /// As far as the thread records, the tracker is told of nothing else.  The allocation group is
    /// suspended meanwhile.
    pub fn track_alloc<T: AllocationTracker + Send + Sync + 'static>(
        &self,
        tracking: &AllocationRegistry<T>,
        registry: &SharedTokenRegistry,
        thread: &mut ThreadState,
        addr: usize,
        size: usize,
    ) -> (event: Option<AllocationEvent>)
        ensures
            event == allocation_event(tracking@, registry@, old(thread)@, addr, size),
            event matches Some(event) ==> told(tracking@.active_tracker()->Some_0, event),
            final(thread)@ == match event {
                Some(event) => old(thread)@.with_delivered(seq![event]),
                None => old(thread)@,
            },
            final(thread)@.current == old(thread)@.current,
            final(thread)@.rcu_in_flight == old(thread)@.rcu_in_flight,
            final(thread)@.suspended == old(thread)@.suspended,
            final(thread)@.delivered == match event {
                Some(event) => old(thread)@.delivered.push(event),
                None => old(thread)@.delivered,
            },
    {
        match begin_allocation(tracking, registry, thread, addr, size) {
            Some((tracker, event, suspension)) => {
                let mut suspension = suspension;
                tracker.deliver(&mut suspension, event);
                assert(suspension@.told == seq![event]);
                finish_event(thread, suspension);
                Some(event)
            },
            None => None,
        }
    }

    /// Reports that the wrapped allocator has deallocated the `size` bytes at `addr`, which were
    /// marked with `source_group_id`, and returns what the tracker was told.
    ///
    /// As far as the thread records, the tracker is told of nothing else.  The allocation group is
    /// suspended meanwhile.
    pub fn track_dealloc<T: AllocationTracker + Send + Sync + 'static>(
        &self,
        tracking: &AllocationRegistry<T>,
        thread: &mut ThreadState,
        addr: usize,
        size: usize,
        source_group_id: AllocationGroupId,
    ) -> (event: Option<AllocationEvent>)
        ensures
            event == deallocation_event(tracking@, old(thread)@, addr, size, source_group_id),
            event matches Some(event) ==> told(tracking@.active_tracker()->Some_0, event),
            final(thread)@ == match event {
                Some(event) => old(thread)@.with_delivered(seq![event]),
                None => old(thread)@,
            },
            final(thread)@.current == old(thread)@.current,
            final(thread)@.rcu_in_flight == old(thread)@.rcu_in_flight,
            final(thread)@.suspended == old(thread)@.suspended,
            final(thread)@.delivered == match event {
                Some(event) => old(thread)@.delivered.push(event),
                None => old(thread)@.delivered,
            },
    {
        match begin_deallocation(tracking, thread, addr, size, source_group_id) {
            Some((tracker, event, suspension)) => {
                let mut suspension = suspension;
                tracker.deliver(&mut suspension, event);
                assert(suspension@.told == seq![event]);
                finish_event(thread, suspension);
                Some(event)
            },
            None => None,
        }
    }
}

impl Allocator<System> {
    /// Creates a new `Allocator` that wraps the system allocator.
    pub fn system() -> (wrapped: Self)
        ensures
            wrapped.inner == System,
    {
        Self::from_allocator(System)
    }
}

impl Default for Allocator<System> {
    fn default() -> (wrapped: Self)
        ensures
            wrapped.inner == System,
    {
        Self::from_allocator(System)
    }
}

} // verus!
