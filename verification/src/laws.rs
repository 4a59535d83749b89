//! What holds of the library as a whole.
//!
//! The laws speak of the abstract states, and of the functions on them that say what each operation
//! does.
use vstd::prelude::*;

use crate::allocator::allocation_event;
use crate::allocator::deallocation_event;
use crate::allocator::group_or_root;
use crate::registry::GroupTags;
use crate::registry::RegistryView;
use crate::thread::SuspensionView;
use crate::thread::ThreadView;
use crate::token::AllocationGroupId;
use crate::token::GuardState;
use crate::tracker::AllocationEvent;
use crate::tracker::InitState;
use crate::tracker::TrackingView;

verus! {

/// What registering a group for each entry of `tags`, one after the other, makes of `registry`.
pub open spec fn registered_all(
    registry: RegistryView,
    tags: Seq<Option<GroupTags>>,
) -> RegistryView
    decreases tags.len(),
{
    if tags.len() == 0 {
        registry
    } else {
        registered_all(registry, tags.drop_last()).registered(tags.last())
    }
}

/// Registering groups keeps the groups that are registered already, and appends the new ones in
/// order.
pub proof fn law_registrations_append(registry: RegistryView, tags: Seq<Option<GroupTags>>)
    ensures
        registered_all(registry, tags).groups() == registry.groups() + tags,
    decreases tags.len(),
{
    if tags.len() == 0 {
        assert(registry.groups() + tags == registry.groups());
    } else {
        law_registrations_append(registry, tags.drop_last());
        assert(registry.groups() + tags == (registry.groups() + tags.drop_last()).push(
            tags.last(),
        ));
    }
}

/// IDs are given out in increasing order, so no two registrations give out the same ID, however many
/// lie between them.
///
/// The ID that a registration gives out is the number of groups registered before it.
pub proof fn law_group_ids_are_unique(
    registry: RegistryView,
    tags: Option<GroupTags>,
    between: Seq<Option<GroupTags>>,
    first: AllocationGroupId,
    second: AllocationGroupId,
)
    requires
        first.index() == registry.groups().len(),
        second.index() == registered_all(registry.registered(tags), between).groups().len(),
    ensures
        first.index() < second.index(),
        first != second,
{
    law_registrations_append(registry.registered(tags), between);
}

/// A group keeps the tags that it was registered with, whatever is registered later.
pub proof fn law_group_keeps_its_tags(
    registry: RegistryView,
    tags: Option<GroupTags>,
    later: Seq<Option<GroupTags>>,
    id: AllocationGroupId,
)
    requires
        id.index() == registry.groups().len(),
    ensures
        registered_all(registry.registered(tags), later).tags_at(id.index() as int) == tags,
        registered_all(registry.registered(tags), later).published is Some,
    decreases later.len(),
{
    law_registrations_append(registry.registered(tags), later);
    if later.len() > 0 {
        law_group_keeps_its_tags(registry, tags, later.drop_last(), id);
    }
}

/// The tags of a group are provided to the tracker whenever an allocation is associated with the
/// group, whatever is registered later.
pub proof fn law_allocations_carry_group_and_tags<T>(
    tracking: TrackingView<T>,
    registry: RegistryView,
    tags: Option<GroupTags>,
    later: Seq<Option<GroupTags>>,
    thread: ThreadView,
    id: AllocationGroupId,
    addr: usize,
    size: usize,
)
    requires
        tracking.active_tracker() is Some,
        thread.reports(),
        id.index() == registry.groups().len(),
    ensures
        ({
            let entered = GuardState::Idle(id).activated(thread).1;
            let registry = registered_all(registry.registered(tags), later);
            allocation_event(tracking, registry, entered, addr, size) == Some(
                AllocationEvent::Allocated { addr, size, group_id: id, tags },
            )
        }),
{
    law_group_keeps_its_tags(registry, tags, later, id);
}

/// No allocations are tracked unless a group is active on the thread making the allocation.
pub proof fn law_no_group_no_allocation_event<T>(
    tracking: TrackingView<T>,
    registry: RegistryView,
    thread: ThreadView,
    addr: usize,
    size: usize,
)
    requires
        thread.current is None,
    ensures
        allocation_event(tracking, registry, thread, addr, size) is None,
{
}

/// Nothing is reported while tracking is disabled, or while no tracker is installed.
pub proof fn law_no_event_without_active_tracker<T>(
    tracking: TrackingView<T>,
    registry: RegistryView,
    thread: ThreadView,
    addr: usize,
    size: usize,
    source: AllocationGroupId,
)
    requires
        !tracking.enabled || tracking.init != InitState::Initialized,
    ensures
        allocation_event(tracking, registry, thread, addr, size) is None,
        deallocation_event(tracking, thread, addr, size, source) is None,
{
}

/// While the allocation group of a thread is suspended, nothing the thread does is reported,
/// whichever tracker is installed and whichever group is active by then.
///
/// So a tracker that allocates and deallocates does not lead to infinite recursion, and what runs
/// untracked is not tracked.
pub proof fn law_nothing_is_reported_while_suspended<T>(
    tracking: TrackingView<T>,
    registry: RegistryView,
    thread: ThreadView,
    addr: usize,
    size: usize,
    source: AllocationGroupId,
)
    requires
        thread.suspended,
    ensures
        allocation_event(tracking, registry, thread, addr, size) is None,
        deallocation_event(tracking, thread, addr, size, source) is None,
{
}

/// Finishing a report puts the thread back to where it was before the report began, but for what the
/// tracker was told.
pub proof fn law_finishing_undoes_beginning(thread: ThreadView, event: AllocationEvent)
    ensures
        SuspensionView::begun(thread).ended(thread.with_suspended(true)) == thread,
        SuspensionView::begun(thread).with_told(event).ended(thread.with_suspended(true))
            == thread.with_delivered(seq![event]),
{
    assert(thread.delivered + Seq::empty() == thread.delivered);
    assert(SuspensionView::begun(thread).with_told(event).told == seq![event]);
}

/// What was allocated in a group is reported with that group when it is freed, whichever thread frees
/// it and whichever group is active there by then.
///
/// An allocation is marked with the group of the thread that makes it, which is also the group that
/// the allocation is reported with.
pub proof fn law_deallocations_carry_source_group<T>(
    allocating: TrackingView<T>,
    registry: RegistryView,
    allocator: ThreadView,
    freeing: TrackingView<T>,
    freer: ThreadView,
    addr: usize,
    size: usize,
)
    requires
        freeing.active_tracker() is Some,
        freer.reports(),
    ensures
        ({
            let source = group_or_root(allocator);
            &&& deallocation_event(freeing, freer, addr, size, source) == Some(
                AllocationEvent::Deallocated {
                    addr,
                    size,
                    source_group_id: source,
                    current_group_id: group_or_root(freer),
                },
            )
            &&& allocator.current matches Some(group) ==> source == group
            &&& allocation_event(allocating, registry, allocator, addr, size) matches Some(event)
                ==> event->Allocated_group_id == source
        }),
{
}

/// While a thread updates the token registry, nothing it does is reported.
pub proof fn law_registry_updates_are_not_reported<T>(
    tracking: TrackingView<T>,
    registry: RegistryView,
    thread: ThreadView,
    addr: usize,
    size: usize,
    source: AllocationGroupId,
)
    ensures
        ({
            let during = thread.with_rcu_in_flight(true);
            &&& allocation_event(tracking, registry, during, addr, size) is None
            &&& deallocation_event(tracking, during, addr, size, source) is None
        }),
{
}

/// Setting a global tracker does not enable or disable the tracking of allocations: nothing is
/// reported to it before tracking is enabled, and from then on everything is.
pub proof fn law_setting_a_tracker_does_not_enable_tracking<T>(
    tracking: TrackingView<T>,
    tracker: T,
)
    requires
        tracking.init == InitState::Uninitialized,
    ensures
        tracking.after_set(tracker).enabled == tracking.enabled,
        !tracking.enabled ==> tracking.after_set(tracker).active_tracker() is None,
        tracking.after_set(tracker).with_enabled(true).active_tracker() == Some(tracker),
        tracking.with_enabled(true).after_set(tracker).active_tracker() == Some(tracker),
{
}

/// Once a global tracker has been set, it stays, whoever tries to set another one.
pub proof fn law_first_tracker_stays<T>(tracking: TrackingView<T>, first: T, second: T)
    ensures
        tracking.after_set(first).after_set(second) == tracking.after_set(first),
        tracking.after_set(first).init != InitState::Uninitialized,
{
}

/// Clearing the global tracker undoes setting it, and leaves alone whether tracking is enabled.
pub proof fn law_clearing_undoes_setting<T>(tracking: TrackingView<T>, tracker: T, next: T)
    requires
        tracking.init == InitState::Uninitialized,
        tracking.tracker is None,
    ensures
        tracking.after_set(tracker).cleared() == tracking,
        tracking.after_set(tracker).cleared().after_set(next) == tracking.after_set(next),
{
}

/// Tracking can be enabled and disabled at any time, and the last call decides.
pub proof fn law_last_switch_decides<T>(tracking: TrackingView<T>, first: bool, last: bool)
    ensures
        tracking.with_enabled(first).with_enabled(last) == tracking.with_enabled(last),
        tracking.with_enabled(false).active_tracker() is None,
{
}

/// Whoever sets, clears, enables or disables: a tracker that is marked as being there really is
/// there.
pub proof fn law_marked_tracker_is_there<T>(tracking: TrackingView<T>, tracker: T, enabled: bool)
    requires
        tracking.well_formed(),
    ensures
        TrackingView::<T>::fresh().well_formed(),
        tracking.claimed().well_formed(),
        tracking.claimed().with_tracker(Some(tracker)).well_formed(),
        tracking.after_set(tracker).well_formed(),
        tracking.cleared().well_formed(),
        tracking.with_enabled(enabled).well_formed(),
{
}

} // verus!
