//! What each operation does to the state it works on, part by part, and what it leaves alone.
//!
//! The laws hold of every state and every argument. They speak of the parts of the abstract states
//! themselves.
use std::borrow::Cow;
use std::sync::Arc;

use vstd::prelude::*;

use crate::allocator::allocation_event;
use crate::allocator::deallocation_event;
use crate::allocator::group_or_root;
use crate::registry::converts_to;
use crate::registry::snapshot_groups;
use crate::registry::tags_convert_to;
use crate::registry::GroupTags;
use crate::registry::RegistryPhase;
use crate::registry::RegistryView;
use crate::registry::TokenRegistry;
use crate::stack::stack_top;
use crate::thread::SuspensionView;
use crate::thread::ThreadView;
use crate::token::active_allocation_group;
use crate::token::AllocationGroupId;
use crate::token::GuardState;
use crate::tracker::told;
use crate::tracker::AllocationEvent;
use crate::tracker::AllocationTracker;
use crate::tracker::InitState;
use crate::tracker::TrackingView;

verus! {

/// A thread starts out with no active group, not registering, not suspended, and with nothing told of
/// it.
pub proof fn law_threads_start_out_idle()
    ensures
        ThreadView::fresh().current is None,
        !ThreadView::fresh().rcu_in_flight,
        !ThreadView::fresh().suspended,
        ThreadView::fresh().delivered.len() == 0,
{
}

/// The active group of a thread is what was made active last: registering groups, suspending, and
/// calling trackers leave it alone.
pub proof fn law_active_group_changes_only_by_entering_and_exiting(
    thread: ThreadView,
    group: Option<AllocationGroupId>,
    flag: bool,
    events: Seq<AllocationEvent>,
)
    ensures
        thread.with_current(group).current == group,
        thread.with_rcu_in_flight(flag).current == thread.current,
        thread.with_suspended(flag).current == thread.current,
        thread.with_delivered(events).current == thread.current,
{
}

/// Whether a thread is marked as registering changes only when a registration begins or ends.
pub proof fn law_mark_changes_only_by_registering(
    thread: ThreadView,
    group: Option<AllocationGroupId>,
    flag: bool,
    events: Seq<AllocationEvent>,
)
    ensures
        thread.with_rcu_in_flight(flag).rcu_in_flight == flag,
        thread.with_current(group).rcu_in_flight == thread.rcu_in_flight,
        thread.with_suspended(flag).rcu_in_flight == thread.rcu_in_flight,
        thread.with_delivered(events).rcu_in_flight == thread.rcu_in_flight,
{
}

/// Whether a thread is suspended changes only when it is suspended or resumed, whichever group is
/// active: entering and exiting, registering, and calling trackers leave it alone.
pub proof fn law_suspension_changes_only_by_suspending_and_resuming(
    thread: ThreadView,
    group: Option<AllocationGroupId>,
    flag: bool,
    events: Seq<AllocationEvent>,
)
    ensures
        thread.with_suspended(flag).suspended == flag,
        thread.with_current(group).suspended == thread.suspended,
        thread.with_rcu_in_flight(flag).suspended == thread.suspended,
        thread.with_delivered(events).suspended == thread.suspended,
{
}

/// What trackers were told of a thread only grows, by what they are told, in order.
pub proof fn law_record_grows_by_what_is_told(
    thread: ThreadView,
    group: Option<AllocationGroupId>,
    flag: bool,
    events: Seq<AllocationEvent>,
)
    ensures
        thread.with_delivered(events).delivered == thread.delivered + events,
        thread.with_current(group).delivered == thread.delivered,
        thread.with_rcu_in_flight(flag).delivered == thread.delivered,
        thread.with_suspended(flag).delivered == thread.delivered,
{
}

/// A thread reports unless it is registering a group or suspended, and for no other reason.
pub proof fn law_thread_reports_unless_registering_or_suspended(thread: ThreadView)
    ensures
        thread.reports() <==> !thread.rcu_in_flight && !thread.suspended,
{
}

/// A suspension remembers whether the thread was suspended before and what is told meanwhile, and
/// ending it puts back the one and adds the other. Nothing else of the thread is touched.
pub proof fn law_ending_a_suspension_undoes_it(
    thread: ThreadView,
    later: ThreadView,
    first: AllocationEvent,
    second: AllocationEvent,
)
    ensures
        ({
            let begun = SuspensionView::begun(thread);
            let silent = begun.ended(later);
            let after = begun.with_told(first).with_told(second).ended(later);
            &&& silent.suspended == thread.suspended
            &&& silent.delivered == later.delivered
            &&& silent.current == later.current
            &&& silent.rcu_in_flight == later.rcu_in_flight
            &&& after.suspended == thread.suspended
            &&& after.delivered == later.delivered.push(first).push(second)
            &&& after.current == later.current
            &&& after.rcu_in_flight == later.rcu_in_flight
        }),
{
    let begun = SuspensionView::begun(thread);
    let silent = begun.ended(later);
    let after = begun.with_told(first).with_told(second).ended(later);
    assert(silent.delivered =~= later.delivered);
    assert(after.delivered =~= later.delivered.push(first).push(second));
}

/// Each part of a suspension: what it begins with, what telling a tracker adds to it, and what ending
/// it makes of the thread.
pub proof fn law_suspension_keeps_what_is_told(
    thread: ThreadView,
    suspension: SuspensionView,
    event: AllocationEvent,
)
    ensures
        SuspensionView::begun(thread).was_suspended == thread.suspended,
        SuspensionView::begun(thread).told.len() == 0,
        suspension.with_told(event).was_suspended == suspension.was_suspended,
        suspension.with_told(event).told == suspension.told.push(event),
        suspension.ended(thread).suspended == suspension.was_suspended,
        suspension.ended(thread).delivered == thread.delivered + suspension.told,
        suspension.ended(thread).current == thread.current,
        suspension.ended(thread).rcu_in_flight == thread.rcu_in_flight,
{
}

/// Reporting an event does not keep the next one from being reported: two deallocations in a row are
/// both reported if the first is, each with its own address, size and source group, and the tracker
/// is told of both in order.
pub proof fn law_deallocations_in_a_row_are_all_reported<T>(
    tracking: TrackingView<T>,
    thread: ThreadView,
    first: (usize, usize, AllocationGroupId),
    second: (usize, usize, AllocationGroupId),
)
    requires
        tracking.enabled,
        tracking.init == InitState::Initialized,
        tracking.tracker is Some,
        !thread.rcu_in_flight,
        !thread.suspended,
    ensures
        ({
            let current = match thread.current {
                Some(group) => group,
                None => AllocationGroupId::root(),
            };
            let one = AllocationEvent::Deallocated {
                addr: first.0,
                size: first.1,
                source_group_id: first.2,
                current_group_id: current,
            };
            let two = AllocationEvent::Deallocated {
                addr: second.0,
                size: second.1,
                source_group_id: second.2,
                current_group_id: current,
            };
            let between = thread.with_delivered(seq![one]);
            &&& deallocation_event(tracking, thread, first.0, first.1, first.2) == Some(one)
            &&& deallocation_event(tracking, between, second.0, second.1, second.2) == Some(two)
            &&& between.with_delivered(seq![two]).delivered == thread.delivered.push(one).push(two)
            &&& between.with_delivered(seq![two]).current == thread.current
            &&& !between.with_delivered(seq![two]).rcu_in_flight
            &&& !between.with_delivered(seq![two]).suspended
        }),
{
    let current = match thread.current {
        Some(group) => group,
        None => AllocationGroupId::root(),
    };
    let one = AllocationEvent::Deallocated {
        addr: first.0,
        size: first.1,
        source_group_id: first.2,
        current_group_id: current,
    };
    let two = AllocationEvent::Deallocated {
        addr: second.0,
        size: second.1,
        source_group_id: second.2,
        current_group_id: current,
    };
    let between = thread.with_delivered(seq![one]);
    assert(between.with_delivered(seq![two]).delivered =~= thread.delivered.push(one).push(two));
}

/// What is reported next does not rest on what was reported before.
pub proof fn law_reports_do_not_depend_on_earlier_reports<T>(
    tracking: TrackingView<T>,
    registry: RegistryView,
    thread: ThreadView,
    earlier: Seq<AllocationEvent>,
    addr: usize,
    size: usize,
    source: AllocationGroupId,
)
    ensures
        allocation_event(tracking, registry, thread.with_delivered(earlier), addr, size)
            == allocation_event(tracking, registry, thread, addr, size),
        deallocation_event(tracking, thread.with_delivered(earlier), addr, size, source)
            == deallocation_event(tracking, thread, addr, size, source),
{
}

/// From suspending a thread until it is resumed nothing is reported of it, whichever group is active
/// and whichever is entered meanwhile, and whatever is registered or told meanwhile. Resuming makes it
/// report again what it would have reported before.
pub proof fn law_nothing_is_reported_between_suspending_and_resuming<T>(
    tracking: TrackingView<T>,
    registry: RegistryView,
    thread: ThreadView,
    group: Option<AllocationGroupId>,
    flag: bool,
    told: Seq<AllocationEvent>,
    addr: usize,
    size: usize,
    source: AllocationGroupId,
)
    ensures
        ({
            let suspended = thread.with_suspended(true);
            let busy = suspended.with_current(group).with_rcu_in_flight(flag).with_delivered(told);
            let resumed = SuspensionView::begun(thread).ended(suspended);
            &&& allocation_event(tracking, registry, suspended, addr, size) is None
            &&& deallocation_event(tracking, suspended, addr, size, source) is None
            &&& allocation_event(tracking, registry, busy, addr, size) is None
            &&& deallocation_event(tracking, busy, addr, size, source) is None
            &&& allocation_event(tracking, registry, resumed, addr, size) == allocation_event(
                tracking,
                registry,
                thread,
                addr,
                size,
            )
            &&& deallocation_event(tracking, resumed, addr, size, source) == deallocation_event(
                tracking,
                thread,
                addr,
                size,
                source,
            )
        }),
{
}

/// Acquiring a group while another one is active leaves that one active: what is allocated afterwards
/// is reported with the group and the tags it would have been reported with before.
pub proof fn law_acquiring_leaves_the_active_group_alone<T>(
    tracking: TrackingView<T>,
    registry: RegistryView,
    tags: Option<GroupTags>,
    thread: ThreadView,
    active: AllocationGroupId,
    addr: usize,
    size: usize,
)
    requires
        tracking.enabled,
        tracking.init == InitState::Initialized,
        tracking.tracker is Some,
        !thread.suspended,
        thread.current == Some(active),
        registry.published matches Some(groups) && active.index() < groups.len(),
    ensures
        ({
            let after = thread.with_rcu_in_flight(true).with_rcu_in_flight(false);
            &&& after.current == Some(active)
            &&& !after.suspended
            &&& after.delivered == thread.delivered
            &&& allocation_event(tracking, registry.registered(tags), after, addr, size) == Some(
                AllocationEvent::Allocated {
                    addr,
                    size,
                    group_id: active,
                    tags: registry.published->Some_0[active.index() as int],
                },
            )
        }),
{
}

/// An allocation is reported exactly if tracking is enabled, a tracker is installed, the thread is
/// neither registering nor suspended, a group is active on it, and something was ever registered. The
/// report holds the address and the size as given, the active group, and its tags.
pub proof fn law_what_is_reported_of_an_allocation<T>(
    tracking: TrackingView<T>,
    registry: RegistryView,
    thread: ThreadView,
    addr: usize,
    size: usize,
)
    ensures
        ({
            let event = allocation_event(tracking, registry, thread, addr, size);
            &&& event is Some <==> {
                &&& tracking.enabled
                &&& tracking.init == InitState::Initialized
                &&& tracking.tracker is Some
                &&& !thread.rcu_in_flight
                &&& !thread.suspended
                &&& thread.current is Some
                &&& registry.published is Some
            }
            &&& event matches Some(event) ==> {
                let groups = registry.published->Some_0;
                let index = thread.current->Some_0.index() as int;
                &&& event is Allocated
                &&& event->Allocated_addr == addr
                &&& event->Allocated_size == size
                &&& Some(event->Allocated_group_id) == thread.current
                &&& index < groups.len() ==> event->Allocated_tags == groups[index]
                &&& index >= groups.len() ==> event->Allocated_tags is None
            }
        }),
{
}

/// A deallocation is reported exactly if tracking is enabled, a tracker is installed, and the thread
/// is neither registering nor suspended. The report holds the address, the size and the source group
/// as given, and the active group, or the root group if none is active.
pub proof fn law_what_is_reported_of_a_deallocation<T>(
    tracking: TrackingView<T>,
    thread: ThreadView,
    addr: usize,
    size: usize,
    source: AllocationGroupId,
)
    ensures
        ({
            let event = deallocation_event(tracking, thread, addr, size, source);
            &&& event is Some <==> {
                &&& tracking.enabled
                &&& tracking.init == InitState::Initialized
                &&& tracking.tracker is Some
                &&& !thread.rcu_in_flight
                &&& !thread.suspended
            }
            &&& event matches Some(event) ==> {
                &&& event is Deallocated
                &&& event->Deallocated_addr == addr
                &&& event->Deallocated_size == size
                &&& event->Deallocated_source_group_id == source
                &&& thread.current matches Some(group) ==> event->Deallocated_current_group_id
                    == group
                &&& thread.current is None ==> event->Deallocated_current_group_id
                    == AllocationGroupId::root()
            }
        }),
{
}

/// An allocation is marked with the active group of its thread, and with the root group if none is
/// active, which is also what a stack of groups says of its top.
pub proof fn law_group_of_an_allocation(
    thread: ThreadView,
    group: AllocationGroupId,
    stack: Seq<AllocationGroupId>,
)
    ensures
        group_or_root(thread.with_current(Some(group))) == group,
        group_or_root(thread.with_current(None)) == AllocationGroupId::root(),
        thread.current matches Some(active) ==> group_or_root(thread) == active,
        thread.current is None ==> group_or_root(thread) == AllocationGroupId::root(),
        stack.len() > 0 ==> stack_top(stack) == stack[stack.len() - 1],
        stack.len() == 0 ==> stack_top(stack) == AllocationGroupId::root(),
{
}

/// To have been told of an event is to have had the method for it called with the values in it.
pub proof fn law_telling_is_calling<T: AllocationTracker>(
    tracker: T,
    addr: usize,
    size: usize,
    group: AllocationGroupId,
    tags: Option<GroupTags>,
    current: AllocationGroupId,
)
    ensures
        told(tracker, AllocationEvent::Allocated { addr, size, group_id: group, tags }) ==> call_ensures(
            T::allocated,
            (&tracker, addr, size, group, tags),
            (),
        ),
        told(
            tracker,
            AllocationEvent::Deallocated {
                addr,
                size,
                source_group_id: group,
                current_group_id: current,
            },
        ) ==> call_ensures(T::deallocated, (&tracker, addr, size, group, current), ()),
{
}

/// The metadata of a thread is there exactly if a group is active and something was ever registered,
/// and holds that group with the tags at its index, or none if nothing is registered there.
pub proof fn law_metadata_of_the_active_group(registry: RegistryView, thread: ThreadView)
    ensures
        active_allocation_group(registry, thread) is Some <==> thread.current is Some
            && registry.published is Some,
        active_allocation_group(registry, thread) matches Some((group, tags)) ==> {
            let groups = registry.published->Some_0;
            let index = group.index() as int;
            &&& thread.current == Some(group)
            &&& index < groups.len() ==> tags == groups[index]
            &&& index >= groups.len() ==> tags is None
        },
{
}

/// Entering a group makes it the active one and has the guard hold on to the one that was active
/// before. Nothing else of the thread is touched.
pub proof fn law_entering_a_group(thread: ThreadView, id: AllocationGroupId)
    ensures
        ({
            let (guard, entered) = GuardState::Idle(id).activated(thread);
            &&& guard == GuardState::Active(thread.current)
            &&& entered.current == Some(id)
            &&& entered.rcu_in_flight == thread.rcu_in_flight
            &&& entered.suspended == thread.suspended
            &&& entered.delivered == thread.delivered
        }),
{
}

/// Leaving a group makes the one that the guard held on to active again, and gives back the one that
/// was active until then. Nothing else of the thread is touched.
pub proof fn law_leaving_a_group(
    thread: ThreadView,
    previous: Option<AllocationGroupId>,
    active: AllocationGroupId,
)
    requires
        thread.current == Some(active),
    ensures
        ({
            let (guard, left) = GuardState::Active(previous).deactivated(thread);
            &&& guard == GuardState::Idle(active)
            &&& left.current == previous
            &&& left.rcu_in_flight == thread.rcu_in_flight
            &&& left.suspended == thread.suspended
            &&& left.delivered == thread.delivered
        }),
{
}

/// Making a guard idle that is idle already changes nothing, whether or not a group is active.
pub proof fn law_an_idle_guard_stays_idle(thread: ThreadView, idle: AllocationGroupId)
    ensures
        GuardState::Idle(idle).deactivated(thread).0 == GuardState::Idle(idle),
        GuardState::Idle(idle).deactivated(thread).1 == thread,
{
}

/// Registering a group adds one entry, at the end, and leaves every other entry as it is. The entry
/// holds the tags that were given, and its index is how many entries there were.
pub proof fn law_registering_adds_one_entry(
    registry: RegistryView,
    tags: Option<GroupTags>,
    index: int,
)
    ensures
        registry.registered(tags).phase == registry.phase,
        registry.registered(tags).published is Some,
        ({
            let before = match registry.published {
                Some(groups) => groups,
                None => Seq::empty(),
            };
            let after = registry.registered(tags).published->Some_0;
            &&& registry.groups() == before
            &&& after.len() == before.len() + 1
            &&& after[before.len() as int] == tags
            &&& 0 <= index < before.len() ==> after[index] == before[index]
            &&& registry.registered(tags).tags_at(before.len() as int) == tags
            &&& 0 <= index < before.len() ==> registry.registered(tags).tags_at(index)
                == before[index]
        }),
{
}

/// Looking up a group gives the tags at its index, and none where nothing is registered.
pub proof fn law_looking_up_a_group(registry: RegistryView, index: int)
    ensures
        registry.published is None ==> registry.groups().len() == 0 && registry.tags_at(
            index,
        ) is None,
        registry.published matches Some(groups) ==> {
            &&& registry.groups() == groups
            &&& 0 <= index < groups.len() ==> registry.tags_at(index) == groups[index]
            &&& index < 0 || index >= groups.len() ==> registry.tags_at(index) is None
        },
{
}

/// Each step of an update changes one part of the registry: who may publish, or what is published.
pub proof fn law_each_update_step_changes_one_part(
    registry: RegistryView,
    groups: Seq<Option<GroupTags>>,
)
    ensures
        RegistryView::fresh().phase == RegistryPhase::Stable,
        RegistryView::fresh().published is None,
        registry.claimed().phase == RegistryPhase::Modifying,
        registry.claimed().published == registry.published,
        registry.with_published(groups).phase == registry.phase,
        registry.with_published(groups).published == Some(groups),
        registry.released().phase == RegistryPhase::Stable,
        registry.released().published == registry.published,
{
}

/// A snapshot holds what the registry behind it holds.
pub proof fn law_snapshots_hold_the_registry(registry: Arc<TokenRegistry>)
    ensures
        snapshot_groups(Some(registry)) == Some(registry@),
        snapshot_groups(None) is None,
{
}

/// A text that a value converts to is the whole text that `into` returned for a clone of the value.
pub proof fn law_conversion_keeps_the_whole_text<K: Into<Cow<'static, str>> + Clone>(
    value: K,
    text: Seq<char>,
)
    requires
        converts_to(value, text),
    ensures
        exists|copy: K, converted: Cow<'static, str>|
            #![trigger call_ensures(K::into, (copy,), converted)]
            cloned(value, copy) && call_ensures(K::into, (copy,), converted) && converted@ == text,
{
}

/// Every tag that is given is kept, and nothing else: there are as many pairs as were given, and each
/// is what the pair given at its place converts to, key to key and value to value.
pub proof fn law_every_tag_is_kept<K, V>(
    tags: Seq<(K, V)>,
    texts: Seq<(&'static str, &'static str)>,
    index: int,
) where K: Into<Cow<'static, str>> + Clone, V: Into<Cow<'static, str>> + Clone
    requires
        tags_convert_to(tags, texts),
    ensures
        texts.len() == tags.len(),
        0 <= index < tags.len() ==> exists|copy: K, converted: Cow<'static, str>|
            #![trigger call_ensures(K::into, (copy,), converted)]
            cloned(tags[index].0, copy) && call_ensures(K::into, (copy,), converted) && converted@
                == texts[index].0@,
        0 <= index < tags.len() ==> exists|copy: V, converted: Cow<'static, str>|
            #![trigger call_ensures(V::into, (copy,), converted)]
            cloned(tags[index].1, copy) && call_ensures(V::into, (copy,), converted) && converted@
                == texts[index].1@,
{
    if 0 <= index < tags.len() {
        assert(converts_to(tags[index].0, texts[index].0@));
        assert(converts_to(tags[index].1, texts[index].1@));
    }
}

/// The tracker that is reported to is the installed one, if tracking is enabled and the tracker has
/// been declared to be there, and for no other reason none.
pub proof fn law_reports_go_to_the_installed_tracker<T>(tracking: TrackingView<T>)
    ensures
        tracking.enabled && tracking.init == InitState::Initialized ==> tracking.active_tracker()
            == tracking.tracker,
        !tracking.enabled ==> tracking.active_tracker() is None,
        tracking.init != InitState::Initialized ==> tracking.active_tracker() is None,
        tracking.well_formed() <==> (tracking.init == InitState::Initialized
            ==> tracking.tracker is Some),
{
}

/// Setting a tracker installs it where none was set or being set, and changes nothing where one was.
/// Whether tracking is enabled is left alone.
pub proof fn law_setting_a_tracker<T>(tracking: TrackingView<T>, tracker: T)
    ensures
        tracking.after_set(tracker).enabled == tracking.enabled,
        tracking.init == InitState::Uninitialized ==> tracking.after_set(tracker).init
            == InitState::Initialized && tracking.after_set(tracker).tracker == Some(tracker),
        tracking.init != InitState::Uninitialized ==> tracking.after_set(tracker).init
            == tracking.init && tracking.after_set(tracker).tracker == tracking.tracker,
{
}

/// Clearing takes the tracker out, so that another one can be set, and leaves alone whether tracking
/// is enabled. Switching changes that alone.
pub proof fn law_clearing_and_switching<T>(tracking: TrackingView<T>, enabled: bool)
    ensures
        tracking.cleared().init == InitState::Uninitialized,
        tracking.cleared().tracker is None,
        tracking.cleared().enabled == tracking.enabled,
        tracking.with_enabled(enabled).enabled == enabled,
        tracking.with_enabled(enabled).init == tracking.init,
        tracking.with_enabled(enabled).tracker == tracking.tracker,
        TrackingView::<T>::fresh().init == InitState::Uninitialized,
        TrackingView::<T>::fresh().tracker is None,
        !TrackingView::<T>::fresh().enabled,
{
}

/// Each step of setting a tracker changes one part of the state.
pub proof fn law_each_setting_step_changes_one_part<T>(
    tracking: TrackingView<T>,
    tracker: Option<T>,
)
    ensures
        tracking.claimed().init == InitState::Initializing,
        tracking.claimed().tracker == tracking.tracker,
        tracking.claimed().enabled == tracking.enabled,
        tracking.with_tracker(tracker).tracker == tracker,
        tracking.with_tracker(tracker).init == tracking.init,
        tracking.with_tracker(tracker).enabled == tracking.enabled,
        tracking.completed().init == InitState::Initialized,
        tracking.completed().tracker == tracking.tracker,
        tracking.completed().enabled == tracking.enabled,
{
}

} // verus!
