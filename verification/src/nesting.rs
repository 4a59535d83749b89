//! How guards nest: entering and exiting allocation groups behaves like a stack.
use vstd::prelude::*;

use crate::allocator::allocation_event;
use crate::allocator::deallocation_event;
use crate::registry::RegistryView;
use crate::stack::stack_top;
use crate::thread::ThreadView;
use crate::token::AllocationGroupId;
use crate::token::GuardState;
use crate::tracker::AllocationEvent;
use crate::tracker::TrackingView;

verus! {

/// The group that is active once the groups in `stack` have been entered one after the other, when
/// `base` was active before.
pub open spec fn active_group(
    base: Option<AllocationGroupId>,
    stack: Seq<AllocationGroupId>,
) -> Option<AllocationGroupId> {
    if stack.len() == 0 {
        base
    } else {
        Some(stack.last())
    }
}

/// Whether `guards` are the guards of the groups in `stack`, which were entered one after the other
/// on `thread` when `base` was active there, with none of them exited since.
pub open spec fn nested(
    thread: ThreadView,
    base: Option<AllocationGroupId>,
    stack: Seq<AllocationGroupId>,
    guards: Seq<GuardState>,
) -> bool {
    &&& guards.len() == stack.len()
    &&& thread.current == active_group(base, stack)
    &&& forall|i: int|
        0 <= i < guards.len() ==> #[trigger] guards[i] == GuardState::Active(
            active_group(base, stack.take(i)),
        )
}

/// A thread on which nothing was entered yet is nested to depth zero.
pub proof fn law_nesting_starts_empty(thread: ThreadView)
    ensures
        nested(thread, thread.current, Seq::empty(), Seq::empty()),
{
}

/// Exiting or dropping right after entering, be it with a guard or with an unmanaged token, puts the
/// thread back to where it was, and gives back the group that was entered.
pub proof fn law_exit_undoes_enter(thread: ThreadView, id: AllocationGroupId)
    ensures
        ({
            let (guard, entered) = GuardState::Idle(id).activated(thread);
            &&& guard is Active
            &&& entered.current == Some(id)
            &&& guard.deactivated(entered) == (GuardState::Idle(id), thread)
        }),
{
}

/// The group that was replaced when a guard or an unmanaged token was entered is active again once
/// the guard or token is dropped, whatever group is active by then.
pub proof fn law_dropping_restores_replaced_group(
    thread: ThreadView,
    id: AllocationGroupId,
    later: ThreadView,
)
    requires
        later.current is Some,
    ensures
        ({
            let (entered, _) = GuardState::Idle(id).activated(thread);
            entered.deactivated(later).1 == later.with_current(thread.current)
        }),
{
}

/// Dropping a guard that was exited or dropped before changes nothing.
pub proof fn law_second_exit_changes_nothing(guard: GuardState, thread: ThreadView)
    ensures
        ({
            let (idle, left) = guard.deactivated(thread);
            idle.deactivated(left) == (idle, left)
        }),
{
}

/// Entering a group pushes it on top of the groups entered before.
pub proof fn law_enter_pushes(
    thread: ThreadView,
    base: Option<AllocationGroupId>,
    stack: Seq<AllocationGroupId>,
    guards: Seq<GuardState>,
    id: AllocationGroupId,
)
    requires
        nested(thread, base, stack, guards),
    ensures
        ({
            let (guard, entered) = GuardState::Idle(id).activated(thread);
            nested(entered, base, stack.push(id), guards.push(guard))
        }),
{
    let (guard, entered) = GuardState::Idle(id).activated(thread);
    assert forall|i: int| 0 <= i < guards.push(guard).len() implies #[trigger] guards.push(
        guard,
    )[i] == GuardState::Active(active_group(base, stack.push(id).take(i))) by {
        assert(stack.push(id).take(i) == stack.take(i));
        if i == guards.len() {
            assert(stack.take(i) == stack);
        }
    }
}

/// Exiting the innermost group pops it, gives it back, and makes the group below it active again.
pub proof fn law_exit_pops(
    thread: ThreadView,
    base: Option<AllocationGroupId>,
    stack: Seq<AllocationGroupId>,
    guards: Seq<GuardState>,
)
    requires
        nested(thread, base, stack, guards),
        stack.len() > 0,
    ensures
        guards.last() is Active,
        thread.current is Some,
        ({
            let (guard, left) = guards.last().deactivated(thread);
            &&& guard == GuardState::Idle(stack.last())
            &&& nested(left, base, stack.drop_last(), guards.drop_last())
        }),
{
    let (guard, left) = guards.last().deactivated(thread);
    let depth = stack.len() - 1;
    assert(guards[depth] == GuardState::Active(active_group(base, stack.take(depth))));
    assert(stack.take(depth) == stack.drop_last());
    assert forall|i: int| 0 <= i < guards.drop_last().len() implies #[trigger] guards.drop_last()[i]
        == GuardState::Active(active_group(base, stack.drop_last().take(i))) by {
        assert(guards[i] == GuardState::Active(active_group(base, stack.take(i))));
        assert(stack.drop_last().take(i) == stack.take(i));
    }
}

/// The state of `thread` after its guards have been exited, innermost first.
pub open spec fn unwound(thread: ThreadView, guards: Seq<GuardState>) -> ThreadView
    decreases guards.len(),
{
    if guards.len() == 0 {
        thread
    } else {
        unwound(guards.last().deactivated(thread).1, guards.drop_last())
    }
}

/// Exiting all guards, innermost first, puts the thread back to where it was before the first of
/// them was entered.
pub proof fn law_unwinding_restores_base(
    thread: ThreadView,
    base: Option<AllocationGroupId>,
    stack: Seq<AllocationGroupId>,
    guards: Seq<GuardState>,
)
    requires
        nested(thread, base, stack, guards),
    ensures
        unwound(thread, guards) == thread.with_current(base),
    decreases guards.len(),
{
    if guards.len() > 0 {
        law_exit_pops(thread, base, stack, guards);
        law_unwinding_restores_base(
            guards.last().deactivated(thread).1,
            base,
            stack.drop_last(),
            guards.drop_last(),
        );
    }
}

/// When the first group was entered with none active, the active group is the top of the stack of
/// groups, where an empty stack stands for no active group and has the root group on top.
pub proof fn law_active_group_is_stack_top(
    thread: ThreadView,
    stack: Seq<AllocationGroupId>,
    guards: Seq<GuardState>,
)
    requires
        nested(thread, None, stack, guards),
    ensures
        match thread.current {
            Some(id) => id == stack_top(stack),
            None => stack.len() == 0 && stack_top(stack) == AllocationGroupId::root(),
        },
{
}

/// Events are attributed to the group on top of the stack: deallocations always, whatever group the
/// allocation was made in, and allocations unless the stack is empty, in which case they are not
/// reported.
pub proof fn law_events_carry_stack_top<T>(
    tracking: TrackingView<T>,
    registry: RegistryView,
    thread: ThreadView,
    stack: Seq<AllocationGroupId>,
    guards: Seq<GuardState>,
    addr: usize,
    size: usize,
    source: AllocationGroupId,
)
    requires
        tracking.active_tracker() is Some,
        registry.published is Some,
        thread.reports(),
        nested(thread, None, stack, guards),
    ensures
        deallocation_event(tracking, thread, addr, size, source) == Some(
            AllocationEvent::Deallocated {
                addr,
                size,
                source_group_id: source,
                current_group_id: stack_top(stack),
            },
        ),
        allocation_event(tracking, registry, thread, addr, size) == if stack.len() == 0 {
            None
        } else {
            Some(
                AllocationEvent::Allocated {
                    addr,
                    size,
                    group_id: stack_top(stack),
                    tags: registry.tags_at(stack_top(stack).index() as int),
                },
            )
        },
{
}

/// Popping undoes pushing, and what was pushed last is the active group.
pub proof fn law_pop_undoes_push(stack: Seq<AllocationGroupId>, group: AllocationGroupId)
    ensures
        stack_top(stack.push(group)) == group,
        stack.push(group).last() == group,
        stack.push(group).drop_last() == stack,
{
}

} // verus!
