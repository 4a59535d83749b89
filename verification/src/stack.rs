//! A stack of allocation groups.
use vstd::prelude::*;

use crate::thread::ThreadState;
use crate::token::AllocationGroupId;

verus! {

/// Calls `Vec::capacity`: the number of items that `slots` can hold without reallocating, which is
/// no fewer than it holds.
#[verifier::external_body]
fn slot_capacity(slots: &Vec<AllocationGroupId>) -> (capacity: usize)
    ensures
        slots@.len() <= capacity,
{
    slots.capacity()
}

/// An allocation group stack.
///
/// As allocation groups are entered and exited, they naturally end up looking a lot like a stack
/// itself: the active allocation group gets added to the stack when entered, and if another
/// allocation group is entered before the previous is exited, the newer group is added to the stack
/// above the previous one, and so on and so forth.
///
/// This implementation is an incredibly thin wrapper around `Vec<T>` which already provides the
/// necessary "push" and "pop" methods required for a stack. Our logic is slightly tweaked to account
/// for the expectation that there should never be a pop without a corresponding push, and so on.
pub struct GroupStack {
    slots: Vec<AllocationGroupId>,
}

impl View for GroupStack {
    type V = Seq<AllocationGroupId>;

    closed spec fn view(&self) -> Seq<AllocationGroupId> {
        self.slots@
    }
}

/// The active group of a stack: the one on top, or the root group if the stack is empty.
pub open spec fn stack_top(stack: Seq<AllocationGroupId>) -> AllocationGroupId {
    if stack.len() == 0 {
        AllocationGroupId::root()
    } else {
        stack.last()
    }
}

impl GroupStack {
    /// Creates an empty [`GroupStack`].
    pub fn new() -> (stack: Self)
        ensures
            stack@ == Seq::<AllocationGroupId>::empty(),
    {
        GroupStack { slots: Vec::new() }
    }

    /// Gets the currently active allocation group.
    ///
    /// If the stack is empty, then the root allocation group is the defacto active allocation group,
    /// and is returned as such.
    pub fn current(&self) -> (group: AllocationGroupId)
        ensures
            group == stack_top(self@),
    {
        if self.slots.is_empty() {
            AllocationGroupId::root()
        } else {
            self.slots[self.slots.len() - 1]
        }
    }

    /// Makes room for more groups, which must not be tracked.
    fn grow(&mut self, thread: &ThreadState)
        requires
            thread@.suspended,
        ensures
            final(self)@ == old(self)@,
    {
        // 64 should be more than enough for literally any normal operational profile, which means
        // we'll allocate _once_ per thread.. and then hopefully never again. If we have to allocate
        // again, well, that stinks... but the depth of nested allocation groups should be fairly
        // low in nearly all cases, low enough to fit into the first 64-element resize that we do.
        self.slots.reserve(64);
    }

    /// Pushes an allocation group on to the stack, marking it as the active allocation group.
    pub fn push(&mut self, thread: &mut ThreadState, group: AllocationGroupId)
        ensures
            final(self)@ == old(self)@.push(group),
            final(thread)@ == old(thread)@,
    {
        if self.slots.len() == slot_capacity(&self.slots) {
            // Make sure we don't track this allocation, which reentrancy protection would do
            // correctly, but we're just optimizing a little bit here for maximum speeeeeeeed.
            let suspension = thread.suspend();
            self.grow(thread);
            thread.resume(suspension);
        }

        self.slots.push(group);
    }

    /// Pops the currently active allocation group off the stack.
    pub fn pop(&mut self) -> (group: AllocationGroupId)
        requires
            old(self)@.len() > 0,
        ensures
            group == old(self)@.last(),
            final(self)@ == old(self)@.drop_last(),
    {
        self.slots.pop().unwrap()
    }
}

} // verus!
