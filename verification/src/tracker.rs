//! The tracker, and the registry that it is installed in.
use std::mem::ManuallyDrop;
use std::sync::Arc;

use vstd::prelude::*;

use crate::registry::GroupTags;
use crate::thread::Suspension;
use crate::thread::ThreadState;
use crate::token::AllocationGroupId;

verus! {

/// Tracks allocations and deallocations.
pub trait AllocationTracker {
    /// Tracks when an allocation has occurred.
    ///
    /// If any tags were associated with the allocation group, they will be provided.
    fn allocated(
        &self,
        addr: usize,
        size: usize,
        group_id: AllocationGroupId,
        tags: Option<GroupTags>,
    );

    /// Tracks when a deallocation has occurred.
    ///
    /// The source group is the one in which the allocation was made, and the current group is the
    /// one in which the deallocation occurs.  Either is the root group if none was active.
    fn deallocated(
        &self,
        addr: usize,
        size: usize,
        source_group_id: AllocationGroupId,
        current_group_id: AllocationGroupId,
    );
}

/// A (de)allocation that a tracker is told of.
#[derive(Clone, Copy, Debug, PartialEq, Eq)]
pub enum AllocationEvent {
    /// An allocation has occurred.
    Allocated {
        /// Address of the allocation.
        addr: usize,
        /// Size of the allocation.
        size: usize,
        /// Group that was active.
        group_id: AllocationGroupId,
        /// Tags of that group.
        tags: Option<GroupTags>,
    },
    /// A deallocation has occurred.
    Deallocated {
        /// Address of the allocation.
        addr: usize,
        /// Size of the allocation.
        size: usize,
        /// Group in which the allocation was made.
        source_group_id: AllocationGroupId,
        /// Group that was active.
        current_group_id: AllocationGroupId,
    },
}

/// That the method of `tracker` which `event` is for was called with the values in `event`.
pub open spec fn told<T: AllocationTracker>(tracker: T, event: AllocationEvent) -> bool {
    match event {
        AllocationEvent::Allocated { addr, size, group_id, tags } => call_ensures(
            T::allocated,
            (&tracker, addr, size, group_id, tags),
            (),
        ),
        AllocationEvent::Deallocated { addr, size, source_group_id, current_group_id } => {
            call_ensures(
                T::deallocated,
                (&tracker, addr, size, source_group_id, current_group_id),
                (),
            )
        },
    }
}

/// A tracker that can be handed around.
pub struct Tracker<T> {
    tracker: Arc<T>,
}

impl<T> View for Tracker<T> {
    type V = T;

    closed spec fn view(&self) -> T {
        *self.tracker
    }
}

impl<T: AllocationTracker + Send + Sync + 'static> Tracker<T> {
    /// Wraps `allocation_tracker`.
    pub fn from_allocation_tracker(allocation_tracker: T) -> (tracker: Self)
        ensures
            tracker@ == allocation_tracker,
    {
        Tracker { tracker: Arc::new(allocation_tracker) }
    }

    /// Another handle to the same tracker.
    pub fn share(&self) -> (tracker: Self)
        ensures
            tracker@ == self@,
    {
        Tracker { tracker: Arc::clone(&self.tracker) }
    }

    /// Tracks when an allocation has occurred.
    pub fn allocated(
        &self,
        suspension: &mut Suspension,
        addr: usize,
        size: usize,
        group_id: AllocationGroupId,
        tags: Option<GroupTags>,
    )
        ensures
            told(self@, AllocationEvent::Allocated { addr, size, group_id, tags }),
            call_ensures(T::allocated, (&self@, addr, size, group_id, tags), ()),
            final(suspension)@ == old(suspension)@.with_told(
                AllocationEvent::Allocated { addr, size, group_id, tags },
            ),
    {
        suspension.record(AllocationEvent::Allocated { addr, size, group_id, tags });
        self.tracker.allocated(addr, size, group_id, tags)
    }

    /// Tracks when a deallocation has occurred.
    pub fn deallocated(
        &self,
        suspension: &mut Suspension,
        addr: usize,
        size: usize,
        source_group_id: AllocationGroupId,
        current_group_id: AllocationGroupId,
    )
        ensures
            told(
                self@,
                AllocationEvent::Deallocated { addr, size, source_group_id, current_group_id },
            ),
            call_ensures(
                T::deallocated,
                (&self@, addr, size, source_group_id, current_group_id),
                (),
            ),
            final(suspension)@ == old(suspension)@.with_told(
                AllocationEvent::Deallocated { addr, size, source_group_id, current_group_id },
            ),
    {
        suspension.record(
            AllocationEvent::Deallocated { addr, size, source_group_id, current_group_id },
        );
        self.tracker.deallocated(addr, size, source_group_id, current_group_id)
    }

    /// Tells the tracker of `event`, and records it once.
    pub fn deliver(&self, suspension: &mut Suspension, event: AllocationEvent)
        ensures
            told(self@, event),
            final(suspension)@ == old(suspension)@.with_told(event),
    {
        match event {
            AllocationEvent::Allocated { addr, size, group_id, tags } => {
                self.allocated(suspension, addr, size, group_id, tags)
            },
            AllocationEvent::Deallocated { addr, size, source_group_id, current_group_id } => {
                self.deallocated(suspension, addr, size, source_group_id, current_group_id)
            },
        }
    }
}

/// Returned if trying to set the global tracker fails.
#[derive(Debug)]
pub struct SetTrackerError {
    _sealed: (),
}

impl SetTrackerError {
    /// What went wrong, in words.
    pub fn message(&self) -> (message: &'static str)
        ensures
            message@ == "a global tracker has already been set"@,
    {
        "a global tracker has already been set"
    }
}

/// How far the global tracker has come.
#[derive(Clone, Copy, Debug, PartialEq, Eq, Structural)]
pub enum InitState {
    /// There is no tracker, and anybody may set one.
    Uninitialized,
    /// Somebody is about to set or clear the tracker.
    Initializing,
    /// The tracker is there for everybody to use.
    Initialized,
}

/// Abstract state of the [`AllocationRegistry`].
pub struct TrackingView<T> {
    /// Whether or not allocations should be tracked.
    pub enabled: bool,
    /// How far the global tracker has come.
    pub init: InitState,
    /// The global tracker.
    pub tracker: Option<T>,
}

impl<T> TrackingView<T> {
    /// No tracker, and tracking disabled.
    pub open spec fn fresh() -> Self {
        TrackingView { enabled: false, init: InitState::Uninitialized, tracker: None }
    }

    /// A tracker that is marked as being there really is there.
    pub open spec fn well_formed(self) -> bool {
        self.init == InitState::Initialized ==> self.tracker is Some
    }

    /// The tracker that (de)allocations are reported to: the installed one, if tracking is enabled.
    pub open spec fn active_tracker(self) -> Option<T> {
        if self.enabled && self.init == InitState::Initialized {
            self.tracker
        } else {
            None
        }
    }

    /// What taking the right to set the tracker makes of the state.
    pub open spec fn claimed(self) -> Self {
        TrackingView { init: InitState::Initializing, ..self }
    }

    /// What storing `tracker` makes of the state.
    pub open spec fn with_tracker(self, tracker: Option<T>) -> Self {
        TrackingView { tracker, ..self }
    }

    /// What declaring the tracker to be there makes of the state.
    pub open spec fn completed(self) -> Self {
        TrackingView { init: InitState::Initialized, ..self }
    }

    /// What setting the global tracker makes of the state, whether that succeeds or not.
    pub open spec fn after_set(self, tracker: T) -> Self {
        if self.init == InitState::Uninitialized {
            self.claimed().with_tracker(Some(tracker)).completed()
        } else {
            self
        }
    }

    /// What clearing the global tracker makes of the state.
    pub open spec fn cleared(self) -> Self {
        TrackingView { init: InitState::Uninitialized, tracker: None, ..self }
    }

    /// The same state but for whether allocations should be tracked.
    pub open spec fn with_enabled(self, enabled: bool) -> Self {
        TrackingView { enabled, ..self }
    }
}

/// Handles whether and by whom allocations are tracked.
pub struct AllocationRegistry<T> {
    // Whether or not allocations should be tracked.
    enabled: bool,
    init: InitState,
    // The global tracker.  This is called for all allocations, passing through the information to
    // whichever implementation is currently set.
    tracker: Option<Tracker<T>>,
}

impl<T> View for AllocationRegistry<T> {
    type V = TrackingView<T>;

    closed spec fn view(&self) -> TrackingView<T> {
        TrackingView {
            enabled: self.enabled,
            init: self.init,
            tracker: match self.tracker {
                Some(tracker) => Some(tracker@),
                None => None,
            },
        }
    }
}

impl<T> AllocationRegistry<T> {
    #[verifier::type_invariant]
    spec fn type_invariant(self) -> bool {
        self@.well_formed()
    }
}

impl<T: AllocationTracker + Send + Sync + 'static> AllocationRegistry<T> {
    /// A registry without a tracker, and with tracking disabled.
    pub fn new() -> (registry: Self)
        ensures
            registry@ == TrackingView::<T>::fresh(),
    {
        AllocationRegistry { enabled: false, init: InitState::Uninitialized, tracker: None }
    }

    /// Enables the tracking of allocations.
    pub fn enable_tracking(&mut self)
        ensures
            final(self)@ == old(self)@.with_enabled(true),
    {
        proof {
            use_type_invariant(&*self);
        }
        self.enabled = true;
    }

    /// Disables the tracking of allocations.
    pub fn disable_tracking(&mut self)
        ensures
            final(self)@ == old(self)@.with_enabled(false),
    {
        proof {
            use_type_invariant(&*self);
        }
        self.enabled = false;
    }

    /// Takes the right to set the tracker, unless somebody else has taken it.
    fn try_claim(&mut self) -> (claimed: bool)
        ensures
            claimed == (old(self)@.init == InitState::Uninitialized),
            final(self)@ == if claimed {
                old(self)@.claimed()
            } else {
                old(self)@
            },
    {
        if self.init == InitState::Uninitialized {
            self.init = InitState::Initializing;
            true
        } else {
            false
        }
    }

    /// Sets the global tracker.
    ///
    /// Setting a global tracker does not enable or disable the tracking of allocations, so callers
    /// still need to call `enable_tracking` after this in order to fully enable tracking.
    ///
    /// # Errors
    /// `Err(SetTrackerError)` is returned if a global tracker has already been set, otherwise
    /// `Ok(())`.
    pub fn set_global_tracker(&mut self, tracker: T) -> (result: Result<(), SetTrackerError>)
        ensures
            result is Ok <==> old(self)@.init == InitState::Uninitialized,
            final(self)@ == old(self)@.after_set(tracker),
    {
        if self.try_claim() {
            self.tracker = Some(Tracker::from_allocation_tracker(tracker));
            self.init = InitState::Initialized;
            Ok(())
        } else {
            Err(SetTrackerError { _sealed: () })
        }
    }

    /// Clears the global tracker.
    ///
    /// Whoever got hold of the tracker before keeps it.  This leaks the tracker: its destructor is
    /// not run.
    pub fn clear_global_tracker(&mut self)
        ensures
            final(self)@ == old(self)@.cleared(),
    {
        self.init = InitState::Initializing;
        let mut tracker = None;
        std::mem::swap(&mut tracker, &mut self.tracker);
        let _leaked = ManuallyDrop::new(tracker);
        self.init = InitState::Uninitialized;
    }

    /// The tracker that (de)allocations are reported to.
    pub fn get_global_tracker(&self) -> (tracker: Option<&Tracker<T>>)
        ensures
            tracker is Some <==> self@.active_tracker() is Some,
            tracker matches Some(tracker) ==> Some(tracker@) == self@.active_tracker(),
    {
        proof {
            use_type_invariant(self);
        }
        // If tracking isn't enabled, then there's no point returning the tracker.
        if !self.enabled {
            return None;
        }

        // Tracker has to actually be installed.
        if self.init != InitState::Initialized {
            return None;
        }

        let tracker = self.tracker.as_ref().expect(
            "global tracker marked as initialized, but failed to unwrap",
        );
        Some(tracker)
    }

    /// Runs `f` in a way where (de)allocations on this thread will not be tracked at all.
    ///
    /// This can be used by implementors in order to build or update data structures related to
    /// handling allocation events outside of the hot path.  `f` gets to see the thread as it is
    /// meanwhile.
    pub fn untracked<R, F: FnOnce(&ThreadState) -> R>(&self, thread: &mut ThreadState, f: F) -> (
    result: R)
        requires
            forall|suspended: ThreadState|
                suspended@ == old(thread)@.with_suspended(true)
                    ==> #[trigger] f.requires((&suspended,)),
        ensures
            exists|suspended: ThreadState|
                suspended@ == old(thread)@.with_suspended(true)
                    && #[trigger] f.ensures((&suspended,), result),
            final(thread)@ == old(thread)@,
    {
        let suspension = thread.suspend();
        let result = f(&*thread);
        thread.resume(suspension);
        result
    }
}

} // verus!
