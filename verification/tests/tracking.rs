use std::alloc::System;
use std::sync::{Arc, Mutex};

use tracking_allocator::{
    allocation_group, begin_allocation, begin_deallocation, finish_event, AllocationEvent,
    AllocationGroupId, AllocationGroupToken, AllocationRegistry, AllocationTracker, Allocator,
    GroupTags, SharedTokenRegistry, ThreadState,
};

/// Records what it is told.
#[derive(Clone)]
struct Recorder(Arc<Mutex<Vec<AllocationEvent>>>);

impl Recorder {
    fn new() -> Self {
        Recorder(Arc::new(Mutex::new(Vec::new())))
    }

    fn take(&self) -> Vec<AllocationEvent> {
        std::mem::take(&mut *self.0.lock().unwrap())
    }
}

impl AllocationTracker for Recorder {
    fn allocated(
        &self,
        addr: usize,
        size: usize,
        group_id: AllocationGroupId,
        tags: Option<GroupTags>,
    ) {
        self.0.lock().unwrap().push(AllocationEvent::Allocated { addr, size, group_id, tags });
    }

    fn deallocated(
        &self,
        addr: usize,
        size: usize,
        source_group_id: AllocationGroupId,
        current_group_id: AllocationGroupId,
    ) {
        self.0.lock().unwrap().push(AllocationEvent::Deallocated {
            addr,
            size,
            source_group_id,
            current_group_id,
        });
    }
}

fn tracking_to_recorder() -> (AllocationRegistry<Recorder>, Recorder) {
    let recorder = Recorder::new();
    let mut tracking = AllocationRegistry::new();
    tracking.set_global_tracker(recorder.clone()).unwrap();
    tracking.enable_tracking();
    (tracking, recorder)
}

#[test]
fn allocators_wrap() {
    assert_eq!(Allocator::from_allocator(5u8).inner, 5);
    let _: Allocator<System> = Allocator::system();
    let _: Allocator<System> = Allocator::default();
}

#[test]
fn second_tracker_is_refused() {
    let first = Recorder::new();
    let second = Recorder::new();
    let mut tracking = AllocationRegistry::new();
    assert!(tracking.set_global_tracker(first.clone()).is_ok());
    let error = tracking.set_global_tracker(second.clone()).unwrap_err();
    assert_eq!(error.message(), "a global tracker has already been set");
    tracking.enable_tracking();
    let root = AllocationGroupId::root();
    let mut suspension = ThreadState::new().suspend();
    tracking.get_global_tracker().unwrap().deallocated(&mut suspension, 1, 2, root, root);
    assert_eq!(first.take().len(), 1);
    assert_eq!(second.take().len(), 0);
}

#[test]
fn cleared_tracker_can_be_replaced() {
    let (mut tracking, first) = tracking_to_recorder();
    tracking.clear_global_tracker();
    assert!(tracking.get_global_tracker().is_none());
    let second = Recorder::new();
    assert!(tracking.set_global_tracker(second.clone()).is_ok());
    let root = AllocationGroupId::root();
    let mut suspension = ThreadState::new().suspend();
    tracking.get_global_tracker().unwrap().allocated(&mut suspension, 1, 2, root, None);
    assert_eq!(first.take(), vec![]);
    assert_eq!(
        second.take(),
        vec![AllocationEvent::Allocated { addr: 1, size: 2, group_id: root, tags: None }]
    );
}

#[test]
fn setting_a_tracker_does_not_enable_tracking() {
    let mut tracking = AllocationRegistry::new();
    assert!(tracking.get_global_tracker().is_none());
    tracking.set_global_tracker(Recorder::new()).unwrap();
    assert!(tracking.get_global_tracker().is_none());
    tracking.enable_tracking();
    assert!(tracking.get_global_tracker().is_some());
    tracking.disable_tracking();
    assert!(tracking.get_global_tracker().is_none());
    tracking.disable_tracking();
    tracking.enable_tracking();
    assert!(tracking.get_global_tracker().is_some());
}

#[test]
fn enabling_does_not_need_a_tracker() {
    let mut tracking = AllocationRegistry::new();
    tracking.enable_tracking();
    assert!(tracking.get_global_tracker().is_none());
    tracking.set_global_tracker(Recorder::new()).unwrap();
    assert!(tracking.get_global_tracker().is_some());
}

#[test]
fn local_group_gets_two_allocations_and_root_two_deallocations() {
    let (mut tracking, recorder) = tracking_to_recorder();
    let mut tokens = SharedTokenRegistry::new();
    let mut thread = ThreadState::new();
    let allocator = Allocator::system();

    let token = AllocationGroupToken::acquire(&mut tokens, &mut thread);
    let group_id = token.id();
    let guard = token.enter(&mut thread);
    let string = allocator.track_alloc(&tracking, &tokens, &mut thread, 0x10, 12);
    let vector = allocator.track_alloc(&tracking, &tokens, &mut thread, 0x20, 96);
    let mark = allocation_group(&thread);
    assert_eq!(mark, group_id);
    let _token = guard.exit(&mut thread);
    let first = allocator.track_dealloc(&tracking, &mut thread, 0x10, 12, mark);
    let second = allocator.track_dealloc(&tracking, &mut thread, 0x20, 96, mark);
    tracking.disable_tracking();
    assert_eq!(allocator.track_dealloc(&tracking, &mut thread, 0x30, 1, mark), None);

    let root = AllocationGroupId::root();
    let expected = vec![
        AllocationEvent::Allocated { addr: 0x10, size: 12, group_id, tags: None },
        AllocationEvent::Allocated { addr: 0x20, size: 96, group_id, tags: None },
        AllocationEvent::Deallocated {
            addr: 0x10,
            size: 12,
            source_group_id: group_id,
            current_group_id: root,
        },
        AllocationEvent::Deallocated {
            addr: 0x20,
            size: 96,
            source_group_id: group_id,
            current_group_id: root,
        },
    ];
    assert_eq!(recorder.take(), expected);
    assert_eq!(vec![string, vector, first, second], expected.into_iter().map(Some).collect::<Vec<_>>());
}

#[test]
fn tags_are_provided_with_allocations() {
    let (tracking, recorder) = tracking_to_recorder();
    let mut tokens = SharedTokenRegistry::new();
    let mut thread = ThreadState::new();
    let allocator = Allocator::system();
    let owned = [(String::from("team"), String::from("storage"))];
    let tagged = AllocationGroupToken::acquire_with_tags(&mut tokens, &mut thread, &owned);
    let plain = AllocationGroupToken::acquire(&mut tokens, &mut thread);
    let (tagged_id, plain_id) = (tagged.id(), plain.id());
    let _outer = tagged.enter(&mut thread);
    allocator.track_alloc(&tracking, &tokens, &mut thread, 1, 2);
    let inner = plain.enter(&mut thread);
    allocator.track_alloc(&tracking, &tokens, &mut thread, 3, 4);
    allocator.track_dealloc(&tracking, &mut thread, 1, 2, tagged_id);
    let _plain = inner.exit(&mut thread);
    allocator.track_alloc(&tracking, &tokens, &mut thread, 5, 6);
    allocator.track_dealloc(&tracking, &mut thread, 5, 6, tagged_id);
    let tags: GroupTags = &[("team", "storage")];
    assert_eq!(
        recorder.take(),
        vec![
            AllocationEvent::Allocated { addr: 1, size: 2, group_id: tagged_id, tags: Some(tags) },
            AllocationEvent::Allocated { addr: 3, size: 4, group_id: plain_id, tags: None },
            AllocationEvent::Deallocated {
                addr: 1,
                size: 2,
                source_group_id: tagged_id,
                current_group_id: plain_id,
            },
            AllocationEvent::Allocated { addr: 5, size: 6, group_id: tagged_id, tags: Some(tags) },
            AllocationEvent::Deallocated {
                addr: 5,
                size: 6,
                source_group_id: tagged_id,
                current_group_id: tagged_id,
            },
        ]
    );
}

#[test]
fn no_group_no_allocation_events() {
    let (tracking, recorder) = tracking_to_recorder();
    let mut tokens = SharedTokenRegistry::new();
    let mut thread = ThreadState::new();
    let _token = AllocationGroupToken::acquire(&mut tokens, &mut thread);
    let event = Allocator::system().track_alloc(&tracking, &tokens, &mut thread, 1, 2);
    assert_eq!(event, None);
    assert_eq!(recorder.take(), vec![]);
}

#[test]
fn reports_do_not_nest() {
    let (tracking, _recorder) = tracking_to_recorder();
    let mut tokens = SharedTokenRegistry::new();
    let mut thread = ThreadState::new();
    let token = AllocationGroupToken::acquire(&mut tokens, &mut thread);
    let group_id = token.id();
    let _guard = token.enter(&mut thread);

    let (_, event, suspension) =
        begin_allocation(&tracking, &tokens, &mut thread, 1, 2).unwrap();
    assert_eq!(event, AllocationEvent::Allocated { addr: 1, size: 2, group_id, tags: None });
    assert!(!thread.reports());
    assert!(begin_allocation(&tracking, &tokens, &mut thread, 3, 4).is_none());
    assert!(begin_deallocation(&tracking, &mut thread, 3, 4, group_id).is_none());
    assert!(!thread.reports());
    finish_event(&mut thread, suspension);

    let (_, event, suspension) =
        begin_deallocation(&tracking, &mut thread, 1, 2, group_id).unwrap();
    assert_eq!(
        event,
        AllocationEvent::Deallocated {
            addr: 1,
            size: 2,
            source_group_id: group_id,
            current_group_id: group_id,
        }
    );
    assert!(begin_allocation(&tracking, &tokens, &mut thread, 3, 4).is_none());
    assert!(begin_deallocation(&tracking, &mut thread, 3, 4, group_id).is_none());
    finish_event(&mut thread, suspension);
    assert!(thread.reports());
    assert_eq!(thread.current(), Some(group_id));
}

#[test]
fn untracked_code_does_not_report() {
    let (tracking, _recorder) = tracking_to_recorder();
    let mut thread = ThreadState::new();
    let seen = tracking.untracked(&mut thread, |meanwhile| meanwhile.reports());
    assert!(!seen);
    assert!(thread.reports());
    assert_eq!(tracking.untracked(&mut thread, |_| 5), 5);
}

#[test]
fn shared_tracker_outlives_clearing() {
    let (mut tracking, recorder) = tracking_to_recorder();
    let shared = tracking.get_global_tracker().unwrap().share();
    tracking.clear_global_tracker();
    let root = AllocationGroupId::root();
    let event = AllocationEvent::Deallocated {
        addr: 9,
        size: 8,
        source_group_id: root,
        current_group_id: root,
    };
    shared.deliver(&mut ThreadState::new().suspend(), event);
    assert_eq!(recorder.take(), vec![event]);
}

#[test]
fn allocations_are_marked_with_the_active_group_or_root() {
    let mut tokens = SharedTokenRegistry::new();
    let mut thread = ThreadState::new();
    assert_eq!(allocation_group(&thread), AllocationGroupId::root());
    let token = AllocationGroupToken::acquire(&mut tokens, &mut thread);
    let group_id = token.id();
    let guard = token.enter(&mut thread);
    assert_eq!(allocation_group(&thread), group_id);
    let _token = guard.exit(&mut thread);
    assert_eq!(allocation_group(&thread), AllocationGroupId::root());
}

#[test]
fn another_thread_frees_with_the_group_of_the_allocation() {
    let (tracking, recorder) = tracking_to_recorder();
    let mut tokens = SharedTokenRegistry::new();
    let mut maker = ThreadState::new();
    let mut freer = ThreadState::new();
    let allocator = Allocator::system();
    let made = AllocationGroupToken::acquire(&mut tokens, &mut maker);
    let freed = AllocationGroupToken::acquire(&mut tokens, &mut freer);
    let (made_id, freed_id) = (made.id(), freed.id());
    let _made = made.enter(&mut maker);
    let _freed = freed.enter(&mut freer);
    let mark = allocation_group(&maker);
    allocator.track_alloc(&tracking, &tokens, &mut maker, 0x40, 384);
    allocator.track_dealloc(&tracking, &mut freer, 0x40, 384, mark);
    assert_eq!(
        recorder.take(),
        vec![
            AllocationEvent::Allocated { addr: 0x40, size: 384, group_id: made_id, tags: None },
            AllocationEvent::Deallocated {
                addr: 0x40,
                size: 384,
                source_group_id: made_id,
                current_group_id: freed_id,
            },
        ]
    );
}

#[test]
fn suspensions_nest() {
    let mut thread = ThreadState::new();
    let outer = thread.suspend();
    let inner = thread.suspend();
    thread.resume(inner);
    assert!(!thread.reports());
    thread.resume(outer);
    assert!(thread.reports());
}

#[test]
fn clearing_leaks_the_tracker() {
    let (mut tracking, recorder) = tracking_to_recorder();
    assert_eq!(Arc::strong_count(&recorder.0), 2);
    tracking.clear_global_tracker();
    drop(tracking);
    assert_eq!(Arc::strong_count(&recorder.0), 2);
}
