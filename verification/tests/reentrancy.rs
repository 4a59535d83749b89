//! The `allocated` and `deallocated` methods of the `AllocationTracker` used in this test,
//! themselves, allocate. This test ensures that these allocations do not lead to infinite
//! recursion.

use std::sync::atomic::{AtomicU64, Ordering};
use std::sync::{Arc, Mutex};

use tracking_allocator::{
    allocation_group, begin_allocation, begin_deallocation, finish_event, AllocationGroupId,
    AllocationGroupToken, AllocationRegistry, AllocationTracker, GroupTags, SharedTokenRegistry,
    ThreadState,
};

/// All state there is, and how often the tracker was called.
struct World {
    tracking: Mutex<AllocationRegistry<AllocatingTracker>>,
    tokens: Mutex<SharedTokenRegistry>,
    thread: Mutex<ThreadState>,
    allocations: AtomicU64,
    deallocations: AtomicU64,
}

impl World {
    /// Allocates, and returns the group that the allocation is marked with.
    fn allocate(&self, addr: usize, size: usize) -> AllocationGroupId {
        let group_id = allocation_group(&self.thread.lock().unwrap());
        let report = {
            let tracking = self.tracking.lock().unwrap();
            let tokens = self.tokens.lock().unwrap();
            let mut thread = self.thread.lock().unwrap();
            begin_allocation(&tracking, &tokens, &mut thread, addr, size)
                .map(|(tracker, event, suspension)| (tracker.share(), event, suspension))
        };
        if let Some((tracker, event, mut suspension)) = report {
            tracker.deliver(&mut suspension, event);
            finish_event(&mut self.thread.lock().unwrap(), suspension);
        }
        group_id
    }

    fn deallocate(&self, addr: usize, size: usize, source_group_id: AllocationGroupId) {
        let report = {
            let tracking = self.tracking.lock().unwrap();
            let mut thread = self.thread.lock().unwrap();
            begin_deallocation(&tracking, &mut thread, addr, size, source_group_id)
                .map(|(tracker, event, suspension)| (tracker.share(), event, suspension))
        };
        if let Some((tracker, event, mut suspension)) = report {
            tracker.deliver(&mut suspension, event);
            finish_event(&mut self.thread.lock().unwrap(), suspension);
        }
    }
}

struct AllocatingTracker(Arc<World>);

impl AllocationTracker for AllocatingTracker {
    fn allocated(
        &self,
        _addr: usize,
        _size: usize,
        _group_id: AllocationGroupId,
        _tags: Option<GroupTags>,
    ) {
        self.0.allocations.fetch_add(1, Ordering::SeqCst);
        let group_id = self.0.allocate(0x2000, 512);
        self.0.deallocate(0x2000, 512, group_id);
    }

    fn deallocated(
        &self,
        _addr: usize,
        _size: usize,
        _source_group_id: AllocationGroupId,
        _current_group_id: AllocationGroupId,
    ) {
        self.0.deallocations.fetch_add(1, Ordering::SeqCst);
        let group_id = self.0.allocate(0x3000, 512);
        self.0.deallocate(0x3000, 512, group_id);
    }
}

#[test]
fn test() {
    let world = Arc::new(World {
        tracking: Mutex::new(AllocationRegistry::new()),
        tokens: Mutex::new(SharedTokenRegistry::new()),
        thread: Mutex::new(ThreadState::new()),
        allocations: AtomicU64::new(0),
        deallocations: AtomicU64::new(0),
    });

    let _ = world
        .tracking
        .lock()
        .unwrap()
        .set_global_tracker(AllocatingTracker(Arc::clone(&world)))
        .expect("no other global tracker should be set");
    world.tracking.lock().unwrap().enable_tracking();
    let local_token = AllocationGroupToken::acquire(
        &mut world.tokens.lock().unwrap(),
        &mut world.thread.lock().unwrap(),
    );
    let _guard = local_token.enter(&mut world.thread.lock().unwrap());

    let allocations = || world.allocations.load(Ordering::SeqCst);
    let deallocations = || world.deallocations.load(Ordering::SeqCst);

    assert_eq!(0, allocations());
    assert_eq!(0, deallocations());

    let value = Box::new(10);
    let size = std::mem::size_of_val(&*value);
    let group_id = world.allocate(0x1000, size); // allocate

    assert_eq!(1, allocations());
    assert_eq!(0, deallocations());

    drop(value);
    world.deallocate(0x1000, size, group_id); // deallocate

    assert_eq!(1, allocations());
    assert_eq!(1, deallocations());
}
