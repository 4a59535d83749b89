use tracking_allocator::{
    AllocationGroupId, AllocationGroupToken, GroupStack, SharedTokenRegistry, ThreadState,
};

#[test]
fn empty_stack_is_in_the_root_group() {
    assert_eq!(GroupStack::new().current(), AllocationGroupId::root());
}

#[test]
fn push_and_pop() {
    let mut tokens = SharedTokenRegistry::new();
    let mut thread = ThreadState::new();
    let mut stack = GroupStack::new();
    let mut ids = Vec::new();
    for _ in 0..200 {
        let token = AllocationGroupToken::acquire(&mut tokens, &mut thread);
        stack.push(&mut thread, token.id());
        assert_eq!(stack.current(), token.id());
        assert!(thread.reports());
        ids.push(token.id());
    }
    while let Some(id) = ids.pop() {
        assert_eq!(stack.current(), id);
        assert_eq!(stack.pop(), id);
    }
    assert_eq!(stack.current(), AllocationGroupId::root());
}
